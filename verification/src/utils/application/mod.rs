pub mod configuration;
pub mod environment;
