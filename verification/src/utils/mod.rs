pub mod application;
pub mod encoding;
pub mod extractors;
pub mod strings;
pub mod text;
pub mod time;
