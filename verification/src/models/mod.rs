pub mod accounts;
pub mod oauth;
pub mod profile_overrides;
pub mod profile_stage_layers;
pub mod profile_stages;
pub mod profiles;
pub mod runs;
pub mod upload_platforms;
pub mod uploads;
