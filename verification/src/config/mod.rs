pub mod app_config;

pub use app_config::{AppConfig, EnvVars, LogRotation};
