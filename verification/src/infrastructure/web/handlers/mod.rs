pub mod dashboard_handler;
pub mod settings_handler;
pub mod solar_api;
pub mod websocket_handler;
