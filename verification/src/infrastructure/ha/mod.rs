pub mod demo_ha_client;
pub mod ha_http_client;
pub mod ha_models;
