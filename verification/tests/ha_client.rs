use haretropanel::config::{AppConfig, LogRotation};
use haretropanel::domain::{EntityId, EntityKind};
use haretropanel::infrastructure::ha::ha_http_client::{
    build_value, entity_kind_from_id, is_on, HaHttpClient,
};
use haretropanel::infrastructure::ha::ha_models::{HaAttributes, HaStateResponse};

fn record(entity_id: &str, state: &str, name: Option<&str>, unit: Option<&str>) -> HaStateResponse {
    HaStateResponse {
        entity_id: entity_id.to_string(),
        state: state.to_string(),
        attributes: HaAttributes {
            friendly_name: name.map(|s| s.to_string()),
            unit_of_measurement: unit.map(|s| s.to_string()),
        },
    }
}

fn base_config() -> AppConfig {
    AppConfig {
        server_port: 8080,
        ha_base_url: "http://localhost:8123".to_string(),
        ha_token: Some("token".to_string()),
        demo_mode: false,
        solar_entity_id: "".to_string(),
        solar_buffer_top_entity_id: "".to_string(),
        solar_buffer_bottom_entity_id: "".to_string(),
        solar_flow_entity_id: "".to_string(),
        solar_return_entity_id: "".to_string(),
        solar_pump_entity_id: "".to_string(),
        charger_current_entity_id: "".to_string(),
        goe_status_entity_id: "".to_string(),
        goe_energy_entity_id: "".to_string(),
        goe_car_connected_entity_id: "".to_string(),
        goe_charging_entity_id: "".to_string(),
        garage_left_status_entity_id: "".to_string(),
        garage_left_action_entity_id: "".to_string(),
        garage_right_status_entity_id: "".to_string(),
        garage_right_action_entity_id: "".to_string(),
        solar_history_minutes: 3600,
        solar_sample_secs: 60,
        goe_energy_stable_secs: 60,
        force_fetch_interval_secs: 120,
        log_file: None,
        log_level: "info".to_string(),
        log_dir: None,
        log_rotation: LogRotation::Never,
        dashboard_cache_ttl_default_secs: 5,
        dashboard_cache_ttl_light_secs: None,
        dashboard_cache_ttl_switch_secs: None,
        dashboard_cache_ttl_sensor_secs: None,
        dashboard_cache_ttl_climate_secs: None,
        ws_auth_token: None,
    }
}

#[test]
fn test_entity_kind_from_id_light() {
    assert_eq!(entity_kind_from_id("light.lamp"), EntityKind::Light);
}

#[test]
fn test_entity_kind_from_id_switch() {
    assert_eq!(entity_kind_from_id("switch.outdoor"), EntityKind::Switch);
}

#[test]
fn test_entity_kind_from_id_climate() {
    assert_eq!(entity_kind_from_id("climate.home"), EntityKind::Climate);
}

#[test]
fn test_entity_kind_from_id_script() {
    assert_eq!(entity_kind_from_id("script.away_mode"), EntityKind::Script);
}

#[test]
fn test_entity_kind_from_id_sensor_fallback() {
    assert_eq!(entity_kind_from_id("binary_sensor.motion"), EntityKind::Sensor);
    assert_eq!(entity_kind_from_id("zone.home"), EntityKind::Sensor);
    assert_eq!(entity_kind_from_id("unknown.domain"), EntityKind::Sensor);
}

#[test]
fn entity_kind_from_id_covers_are_sensors_but_mapped_as_covers() {
    assert_eq!(entity_kind_from_id("cover.garage"), EntityKind::Sensor);
    assert_eq!(HaHttpClient::map_entity_kind("cover.garage"), EntityKind::Cover);
    assert_eq!(HaHttpClient::map_entity_kind("light.x"), EntityKind::Light);
    assert_eq!(HaHttpClient::map_entity_kind("lightning.x"), EntityKind::Sensor);
}

#[test]
fn test_is_on_light_on() {
    assert!(is_on(&EntityKind::Light, "on"));
}

#[test]
fn test_is_on_light_off() {
    assert!(!is_on(&EntityKind::Light, "off"));
}

#[test]
fn test_is_on_switch_on() {
    assert!(is_on(&EntityKind::Switch, "on"));
}

#[test]
fn test_is_on_switch_off() {
    assert!(!is_on(&EntityKind::Switch, "off"));
}

#[test]
fn test_is_on_climate_heat() {
    assert!(is_on(&EntityKind::Climate, "heat"));
    assert!(is_on(&EntityKind::Climate, "cool"));
    assert!(is_on(&EntityKind::Climate, "heat_cool"));
    assert!(is_on(&EntityKind::Climate, "auto"));
}

#[test]
fn test_is_on_climate_not_on() {
    assert!(!is_on(&EntityKind::Climate, "off"));
    assert!(!is_on(&EntityKind::Climate, "idle"));
}

#[test]
fn test_is_on_sensor_on() {
    assert!(is_on(&EntityKind::Sensor, "on"));
    assert!(is_on(&EntityKind::Sensor, "open"));
    assert!(is_on(&EntityKind::Sensor, "home"));
    assert!(is_on(&EntityKind::Sensor, "above_horizon"));
}

#[test]
fn test_is_on_sensor_off() {
    assert!(!is_on(&EntityKind::Sensor, "off"));
    assert!(!is_on(&EntityKind::Sensor, "closed"));
    assert!(!is_on(&EntityKind::Sensor, "not_home"));
    assert!(!is_on(&EntityKind::Sensor, "below_horizon"));
}

#[test]
fn test_is_on_script_on() {
    assert!(is_on(&EntityKind::Script, "on"));
}

#[test]
fn test_is_on_script_off() {
    assert!(!is_on(&EntityKind::Script, "off"));
}

#[test]
fn is_on_cover_open_or_opening() {
    assert!(is_on(&EntityKind::Cover, "open"));
    assert!(is_on(&EntityKind::Cover, "opening"));
    assert!(!is_on(&EntityKind::Cover, "closed"));
    assert!(HaHttpClient::is_on_state(&EntityKind::Cover, "opening"));
}

#[test]
fn test_build_value_sensor_no_unit() {
    let ha = record("sensor.temp", "22", None, None);
    let val = build_value(&EntityKind::Sensor, "22", &ha);
    assert_eq!(val, Some("22".to_string()));
}

#[test]
fn test_build_value_sensor_with_unit() {
    let ha = record("sensor.temp", "22", None, Some("°C"));
    let val = build_value(&EntityKind::Sensor, "22", &ha);
    assert_eq!(val, Some("22 °C".to_string()));
}

#[test]
fn test_build_value_climate_with_unit() {
    let ha = record("climate.home", "24", None, Some("°F"));
    let val = build_value(&EntityKind::Climate, "24", &ha);
    assert_eq!(val, Some("24 °F".to_string()));
}

#[test]
fn test_build_value_script() {
    let ha = record("script.away", "on", None, None);
    let val = build_value(&EntityKind::Script, "on", &ha);
    assert_eq!(val, Some("on".to_string()));
}

#[test]
fn test_build_value_light_is_none() {
    let ha = record("light.lamp", "on", None, None);
    assert!(build_value(&EntityKind::Light, "on", &ha).is_none());
}

#[test]
fn test_build_value_switch_is_none() {
    let ha = record("switch.outdoor", "on", None, None);
    assert!(build_value(&EntityKind::Switch, "on", &ha).is_none());
}

#[test]
fn build_value_script_ignores_unit_and_cover_keeps_it() {
    let ha = record("script.x", "off", None, Some("W"));
    assert_eq!(build_value(&EntityKind::Script, "off", &ha), Some("off".to_string()));
    assert_eq!(
        HaHttpClient::build_value(&EntityKind::Cover, "open", &ha),
        Some("open W".to_string())
    );
}

#[test]
fn test_build_entity_prefers_friendly_name() {
    let ha = record("light.lamp", "on", Some("Living Room"), None);
    let entity = HaHttpClient::build_entity(ha);
    assert_eq!(entity.name, "Living Room");
    assert_eq!(entity.kind, EntityKind::Light);
    assert!(entity.is_on);
    assert!(entity.value.is_none());
}

#[test]
fn test_build_entity_fallbacks_to_entity_id() {
    let ha = record("sensor.temp", "21", None, Some("°C"));
    let entity = HaHttpClient::build_entity(ha);
    assert_eq!(entity.name, "sensor.temp");
    assert_eq!(entity.kind, EntityKind::Sensor);
    assert_eq!(entity.value, Some("21 °C".to_string()));
}

#[test]
fn fetch_dashboard_state_keeps_record_order() {
    let state = HaHttpClient::fetch_dashboard_state(vec![
        record("switch.b", "off", None, None),
        record("light.a", "on", Some("A"), None),
    ]);
    assert_eq!(state.entities.len(), 2);
    assert_eq!(state.entities[0].id.0, "switch.b");
    assert!(!state.entities[0].is_on);
    assert_eq!(state.entities[1].name, "A");
    assert!(state.entities[1].is_on);
}

#[test]
fn test_build_client_requires_token() {
    let mut config = base_config();
    config.ha_token = None;
    let result = HaHttpClient::build_client(&config);
    assert!(result.is_err());
    assert_eq!(
        result.unwrap_err().message(),
        "Internal error: Missing Home Assistant token (HA_TOKEN)"
    );
}

#[test]
fn test_build_client_rejects_invalid_token() {
    let mut config = base_config();
    config.ha_token = Some("bad\ntoken".to_string());
    let result = HaHttpClient::build_client(&config);
    assert!(result.is_err());
}

#[test]
fn build_client_gives_bearer_header() {
    let config = base_config();
    assert_eq!(HaHttpClient::build_client(&config).unwrap(), "Bearer token");
    let mut tabbed = base_config();
    tabbed.ha_token = Some("a\tb".to_string());
    assert_eq!(HaHttpClient::build_client(&tabbed).unwrap(), "Bearer a\tb");
    let mut del = base_config();
    del.ha_token = Some("a\u{7f}b".to_string());
    assert!(HaHttpClient::build_client(&del).is_err());
}

#[test]
fn test_base_url_rejects_invalid_url() {
    let mut config = base_config();
    config.ha_base_url = "not a url".to_string();
    let client = HaHttpClient::new(config);
    let result = client.base_url();
    assert!(result.is_err());
    assert!(result
        .unwrap_err()
        .message()
        .starts_with("Internal error: Invalid HA_BASE_URL: "));
}

#[test]
fn states_and_service_urls_use_the_base() {
    let client = HaHttpClient::new(base_config());
    assert_eq!(client.states_url().unwrap(), "http://localhost:8123/api/states");
    let call = HaHttpClient::toggle(&EntityId::from("light.lamp"));
    assert_eq!(
        client.call_service(&call).unwrap(),
        "http://localhost:8123/api/services/light/toggle"
    );
    assert_eq!(HaHttpClient::service_path("script", "turn_on"), "api/services/script/turn_on");
}

#[test]
fn toggle_uses_the_domain_of_the_id() {
    let call = HaHttpClient::toggle(&EntityId::from("switch.outdoor"));
    assert_eq!(call.domain, "switch");
    assert_eq!(call.service, "toggle");
    assert_eq!(call.entity_id, "switch.outdoor");
    let bare = HaHttpClient::toggle(&EntityId::from("nodot"));
    assert_eq!(bare.domain, "nodot");
}

#[test]
fn test_run_script_rejects_non_script() {
    let result = HaHttpClient::run_script(&EntityId("light.lamp".to_string()));
    assert!(result.is_err());
    assert_eq!(
        result.unwrap_err().message(),
        "Internal error: run_script called with non-script entity_id: light.lamp"
    );
}

#[test]
fn run_script_calls_turn_on() {
    let call = HaHttpClient::run_script(&EntityId::from("script.away")).unwrap();
    assert_eq!(call.domain, "script");
    assert_eq!(call.service, "turn_on");
    assert_eq!(call.entity_id, "script.away");
}

#[test]
fn failed_requests_name_url_and_status() {
    assert_eq!(
        HaHttpClient::request_failed("http://x/api/states", "404 Not Found").message(),
        "Internal error: HA GET http://x/api/states failed with status 404 Not Found"
    );
    assert_eq!(
        HaHttpClient::service_call_failed("http://x/s", "500").message(),
        "Internal error: HA service call http://x/s failed with status 500"
    );
}
