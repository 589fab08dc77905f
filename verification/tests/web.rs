use haretropanel::application::services::dashboard_service::EntityPages;
use haretropanel::config::{AppConfig, LogRotation};
use haretropanel::domain::{DashboardState, Entity, EntityId, EntityKind};
use haretropanel::infrastructure::web::handlers::dashboard_handler::{
    build_page_layout, js_string_array, pump_states_js,
};
use haretropanel::infrastructure::web::handlers::settings_handler::{
    get_entity_settings, EntitySettingsViewModel as SettingsRow,
};
use haretropanel::infrastructure::web::handlers::solar_api::garage_status;
use haretropanel::infrastructure::web::handlers::websocket_handler::{
    bearer_token, check_ws_auth, failure_message, handle_client_command, query_param, ws_solar,
    ClientCommand, CommandAction, CommandPlan, CommandRun, CommandStage, ServiceStep,
};
use haretropanel::infrastructure::web::viewhelpers::{build_garage_door, make_garage_door_vm};
use haretropanel::infrastructure::web::viewmodels::{EntitySettingsViewModel, EntityViewModel};

fn make_entity(id: &str, name: &str, kind: EntityKind, is_on: bool, value: Option<String>) -> Entity {
    Entity {
        id: EntityId::from(id),
        name: name.to_string(),
        kind,
        is_on,
        value,
    }
}

fn make_state(has_entity: bool) -> DashboardState {
    let entities = if has_entity {
        vec![Entity {
            id: EntityId("sensor.garage_left".into()),
            name: "Meine Garage".into(),
            kind: EntityKind::Switch,
            is_on: true,
            value: Some("open".into()),
        }]
    } else {
        Vec::new()
    };
    DashboardState { entities }
}

fn config() -> AppConfig {
    AppConfig {
        server_port: 8080,
        ha_base_url: "http://localhost:8123".to_string(),
        ha_token: None,
        demo_mode: false,
        solar_entity_id: "sensor.solar".to_string(),
        solar_buffer_top_entity_id: "sensor.top".to_string(),
        solar_buffer_bottom_entity_id: "sensor.bottom".to_string(),
        solar_flow_entity_id: "sensor.flow".to_string(),
        solar_return_entity_id: "sensor.return".to_string(),
        solar_pump_entity_id: "switch.pump".to_string(),
        charger_current_entity_id: "sensor.amps".to_string(),
        goe_status_entity_id: "sensor.status".to_string(),
        goe_energy_entity_id: "sensor.goe_energy".to_string(),
        goe_car_connected_entity_id: "binary_sensor.car".to_string(),
        goe_charging_entity_id: "binary_sensor.charging".to_string(),
        garage_left_status_entity_id: "binary_sensor.left".to_string(),
        garage_left_action_entity_id: "cover.left".to_string(),
        garage_right_status_entity_id: "binary_sensor.right".to_string(),
        garage_right_action_entity_id: "cover.right".to_string(),
        solar_history_minutes: 60,
        solar_sample_secs: 60,
        goe_energy_stable_secs: 60,
        force_fetch_interval_secs: 120,
        log_file: None,
        log_level: "info".to_string(),
        log_dir: None,
        log_rotation: LogRotation::Never,
        dashboard_cache_ttl_default_secs: 5,
        dashboard_cache_ttl_light_secs: None,
        dashboard_cache_ttl_switch_secs: None,
        dashboard_cache_ttl_sensor_secs: None,
        dashboard_cache_ttl_climate_secs: None,
        ws_auth_token: None,
    }
}

#[test]
fn test_garage_door_open() {
    let state = make_state(true);
    let door = build_garage_door("sensor.garage_left", "Default", &state);
    assert_eq!(door.status, "Offen");
    assert_eq!(door.action, "Schließen");
    assert_eq!(door.button_class, "garage-btn garage-open");
    assert_eq!(door.name, "Meine Garage");
}

#[test]
fn test_garage_door_closed() {
    let entities = vec![Entity {
        id: EntityId("sensor.garage_left".into()),
        name: "Meine Garage".into(),
        kind: EntityKind::Switch,
        is_on: false,
        value: Some("closed".into()),
    }];
    let state = DashboardState { entities };
    let door = build_garage_door("sensor.garage_left", "Default", &state);
    assert_eq!(door.status, "Geschlossen");
    assert_eq!(door.action, "Öffnen");
    assert_eq!(door.button_class, "garage-btn garage-closed");
    assert_eq!(door.name, "Meine Garage");
}

#[test]
fn test_garage_door_missing_entity() {
    let state = make_state(false);
    let door = build_garage_door("sensor.nonexistent", "Left Garage", &state);
    assert_eq!(door.status, "Geschlossen");
    assert_eq!(door.action, "Öffnen");
    assert_eq!(door.button_class, "garage-btn garage-closed");
    assert_eq!(door.name, "Left Garage");
}

#[test]
fn test_garage_door_entity_not_found() {
    let state = make_state(true);
    let door = build_garage_door("sensor.garage_right", "Right Garage", &state);
    assert_eq!(door.status, "Geschlossen");
    assert_eq!(door.name, "Right Garage");
}

#[test]
fn test_make_garage_door_vm_open() {
    let e = Entity {
        id: EntityId("sensor.garage_left".into()),
        name: "Meine Garage".into(),
        kind: EntityKind::Switch,
        is_on: true,
        value: Some("open".into()),
    };
    let vm = make_garage_door_vm(Some(&e), "sensor.garage_left_action", "Garage Left");
    assert_eq!(vm.status_label, "Offen");
    assert_eq!(vm.action_label, "Schließen");
    assert_eq!(vm.button_class, "garage-btn garage-open");
    assert_eq!(vm.name, "Meine Garage");
}

#[test]
fn test_make_garage_door_vm_closed() {
    let e = Entity {
        id: EntityId("sensor.garage_left".into()),
        name: "Garage Links Offen".into(),
        kind: EntityKind::Switch,
        is_on: false,
        value: Some("closed".into()),
    };
    let vm = make_garage_door_vm(Some(&e), "sensor.garage_left_action", "Garage Left");
    assert_eq!(vm.status_label, "Geschlossen");
    assert_eq!(vm.action_label, "Öffnen");
    assert_eq!(vm.name, "Links");
}

#[test]
fn test_make_garage_door_vm_none() {
    let vm = make_garage_door_vm(None, "sensor.nonexistent", "Default Garage");
    assert_eq!(vm.status_label, "Geschlossen");
    assert_eq!(vm.action_label, "Öffnen");
    assert_eq!(vm.button_class, "garage-btn garage-closed");
    assert_eq!(vm.name, "Default Garage");
}

#[test]
fn make_garage_door_vm_default_name_is_cleaned_and_id_kept() {
    let vm = make_garage_door_vm(None, "cover.left", "Garage Left");
    assert_eq!(vm.name, "Left");
    assert_eq!(vm.id, "cover.left");
    let e = make_entity("x", "  Garage  Rechts  Offen ", EntityKind::Cover, true, None);
    let vm = make_garage_door_vm(Some(&e), "cover.right", "Garage Right");
    assert_eq!(vm.name, "Garage  Rechts  Offen");
}

#[test]
fn test_viewmodel_from_light_on() {
    let entity = make_entity("light.lamp", "Lamp", EntityKind::Light, true, None);
    let vm = EntityViewModel::from(&entity);
    assert_eq!(vm.id, "light.lamp");
    assert_eq!(vm.name, "Lamp");
    assert_eq!(vm.kind_label, "Light");
    assert!(vm.is_on);
    assert!(!vm.has_value);
    assert_eq!(vm.value, "");
    assert!(vm.can_toggle);
    assert!(!vm.can_run_script);
}

#[test]
fn test_viewmodel_from_switch_off() {
    let entity = make_entity("switch.outdoor", "Outdoor", EntityKind::Switch, false, None);
    let vm = EntityViewModel::from(&entity);
    assert!(!vm.is_on);
    assert!(vm.can_toggle);
    assert!(!vm.can_run_script);
}

#[test]
fn test_viewmodel_from_sensor_with_value() {
    let entity = make_entity("sensor.temp", "Temperature", EntityKind::Sensor, false, Some("22".to_string()));
    let vm = EntityViewModel::from(&entity);
    assert_eq!(vm.kind_label, "Sensor");
    assert!(vm.has_value);
    assert_eq!(vm.value, "22");
    assert!(!vm.can_toggle);
    assert!(!vm.can_run_script);
}

#[test]
fn test_viewmodel_from_climate() {
    let entity = make_entity("climate.home", "Thermostat", EntityKind::Climate, true, None);
    let vm = EntityViewModel::from(&entity);
    assert_eq!(vm.kind_label, "Climate");
    assert!(!vm.can_toggle);
    assert!(!vm.can_run_script);
}

#[test]
fn test_viewmodel_from_script() {
    let entity = make_entity("script.away_mode", "Away Mode", EntityKind::Script, false, None);
    let vm = EntityViewModel::from(&entity);
    assert_eq!(vm.kind_label, "Script");
    assert!(!vm.can_toggle);
    assert!(vm.can_run_script);
}

#[test]
fn viewmodel_from_cover() {
    let entity = make_entity("cover.door", "Door", EntityKind::Cover, true, Some("open".into()));
    let vm = EntityViewModel::from(&entity);
    assert_eq!(vm.kind_label, "Cover");
    assert!(vm.can_toggle_cover);
    assert!(!vm.can_toggle);
}

#[test]
fn test_entity_settings_viewmodel() {
    let entity = make_entity("light.lamp", "Lamp", EntityKind::Light, true, None);
    let vm = EntityViewModel::from(&entity);
    let settings = EntitySettingsViewModel {
        id: vm.id,
        name: vm.name,
        is_selected: true,
        page: 1,
    };
    assert_eq!(settings.id, "light.lamp");
    assert!(settings.is_selected);
}

fn pages(entries: &[(&str, usize)]) -> EntityPages {
    EntityPages {
        entries: entries.iter().map(|(k, v)| (k.to_string(), *v)).collect(),
    }
}

#[test]
fn page_layout_tabs_are_sorted_pages_in_use() {
    let state = DashboardState {
        entities: vec![
            make_entity("sensor.solar", "Solar", EntityKind::Sensor, true, Some("1 W".into())),
            make_entity("light.a", "A", EntityKind::Light, true, None),
            make_entity("light.b", "B", EntityKind::Light, false, None),
            make_entity("light.c", "C", EntityKind::Light, false, None),
            make_entity("light.d", "D", EntityKind::Light, false, None),
        ],
    };
    let p = pages(&[("light.a", 3), ("light.b", 1), ("light.c", 3), ("light.d", 0), ("sensor.solar", 7)]);
    let layout = build_page_layout(&state, &config(), &p, Some(3));
    assert_eq!(layout.page_numbers, vec![1, 3]);
    assert_eq!(layout.page_tabs, vec!["Page 1".to_string(), "Page 3".to_string()]);
    assert_eq!(layout.active_tab, 1);
    let ids: Vec<&str> = layout.page_entities.iter().map(|e| e.id.as_str()).collect();
    assert_eq!(ids, vec!["light.b"]);

    let layout = build_page_layout(&state, &config(), &p, Some(2));
    assert_eq!(layout.active_tab, 2);
    assert!(layout.page_entities.is_empty());

    let layout = build_page_layout(&state, &config(), &p, None);
    assert_eq!(layout.active_tab, 1);
}

#[test]
fn page_layout_without_pages_has_no_tabs() {
    let state = DashboardState {
        entities: vec![make_entity("light.a", "A", EntityKind::Light, true, None)],
    };
    let layout = build_page_layout(&state, &config(), &pages(&[]), Some(0));
    assert!(layout.page_tabs.is_empty());
    assert_eq!(layout.active_tab, 1);
    assert!(layout.page_entities.is_empty());
}

#[test]
fn js_arrays_are_quoted_and_joined() {
    assert_eq!(js_string_array(&vec![]), "[]");
    assert_eq!(
        js_string_array(&vec!["10:00".to_string(), "-5m".to_string()]),
        "[\"10:00\",\"-5m\"]"
    );
    assert_eq!(
        pump_states_js(&vec![(1_500_000_000u128, true), (2_999_999u128, false)]),
        "[{\"t\":1500,\"on\":true},{\"t\":2,\"on\":false}]"
    );
}

#[test]
fn settings_rows_skip_system_entities() {
    let state = DashboardState {
        entities: vec![
            make_entity("sensor.solar", "Solar", EntityKind::Sensor, true, Some("1 W".into())),
            make_entity("light.a", "A", EntityKind::Light, true, None),
            make_entity("sensor.t", "T", EntityKind::Sensor, false, Some("".into())),
            make_entity("cover.left", "Left", EntityKind::Cover, false, None),
            make_entity("sensor.top", "Top", EntityKind::Sensor, false, Some("50 °C".into())),
        ],
    };
    let rows = get_entity_settings(&state, &config(), &vec![EntityId::from("light.a")], &pages(&[("sensor.top", 4)]));
    let ids: Vec<&str> = rows.iter().map(|r| r.id.as_str()).collect();
    assert_eq!(ids, vec!["light.a", "sensor.t", "sensor.top"]);
    assert!(rows[0].is_selected);
    assert!(rows[0].can_toggle);
    assert_eq!(rows[0].value, "N/A");
    assert!(!rows[0].has_value);
    assert!(!rows[1].has_value);
    assert_eq!(rows[1].kind_label, "Sensor");
    assert_eq!(rows[2].page, 4);
    assert_eq!(rows[0].page, 1);
    let row = SettingsRow::from((&state.entities[3], false, 2));
    assert!(row.can_toggle_cover);
    assert!(!row.can_run_script);
}

#[test]
fn solar_api_garage_status_is_english() {
    let state = make_state(true);
    let door = garage_status("sensor.garage_left", "Garage Left", &state);
    assert_eq!(door.status, "Open");
    assert_eq!(door.action, "Close");
    let door = garage_status("sensor.none", "Garage Left", &state);
    assert_eq!(door.status, "Closed");
    assert_eq!(door.action, "Open");
    assert_eq!(door.name, "Garage Left");
}

#[test]
fn query_params_are_found() {
    assert_eq!(query_param(Some("token=abc"), "token"), Some("abc".to_string()));
    assert_eq!(query_param(Some("a=1&token=xyz&b=2"), "token"), Some("xyz".to_string()));
    assert_eq!(query_param(Some("tokens=1&token=2"), "token"), Some("2".to_string()));
    assert_eq!(query_param(Some("token=a=b"), "token"), Some("a=b".to_string()));
    assert_eq!(query_param(Some("token=abc=&x=1"), "token"), Some("abc=".to_string()));
    assert_eq!(query_param(Some("a=1"), "token"), None);
    assert_eq!(query_param(None, "token"), None);
    assert_eq!(query_param(Some(""), "token"), None);
}

#[test]
fn ws_auth_uses_bearer_then_query() {
    assert_eq!(bearer_token(Some("Bearer abc")), Some("abc".to_string()));
    assert_eq!(bearer_token(Some("Basic abc")), None);
    assert!(check_ws_auth(Some("Bearer s3cret"), None, "s3cret"));
    assert!(check_ws_auth(None, Some("token=s3cret"), "s3cret"));
    assert!(!check_ws_auth(None, Some("token=wrong_token"), "correct_token"));
    assert!(check_ws_auth(None, None, ""));
    assert!(ws_solar(&None, None, None));
    assert!(!ws_solar(&Some("correct_token".to_string()), None, Some("token=wrong_token")));
}

#[test]
fn save_settings_drops_pages_below_one() {
    let cmd = ClientCommand::SaveSettings {
        visible: vec!["light.a".to_string(), "light.b".to_string()],
        pages: pages(&[("light.a", 0), ("light.b", 1)]),
    };
    match handle_client_command(cmd) {
        CommandPlan::SaveSettings { visible, pages } => {
            assert_eq!(visible, vec![EntityId::from("light.a"), EntityId::from("light.b")]);
            assert_eq!(pages.entries, vec![("light.b".to_string(), 1)]);
        }
        _ => panic!("Expected SaveSettings"),
    }
    match handle_client_command(ClientCommand::Toggle { entity_id: "light.test".to_string() }) {
        CommandPlan::Toggle(id) => assert_eq!(id.0, "light.test"),
        _ => panic!("Expected Toggle"),
    }
    assert_eq!(
        failure_message(CommandStage::Toggle, "Internal error: boom"),
        "Toggle failed: Internal error: boom"
    );
    assert_eq!(failure_message(CommandStage::Parse, "x"), "Invalid command: x");
}

#[test]
fn toggle_command_calls_then_drops_the_cache_then_answers() {
    let plan = handle_client_command(ClientCommand::Toggle { entity_id: "light.test".to_string() });
    let (mut run, action) = CommandRun::begin(plan);
    assert!(matches!(action, CommandAction::Perform));
    assert!(matches!(run.current(), ServiceStep::Toggle(id) if id.as_str() == "light.test"));
    let action = run.resume(Ok(()));
    assert!(matches!(action, CommandAction::Perform));
    assert!(matches!(run.current(), ServiceStep::InvalidateCache));
    let action = run.resume(Ok(()));
    assert!(matches!(action, CommandAction::ReplyPayload));
    assert!(!run.in_progress());
}

#[test]
fn failed_toggle_answers_with_its_error_and_stops() {
    let plan = handle_client_command(ClientCommand::Toggle { entity_id: "light.test".to_string() });
    let (mut run, _) = CommandRun::begin(plan);
    match run.resume(Err("Internal error: boom".to_string())) {
        CommandAction::ReplyError(m) => assert_eq!(m, "Toggle failed: Internal error: boom"),
        other => panic!("unexpected {other:?}"),
    }
    assert!(!run.in_progress());
}

#[test]
fn failed_script_answers_with_its_error() {
    let plan = handle_client_command(ClientCommand::RunScript { entity_id: "script.away_mode".to_string() });
    let (mut run, _) = CommandRun::begin(plan);
    assert!(matches!(run.current(), ServiceStep::RunScript(id) if id.as_str() == "script.away_mode"));
    match run.resume(Err("x".to_string())) {
        CommandAction::ReplyError(m) => assert_eq!(m, "Script failed: x"),
        other => panic!("unexpected {other:?}"),
    }
}

#[test]
fn save_settings_saves_ids_then_pages_and_stops_on_failure() {
    let cmd = ClientCommand::SaveSettings {
        visible: vec!["light.a".to_string(), "light.b".to_string()],
        pages: pages(&[("light.a", 0), ("light.b", 1)]),
    };
    let (mut run, _) = CommandRun::begin(handle_client_command(cmd));
    match run.current() {
        ServiceStep::SaveVisible(ids) => {
            assert_eq!(ids, &vec![EntityId::from("light.a"), EntityId::from("light.b")])
        }
        other => panic!("unexpected {other:?}"),
    }
    assert!(matches!(run.resume(Ok(())), CommandAction::Perform));
    match run.current() {
        ServiceStep::SavePages(p) => assert_eq!(p.entries, vec![("light.b".to_string(), 1)]),
        other => panic!("unexpected {other:?}"),
    }
    assert!(matches!(run.resume(Ok(())), CommandAction::ReplyPayload));

    let cmd = ClientCommand::SaveSettings { visible: vec![], pages: pages(&[]) };
    let (mut run, _) = CommandRun::begin(handle_client_command(cmd));
    match run.resume(Err("disk".to_string())) {
        CommandAction::ReplyError(m) => assert_eq!(m, "Save visible failed: disk"),
        other => panic!("unexpected {other:?}"),
    }
    assert!(!run.in_progress());
}

#[test]
fn force_refresh_drops_the_cache() {
    let (mut run, action) = CommandRun::begin(handle_client_command(ClientCommand::ForceRefresh {}));
    assert!(matches!(action, CommandAction::Perform));
    assert!(matches!(run.current(), ServiceStep::InvalidateCache));
    assert!(matches!(run.resume(Ok(())), CommandAction::ReplyPayload));
}
