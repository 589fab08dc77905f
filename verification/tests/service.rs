use haretropanel::application::services::dashboard_service::{
    age_of, clock_text, datetime_text, BufferTemps, DashboardCacheConfig, DashboardService,
    DateTimeParts, FetchReadings, PUMP_HISTORY_LEN,
};
use haretropanel::infrastructure::web::handlers::websocket_handler::{
    handle_client_command, ClientCommand, CommandAction, CommandRun, ServiceStep,
};
use haretropanel::shared::error::AppError;
use haretropanel::config::{AppConfig, LogRotation};
use haretropanel::domain::{DashboardState, Entity, EntityId, EntityKind};
use haretropanel::infrastructure::ha::demo_ha_client::DemoHaClient;

const SEC: u128 = 1_000_000_000;

fn config() -> AppConfig {
    AppConfig {
        server_port: 8080,
        ha_base_url: "http://localhost:8123".to_string(),
        ha_token: None,
        demo_mode: false,
        solar_entity_id: "sensor.solar".to_string(),
        solar_buffer_top_entity_id: "sensor.top".to_string(),
        solar_buffer_bottom_entity_id: "sensor.bottom".to_string(),
        solar_flow_entity_id: "sensor.flow".to_string(),
        solar_return_entity_id: "sensor.return".to_string(),
        solar_pump_entity_id: "switch.pump".to_string(),
        charger_current_entity_id: "sensor.amps".to_string(),
        goe_status_entity_id: "sensor.goe_status".to_string(),
        goe_energy_entity_id: "sensor.goe_energy".to_string(),
        goe_car_connected_entity_id: "binary_sensor.car".to_string(),
        goe_charging_entity_id: "binary_sensor.charging".to_string(),
        garage_left_status_entity_id: "binary_sensor.left".to_string(),
        garage_left_action_entity_id: "cover.left_move".to_string(),
        garage_right_status_entity_id: "binary_sensor.right".to_string(),
        garage_right_action_entity_id: "cover.right_move".to_string(),
        solar_history_minutes: 60,
        solar_sample_secs: 60,
        goe_energy_stable_secs: 60,
        force_fetch_interval_secs: 120,
        log_file: None,
        log_level: "info".to_string(),
        log_dir: None,
        log_rotation: LogRotation::Never,
        dashboard_cache_ttl_default_secs: 5,
        dashboard_cache_ttl_light_secs: None,
        dashboard_cache_ttl_switch_secs: None,
        dashboard_cache_ttl_sensor_secs: None,
        dashboard_cache_ttl_climate_secs: None,
        ws_auth_token: None,
    }
}

fn make_entity(id: &str, kind: EntityKind) -> Entity {
    Entity { id: EntityId(id.to_string()), name: id.to_string(), kind, is_on: true, value: None }
}

fn valued(id: &str, value: &str) -> Entity {
    Entity {
        id: EntityId(id.to_string()),
        name: id.to_string(),
        kind: EntityKind::Sensor,
        is_on: false,
        value: Some(value.to_string()),
    }
}

fn cache_config(default_ttl_secs: u64, light_ttl_secs: Option<u64>) -> DashboardCacheConfig {
    DashboardCacheConfig {
        default_ttl_secs,
        light_ttl_secs,
        switch_ttl_secs: None,
        sensor_ttl_secs: None,
        climate_ttl_secs: None,
    }
}

fn service(default_ttl: u64, light_ttl: Option<u64>) -> DashboardService<f64> {
    DashboardService::new(cache_config(default_ttl, light_ttl), config())
}

fn kitchen_and_fan() -> DashboardState {
    DashboardState {
        entities: vec![
            make_entity("light.kitchen", EntityKind::Light),
            make_entity("switch.fan", EntityKind::Switch),
        ],
    }
}

#[test]
fn get_dashboard_returns_all_when_no_visible_ids() {
    let svc = service(60, None);
    let dashboard = svc.get_dashboard(&kitchen_and_fan(), &Vec::new());
    assert_eq!(dashboard.entities.len(), 2);
}

#[test]
fn get_dashboard_filters_visible_entities() {
    let svc = service(60, None);
    let dashboard =
        svc.get_dashboard(&kitchen_and_fan(), &vec![EntityId("light.kitchen".to_string())]);
    assert_eq!(dashboard.entities.len(), 1);
    assert_eq!(dashboard.entities[0].id, EntityId("light.kitchen".to_string()));
}

#[test]
fn get_dashboard_keeps_system_entities() {
    let svc = service(60, None);
    let mut all = kitchen_and_fan();
    all.entities.push(valued("sensor.solar", "100 W"));
    all.entities.push(valued("sensor.other", "1"));
    let dashboard = svc.get_dashboard(&all, &vec![EntityId("switch.fan".to_string())]);
    let ids: Vec<String> = dashboard.entities.iter().map(|e| e.id.to_string()).collect();
    assert_eq!(ids, vec!["switch.fan".to_string(), "sensor.solar".to_string()]);
}

#[test]
fn get_dashboard_with_refresh_forces_new_fetch() {
    let mut svc = service(60, None);
    svc.store_state(&DashboardState { entities: vec![make_entity("light.kitchen", EntityKind::Light)] }, 0, 0);
    svc.get_dashboard_with_refresh(false);
    assert!(svc.cached_state(SEC).is_some());
    svc.get_dashboard_with_refresh(true);
    assert!(svc.cached_state(SEC).is_none());
    svc.store_state(&DashboardState { entities: vec![make_entity("switch.fan", EntityKind::Switch)] }, SEC, SEC);
    let refreshed = svc.cached_state(SEC).unwrap();
    assert_eq!(refreshed.entities[0].id, EntityId("switch.fan".to_string()));
}

#[test]
fn uses_cache_within_ttl() {
    let mut svc = service(60, None);
    assert!(svc.cached_state(0).is_none());
    svc.store_state(&DashboardState { entities: vec![make_entity("light.kitchen", EntityKind::Light)] }, 0, 0);
    let first = svc.cached_state(30 * SEC).unwrap();
    let second = svc.cached_state(60 * SEC).unwrap();
    assert_eq!(first.entities[0].id, second.entities[0].id);
    assert!(svc.cached_state(60 * SEC + 1).is_none());
}

#[test]
fn cache_expires_using_lowest_ttl() {
    let mut svc = service(60, Some(1));
    svc.store_state(&kitchen_and_fan(), 0, 0);
    assert_eq!(svc.ttl_for_state(&kitchen_and_fan()), 1);
    assert!(svc.cached_state(SEC).is_some());
    assert!(svc.cached_state(1100 * 1_000_000).is_none());
}

/// Carries out a command's calls against the service core; Home Assistant
/// and the layout store answer with `ha_outcome`. Returns the calls made
/// to Home Assistant and the reply.
fn run_command(
    svc: &mut DashboardService<f64>,
    cmd: ClientCommand,
    ha_outcome: Result<(), String>,
) -> (Vec<String>, CommandAction) {
    let mut calls = Vec::new();
    let (mut run, mut action) = CommandRun::begin(handle_client_command(cmd));
    while let CommandAction::Perform = action {
        let outcome = match run.current() {
            ServiceStep::Toggle(id) => {
                calls.push(format!("toggle {}", id.as_str()));
                ha_outcome.clone()
            }
            ServiceStep::RunScript(id) => {
                calls.push(format!("script {}", id.as_str()));
                ha_outcome.clone()
            }
            ServiceStep::InvalidateCache => {
                svc.invalidate_cache();
                Ok(())
            }
            _ => Ok(()),
        };
        action = run.resume(outcome);
    }
    (calls, action)
}

#[test]
fn toggle_entity_invalidates_cache() {
    let mut svc = service(60, None);
    svc.store_state(&kitchen_and_fan(), 0, 0);
    let (calls, reply) = run_command(
        &mut svc,
        ClientCommand::Toggle { entity_id: "light.kitchen".to_string() },
        Ok(()),
    );
    assert_eq!(calls, vec!["toggle light.kitchen".to_string()]);
    assert!(matches!(reply, CommandAction::ReplyPayload));
    assert!(svc.cached_state(0).is_none());
}

#[test]
fn run_script_invalidates_cache() {
    let mut svc = service(60, None);
    svc.store_state(
        &DashboardState { entities: vec![make_entity("script.nightly", EntityKind::Script)] },
        0,
        0,
    );
    let (calls, reply) = run_command(
        &mut svc,
        ClientCommand::RunScript { entity_id: "script.nightly".to_string() },
        Ok(()),
    );
    assert_eq!(calls, vec!["script script.nightly".to_string()]);
    assert!(matches!(reply, CommandAction::ReplyPayload));
    assert!(svc.cached_state(0).is_none());
}

#[test]
fn failed_toggle_keeps_the_cache() {
    let mut svc = service(60, None);
    svc.store_state(&kitchen_and_fan(), 0, 0);
    let (_, reply) = run_command(
        &mut svc,
        ClientCommand::Toggle { entity_id: "light.kitchen".to_string() },
        Err("Internal error: down".to_string()),
    );
    assert!(matches!(reply, CommandAction::ReplyError(m) if m == "Toggle failed: Internal error: down"));
    assert!(svc.cached_state(0).is_some());
}

#[test]
fn force_refresh_invalidates_cache() {
    let mut svc = service(60, None);
    svc.store_state(&kitchen_and_fan(), 0, 0);
    let (calls, reply) = run_command(&mut svc, ClientCommand::ForceRefresh {}, Ok(()));
    assert!(calls.is_empty());
    assert!(matches!(reply, CommandAction::ReplyPayload));
    assert!(svc.cached_state(0).is_none());
}

fn readings(solar: Option<f64>, energy: Option<(f64, bool)>) -> FetchReadings<f64> {
    FetchReadings {
        solar_watts: solar,
        buffer_temps: BufferTemps { buffer_top: 1.0, buffer_bottom: 2.0, solar_flow: 3.0, solar_return: 4.0 },
        energy,
    }
}

#[test]
fn failed_fetch_changes_nothing() {
    let mut svc = service(60, None);
    svc.store_state(&kitchen_and_fan(), 0, 5);
    svc.record_solar_sample(SEC, 10.0);
    let err = svc
        .complete_fetch(Err(AppError::Http("connection refused".to_string())), 100 * SEC, 100 * SEC)
        .unwrap_err();
    assert_eq!(err.to_string(), "HTTP client error: connection refused");
    assert_eq!(svc.last_fetched_at(), Some(5));
    assert_eq!(svc.solar_history_points(), vec![(SEC, 10.0)]);
    assert!(svc.buffer_temp_points().is_empty());
    assert_eq!(svc.goe_last_value(), None);
    assert!(svc.cached_state(100 * SEC).is_none());
}

#[test]
fn fetched_state_is_recorded_and_cached() {
    let mut svc = service(60, None);
    let fresh = kitchen_and_fan();
    let got = svc.complete_fetch(Ok((fresh.clone(), readings(Some(4200.0), Some((0.8, true))))), 7, 9).unwrap();
    assert_eq!(got, fresh);
    assert_eq!(svc.cached_state(7).unwrap(), fresh);
    assert_eq!(svc.last_fetched_at(), Some(9));
    assert_eq!(svc.solar_history_points(), vec![(9, 4200.0)]);
    assert_eq!(svc.buffer_temp_points().len(), 1);
    assert_eq!(svc.goe_last_value(), Some(0.8));
    assert!(svc.is_goe_energy_stable(7 + 60 * SEC));

    svc.complete_fetch(Ok((fresh.clone(), readings(None, None))), 20, 30).unwrap();
    assert_eq!(svc.solar_history_points().len(), 1);
    assert_eq!(svc.buffer_temp_points().len(), 2);
    assert_eq!(svc.goe_last_value(), Some(0.8));
}

#[test]
fn ttl_per_kind_and_empty_state() {
    let svc: DashboardService<f64> = DashboardService::new(
        DashboardCacheConfig {
            default_ttl_secs: 9,
            light_ttl_secs: Some(3),
            switch_ttl_secs: None,
            sensor_ttl_secs: Some(20),
            climate_ttl_secs: Some(7),
        },
        config(),
    );
    assert_eq!(svc.ttl_secs_for_kind(&EntityKind::Light), 3);
    assert_eq!(svc.ttl_secs_for_kind(&EntityKind::Switch), 9);
    assert_eq!(svc.ttl_secs_for_kind(&EntityKind::Sensor), 20);
    assert_eq!(svc.ttl_secs_for_kind(&EntityKind::Script), 7);
    assert_eq!(svc.ttl_secs_for_kind(&EntityKind::Cover), 7);
    assert_eq!(svc.ttl_for_state(&DashboardState { entities: vec![] }), 9);
    let state = DashboardState {
        entities: vec![make_entity("sensor.a", EntityKind::Sensor), make_entity("script.b", EntityKind::Script)],
    };
    assert_eq!(svc.ttl_for_state(&state), 7);
}

#[test]
fn last_fetched_label_is_never_before_a_fetch() {
    let mut svc = service(5, None);
    let local = DateTimeParts { year: 2024, month: 2, day: 1, hour: 10, minute: 0, second: 7 };
    assert_eq!(svc.last_fetched_at(), None);
    assert_eq!(svc.last_fetched_label(&local), "never");
    svc.store_state(&kitchen_and_fan(), 0, 1234);
    assert_eq!(svc.last_fetched_at(), Some(1234));
    assert_eq!(svc.last_fetched_label(&local), "01.02.2024 10:00:07");
}

#[test]
fn last_fetch_time_survives_a_cache_drop() {
    let mut svc = service(5, None);
    svc.store_state(&kitchen_and_fan(), 0, 99);
    svc.invalidate_cache();
    svc.get_dashboard_with_refresh(true);
    assert_eq!(svc.last_fetched_at(), Some(99));
    let local = DateTimeParts { year: 2025, month: 12, day: 31, hour: 23, minute: 59, second: 58 };
    assert_eq!(svc.last_fetched_label(&local), "31.12.2025 23:59:58");
}

#[test]
fn years_print_as_percent_capital_y() {
    let at = |year| DateTimeParts { year, month: 1, day: 2, hour: 3, minute: 4, second: 5 };
    assert_eq!(datetime_text(&at(987)), "02.01.0987 03:04:05");
    assert_eq!(datetime_text(&at(12345)), "02.01.+12345 03:04:05");
    assert_eq!(datetime_text(&at(-7)), "02.01.-0007 03:04:05");
}

#[test]
fn solar_tokens_come_from_the_first_word() {
    let svc = service(5, None);
    let state = DashboardState { entities: vec![valued("sensor.solar", "4200 W")] };
    assert_eq!(svc.parse_solar_watts(&state), Some("4200".to_string()));
    assert_eq!(svc.solar_sample_text(&state), Some("4200".to_string()));
    let blank = DashboardState { entities: vec![valued("sensor.solar", "   ")] };
    assert_eq!(svc.parse_solar_watts(&blank), None);
    assert_eq!(svc.solar_sample_text(&blank), Some("0".to_string()));
    let missing = DashboardState { entities: vec![valued("sensor.other", "100 W")] };
    assert_eq!(svc.parse_solar_watts(&missing), None);
    assert_eq!(svc.solar_sample_text(&missing), None);
}

#[test]
fn solar_history_drops_expired_samples() {
    let mut svc = service(5, None);
    svc.record_solar_sample(0, 1.0);
    svc.record_solar_sample(30 * 60 * SEC, 2.0);
    assert_eq!(svc.solar_history_points().len(), 2);
    svc.record_solar_sample(61 * 60 * SEC, 3.0);
    let points = svc.solar_history_points();
    assert_eq!(points, vec![(30 * 60 * SEC, 2.0), (61 * 60 * SEC, 3.0)]);
}

#[test]
fn buffer_temps_are_recorded_and_trimmed() {
    let mut svc = service(5, None);
    let state = DashboardState {
        entities: vec![valued("sensor.top", "55.2 °C"), valued("sensor.bottom", "48,5 °C")],
    };
    let texts = svc.buffer_temp_texts(&state);
    assert_eq!(texts.buffer_top, Some("55.2".to_string()));
    assert_eq!(texts.buffer_bottom, Some("48,5".to_string()));
    assert_eq!(texts.solar_flow, None);
    let temps = BufferTemps { buffer_top: 55.2, buffer_bottom: 48.5, solar_flow: 0.0, solar_return: 0.0 };
    svc.record_buffer_temps(0, temps);
    svc.record_buffer_temps(3600 * SEC, temps);
    assert_eq!(svc.buffer_temp_points().len(), 2);
    svc.record_buffer_temps(5000 * SEC, temps);
    let points = svc.buffer_temp_points();
    assert_eq!(points.len(), 2);
    assert_eq!(points[0].timestamp, 3600 * SEC);
}

#[test]
fn energy_text_reads_commas_as_points() {
    let svc = service(5, None);
    let state = DashboardState { entities: vec![valued("sensor.goe_energy", "12,5 kWh")] };
    assert_eq!(svc.goe_energy_text(&state), Some("12.5".to_string()));
}

#[test]
fn energy_is_stable_only_after_the_configured_time() {
    let mut svc = service(5, None);
    assert!(!svc.is_goe_energy_stable(1000 * SEC));
    svc.record_goe_energy(10 * SEC, 1.0, false);
    assert_eq!(svc.goe_last_value(), Some(1.0));
    assert!(!svc.is_goe_energy_stable(69 * SEC));
    assert!(svc.is_goe_energy_stable(70 * SEC));
    svc.record_goe_energy(80 * SEC, 1.001, false);
    assert!(svc.is_goe_energy_stable(80 * SEC));
    svc.record_goe_energy(90 * SEC, 2.0, true);
    assert!(!svc.is_goe_energy_stable(100 * SEC));
}

fn charger_state(status: &str, car: &str) -> DashboardState {
    DashboardState {
        entities: vec![
            valued("sensor.amps", "16 A"),
            valued("sensor.goe_status", status),
            valued("binary_sensor.car", car),
            valued("binary_sensor.charging", "on"),
        ],
    }
}

#[test]
fn car_state_labels() {
    let mut svc = service(5, None);
    let s = svc.compute_car_state(&charger_state("Laden", "true"), 0);
    assert_eq!(s.charger_value, "16 A");
    assert_eq!(s.car_state_label, "Angeschlossen");
    assert_eq!(s.car_state_class, "is-charging");
    assert!(s.car_connected);
    assert!(s.car_charging);
    assert!(!s.paused);

    let s = svc.compute_car_state(&charger_state("Nicht verbunden", "false"), 0);
    assert_eq!(s.car_state_label, "Nicht angeschlossen");
    assert_eq!(s.car_state_class, "is-empty");

    // finished but the counter has not been still long enough
    let s = svc.compute_car_state(&charger_state("Fertig", "true"), 0);
    assert_eq!(s.car_state_label, "Angeschlossen");

    svc.record_goe_energy(0, 5.0, true);
    let s = svc.compute_car_state(&charger_state("Fertig", "true"), 120 * SEC);
    assert_eq!(s.car_state_label, "Auto voll");
    assert_eq!(s.car_state_class, "is-full");

    let s = svc.compute_car_state(&charger_state("Ladestop aktiv", "True"), 0);
    assert!(s.paused);

    let empty = svc.compute_car_state(&DashboardState { entities: vec![] }, 0);
    assert_eq!(empty.charger_value, "0.0 A");
    assert_eq!(empty.status, "Unknown");
    assert_eq!(empty.car_state_label, "Nicht angeschlossen");
}

#[test]
fn pump_status_and_bounded_history() {
    let mut svc = service(5, None);
    let on = DashboardState {
        entities: vec![Entity {
            id: EntityId("switch.pump".to_string()),
            name: "Pump".to_string(),
            kind: EntityKind::Switch,
            is_on: true,
            value: None,
        }],
    };
    let vm = svc.compute_pump_status(&on, 1, true, false);
    assert!(vm.pump_on);
    assert!(vm.is_correct);
    assert_eq!(vm.status_label, "ON");
    assert_eq!(vm.css_class, "pump-on");
    let vm = svc.compute_pump_status(&on, 2, false, true);
    assert_eq!(vm.css_class, "pump-wrong");
    let off = DashboardState { entities: vec![] };
    let vm = svc.compute_pump_status(&off, 3, false, true);
    assert!(!vm.pump_on);
    assert_eq!(vm.status_label, "OFF");
    assert_eq!(vm.css_class, "pump-off");
    for t in 4..100u128 {
        svc.compute_pump_status(&off, t, false, true);
    }
    let history = svc.compute_pump_status_history();
    assert_eq!(history.len(), PUMP_HISTORY_LEN);
    assert_eq!(history[0], (40, false));
    assert_eq!(history[PUMP_HISTORY_LEN - 1], (99, false));
}

#[test]
fn pump_temperature_texts_are_first_words() {
    let svc = service(5, None);
    let state = DashboardState {
        entities: vec![valued("sensor.bottom", "48.5 °C"), valued("sensor.return", "45.0 °C")],
    };
    assert_eq!(
        svc.pump_temperature_texts(&state),
        (Some("48.5".to_string()), Some("45.0".to_string()))
    );
}

#[test]
fn solar_chart_skips_night_without_production() {
    let mut svc = service(5, None);
    let now = 100 * 60 * SEC;
    svc.record_solar_sample(now - 30 * 60 * SEC, 0.0);
    svc.record_solar_sample(now - 20 * 60 * SEC, 500.0);
    svc.record_solar_sample(now - 10 * 60 * SEC, 700.0);
    let locals = vec![Some((22, 5)), Some((9, 7)), None];
    let nonpositive = vec![true, false, false];
    let chart = svc.compute_solar_chart(now, &locals, &nonpositive);
    assert_eq!(chart.indices, vec![1, 2]);
    assert_eq!(chart.labels, vec!["09:07".to_string(), "-10m".to_string()]);
}

#[test]
fn buffer_chart_keeps_the_last_hour() {
    let mut cfg = config();
    cfg.solar_history_minutes = 120;
    let mut svc: DashboardService<f64> = DashboardService::new(cache_config(5, None), cfg);
    let temps = BufferTemps { buffer_top: 1.0, buffer_bottom: 2.0, solar_flow: 3.0, solar_return: 4.0 };
    let now = 200 * 60 * SEC;
    svc.record_buffer_temps(now - 61 * 60 * SEC, temps);
    svc.record_buffer_temps(now - 5 * 60 * SEC, temps);
    svc.record_buffer_temps(now, temps);
    let locals = vec![Some((1, 0)), Some((13, 45)), None];
    let chart = svc.compute_buffer_temp_chart(now, &locals);
    assert_eq!(chart.indices, vec![1, 2]);
    assert_eq!(chart.labels, vec!["13:45".to_string()]);
}

#[test]
fn clock_text_and_age() {
    assert_eq!(clock_text(7, 5), "07:05");
    assert_eq!(clock_text(23, 59), "23:59");
    assert_eq!(age_of(5, 3), 0);
    assert_eq!(age_of(3, 5), 2);
}

#[test]
fn demo_client_starts_with_the_demo_entities() {
    let demo = DemoHaClient::new(&config());
    let state = demo.fetch_dashboard_state();
    assert_eq!(state.entities.len(), 13);
    assert_eq!(state.entities[0].id, EntityId("sensor.solar".to_string()));
    assert_eq!(state.entities[0].value, Some("4200 W".to_string()));
    assert_eq!(state.entities[11].kind, EntityKind::Cover);
    assert_eq!(state.entities[12].value, Some("open".to_string()));
}

#[test]
fn demo_garage_action_moves_its_door_and_back() {
    let mut demo = DemoHaClient::new(&config());
    let action = EntityId("cover.left_move".to_string());
    demo.toggle_entity_state(&action);
    let door = demo.fetch_dashboard_state().entities[11].clone();
    assert!(door.is_on);
    assert_eq!(door.value, Some("open".to_string()));
    demo.toggle_entity_state(&action);
    let door = demo.fetch_dashboard_state().entities[11].clone();
    assert!(!door.is_on);
    assert_eq!(door.value, Some("closed".to_string()));
}

#[test]
fn demo_toggle_of_a_sensor_changes_nothing() {
    let mut demo = DemoHaClient::new(&config());
    let before = demo.fetch_dashboard_state();
    demo.toggle_entity_state(&EntityId("sensor.solar".to_string()));
    demo.toggle_entity_state(&EntityId("light.unknown".to_string()));
    assert_eq!(demo.fetch_dashboard_state(), before);
}

#[test]
fn demo_energy_label_goes_to_the_counter() {
    let mut cfg = config();
    cfg.goe_energy_entity_id = "sensor.goe_energy".to_string();
    let mut demo = DemoHaClient::new(&cfg);
    demo.apply_energy_label("1.3 kWh");
    let state = demo.fetch_dashboard_state();
    assert_eq!(state.entities[9].value, Some("1.3 kWh".to_string()));
    assert_eq!(state.entities[0].value, Some("4200 W".to_string()));
}
