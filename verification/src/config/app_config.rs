//! Settings of the dashboard, taken from environment variables.

use vstd::prelude::*;

use crate::domain::entities::opt_text;
use crate::shared::error::{AppError, AppErrorView};
use crate::text::{
    concat, lowercase, parse_u16, parse_u64, parsed_unsigned, str_eq, to_lowercase,
    u16_parse_error_text, u64_parse_error_text,
};

verus! {

pub const PORT_VAR: &'static str = "HARETROPANEL_PORT";
pub const BASE_URL_VAR: &'static str = "HA_BASE_URL";
pub const TOKEN_VAR: &'static str = "HA_TOKEN";
pub const DEMO_MODE_VAR: &'static str = "HARETROPANEL_DEMO_MODE";
pub const SOLAR_ENTITY_VAR: &'static str = "HARETROPANEL_SOLAR_ENTITY_ID";
pub const BUFFER_TOP_VAR: &'static str = "HARETROPANEL_SOLAR_BUFFER_TOP_ENTITY_ID";
pub const BUFFER_BOTTOM_VAR: &'static str = "HARETROPANEL_SOLAR_BUFFER_BOTTOM_ENTITY_ID";
pub const SOLAR_FLOW_VAR: &'static str = "HARETROPANEL_SOLAR_FLOW_ENTITY_ID";
pub const SOLAR_RETURN_VAR: &'static str = "HARETROPANEL_SOLAR_RETURN_ENTITY_ID";
pub const SOLAR_PUMP_VAR: &'static str = "HARETROPANEL_SOLAR_PUMP_ENTITY_ID";
pub const CHARGER_CURRENT_VAR: &'static str = "HARETROPANEL_CHARGER_CURRENT_ENTITY_ID";
pub const GOE_STATUS_VAR: &'static str = "HARETROPANEL_GOE_STATUS_ENTITY_ID";
pub const GOE_ENERGY_VAR: &'static str = "HARETROPANEL_GOE_ENERGY_ENTITY_ID";
pub const GOE_CAR_CONNECTED_VAR: &'static str = "HARETROPANEL_GOE_CAR_CONNECTED_ENTITY_ID";
pub const GOE_CHARGING_VAR: &'static str = "HARETROPANEL_GOE_CHARGING_ENTITY_ID";
pub const GARAGE_LEFT_STATUS_VAR: &'static str = "HARETROPANEL_GARAGE_LEFT_STATUS_ENTITY_ID";
pub const GARAGE_LEFT_ACTION_VAR: &'static str = "HARETROPANEL_GARAGE_LEFT_ACTION_ENTITY_ID";
pub const GARAGE_RIGHT_STATUS_VAR: &'static str = "HARETROPANEL_GARAGE_RIGHT_STATUS_ENTITY_ID";
pub const GARAGE_RIGHT_ACTION_VAR: &'static str = "HARETROPANEL_GARAGE_RIGHT_ACTION_ENTITY_ID";
pub const SOLAR_MAX_WATTS_VAR: &'static str = "HARETROPANEL_SOLAR_MAX_WATTS";
pub const SOLAR_HISTORY_MINUTES_VAR: &'static str = "HARETROPANEL_SOLAR_HISTORY_MINUTES";
pub const SOLAR_SAMPLE_SECS_VAR: &'static str = "HARETROPANEL_SOLAR_SAMPLE_SECS";
pub const GOE_ENERGY_STABLE_SECS_VAR: &'static str = "HARETROPANEL_GOE_ENERGY_STABLE_SECS";
pub const GOE_ENERGY_DELTA_KWH_VAR: &'static str = "HARETROPANEL_GOE_ENERGY_DELTA_KWH";
pub const FORCE_FETCH_INTERVAL_VAR: &'static str = "HARETROPANEL_FORCE_FETCH_INTERVAL_SECS";
pub const LOG_FILE_VAR: &'static str = "HARETROPANEL_LOG_FILE";
pub const LOG_LEVEL_VAR: &'static str = "HARETROPANEL_LOG_LEVEL";
pub const LOG_DIR_VAR: &'static str = "HARETROPANEL_LOG_DIR";
pub const LOG_ROTATION_VAR: &'static str = "HARETROPANEL_LOG_ROTATION";
pub const CACHE_TTL_DEFAULT_VAR: &'static str = "HARETROPANEL_CACHE_TTL_DEFAULT_SECS";
pub const CACHE_TTL_LIGHT_VAR: &'static str = "HARETROPANEL_CACHE_TTL_LIGHT_SECS";
pub const CACHE_TTL_SWITCH_VAR: &'static str = "HARETROPANEL_CACHE_TTL_SWITCH_SECS";
pub const CACHE_TTL_SENSOR_VAR: &'static str = "HARETROPANEL_CACHE_TTL_SENSOR_SECS";
pub const CACHE_TTL_CLIMATE_VAR: &'static str = "HARETROPANEL_CACHE_TTL_CLIMATE_SECS";

/// The environment as name/value pairs (variables whose value is not valid
/// Unicode count as unset).
pub struct EnvVars {
    pub vars: Vec<(String, String)>,
}

impl View for EnvVars {
    type V = Seq<(Seq<char>, Seq<char>)>;

    open spec fn view(&self) -> Seq<(Seq<char>, Seq<char>)> {
        self.vars@.map_values(|p: (String, String)| (p.0@, p.1@))
    }
}

/// The value of the first variable with this name.
pub open spec fn env_lookup(vars: Seq<(Seq<char>, Seq<char>)>, name: Seq<char>) -> Option<
    Seq<char>,
>
    decreases vars.len(),
{
    if vars.len() == 0 {
        None
    } else if vars[0].0 == name {
        Some(vars[0].1)
    } else {
        env_lookup(vars.drop_first(), name)
    }
}

/// The variable's value, or `default` when it is unset.
pub open spec fn setting(
    vars: Seq<(Seq<char>, Seq<char>)>,
    name: Seq<char>,
    default: Seq<char>,
) -> Seq<char> {
    match env_lookup(vars, name) {
        Some(v) => v,
        None => default,
    }
}

/// A per-kind cache override: set, a number, and above zero.
pub open spec fn positive_setting(vars: Seq<(Seq<char>, Seq<char>)>, name: Seq<char>) -> Option<
    u64,
> {
    match env_lookup(vars, name) {
        Some(v) => match parsed_unsigned(v, u64::MAX as nat) {
            Some(n) => if n > 0 {
                Some(n as u64)
            } else {
                None
            },
            None => None,
        },
        None => None,
    }
}

/// The message of a numeric setting that does not parse as `u64`.
pub open spec fn u64_setting_error(
    vars: Seq<(Seq<char>, Seq<char>)>,
    name: Seq<char>,
    default: Seq<char>,
) -> Option<Seq<char>> {
    let t = setting(vars, name, default);
    if parsed_unsigned(t, u64::MAX as nat) is None {
        Some("Invalid "@ + name + ": "@ + u64_parse_error_text(t))
    } else {
        None
    }
}

/// The configuration error reported for an environment, if any: the
/// first setting, in the order they are read, that is invalid. The errors
/// of the two decimal-fraction settings are given by their parser.
pub open spec fn config_error(
    vars: Seq<(Seq<char>, Seq<char>)>,
    max_watts_error: Option<Seq<char>>,
    delta_error: Option<Seq<char>>,
) -> Option<Seq<char>> {
    let port = setting(vars, PORT_VAR@, "8080"@);
    if parsed_unsigned(port, u16::MAX as nat) is None {
        Some("Invalid "@ + PORT_VAR@ + ": "@ + u16_parse_error_text(port))
    } else if max_watts_error is Some {
        Some("Invalid "@ + SOLAR_MAX_WATTS_VAR@ + ": "@ + max_watts_error->0)
    } else if u64_setting_error(vars, SOLAR_HISTORY_MINUTES_VAR@, "60"@) is Some {
        u64_setting_error(vars, SOLAR_HISTORY_MINUTES_VAR@, "60"@)
    } else if u64_setting_error(vars, SOLAR_SAMPLE_SECS_VAR@, "60"@) is Some {
        u64_setting_error(vars, SOLAR_SAMPLE_SECS_VAR@, "60"@)
    } else if u64_setting_error(vars, GOE_ENERGY_STABLE_SECS_VAR@, "60"@) is Some {
        u64_setting_error(vars, GOE_ENERGY_STABLE_SECS_VAR@, "60"@)
    } else if delta_error is Some {
        Some("Invalid "@ + GOE_ENERGY_DELTA_KWH_VAR@ + ": "@ + delta_error->0)
    } else if u64_setting_error(vars, FORCE_FETCH_INTERVAL_VAR@, "120"@) is Some {
        u64_setting_error(vars, FORCE_FETCH_INTERVAL_VAR@, "120"@)
    } else {
        u64_setting_error(vars, CACHE_TTL_DEFAULT_VAR@, "5"@)
    }
}

pub open spec fn u64_setting_value(
    vars: Seq<(Seq<char>, Seq<char>)>,
    name: Seq<char>,
    default: Seq<char>,
    v: u64,
) -> bool {
    parsed_unsigned(setting(vars, name, default), u64::MAX as nat) == Some(v as nat)
}

/// How often the log file in the log directory is rolled over.
#[derive(Clone, Copy, Debug, PartialEq, Eq, Structural)]
pub enum LogRotation {
    Minutely,
    Hourly,
    Daily,
    Weekly,
    Never,
}

/// The rotation a setting names, in any letter case; unset or another
/// word means none.
pub open spec fn rotation_of(v: Option<Seq<char>>) -> LogRotation {
    match v {
        Some(t) => {
            let l = lowercase(t);
            if l == "minutely"@ {
                LogRotation::Minutely
            } else if l == "hourly"@ {
                LogRotation::Hourly
            } else if l == "daily"@ {
                LogRotation::Daily
            } else if l == "weekly"@ {
                LogRotation::Weekly
            } else {
                LogRotation::Never
            }
        },
        None => LogRotation::Never,
    }
}

/// Settings of the dashboard. The two decimal-fraction settings (the
/// solar maximum and the energy delta) are kept by the caller.
#[derive(Clone, Debug)]
pub struct AppConfig {
    pub server_port: u16,
    pub ha_base_url: String,
    pub ha_token: Option<String>,
    pub demo_mode: bool,
    pub solar_entity_id: String,
    pub solar_buffer_top_entity_id: String,
    pub solar_buffer_bottom_entity_id: String,
    pub solar_flow_entity_id: String,
    pub solar_return_entity_id: String,
    pub solar_pump_entity_id: String,
    pub charger_current_entity_id: String,
    pub goe_status_entity_id: String,
    pub goe_energy_entity_id: String,
    pub goe_car_connected_entity_id: String,
    pub goe_charging_entity_id: String,
    pub garage_left_status_entity_id: String,
    pub garage_left_action_entity_id: String,
    pub garage_right_status_entity_id: String,
    pub garage_right_action_entity_id: String,
    pub solar_history_minutes: u64,
    pub solar_sample_secs: u64,
    pub goe_energy_stable_secs: u64,
    pub force_fetch_interval_secs: u64,
    pub log_file: Option<String>,
    pub log_level: String,
    pub log_dir: Option<String>,
    pub log_rotation: LogRotation,
    pub dashboard_cache_ttl_default_secs: u64,
    pub dashboard_cache_ttl_light_secs: Option<u64>,
    pub dashboard_cache_ttl_switch_secs: Option<u64>,
    pub dashboard_cache_ttl_sensor_secs: Option<u64>,
    pub dashboard_cache_ttl_climate_secs: Option<u64>,
    pub ws_auth_token: Option<String>,
}

impl AppConfig {
    /// Every field is the variable's value or its default.
    pub open spec fn reflects_env(self, vars: Seq<(Seq<char>, Seq<char>)>) -> bool {
        &&& parsed_unsigned(setting(vars, PORT_VAR@, "8080"@), u16::MAX as nat) == Some(
            self.server_port as nat,
        )
        &&& self.ha_base_url@ == setting(vars, BASE_URL_VAR@, "http://localhost:8123"@)
        &&& opt_text(self.ha_token) == env_lookup(vars, TOKEN_VAR@)
        &&& self.demo_mode == (lowercase(setting(vars, DEMO_MODE_VAR@, "false"@)) == "true"@)
        &&& self.solar_entity_id@ == setting(vars, SOLAR_ENTITY_VAR@, "sensor.solar_power"@)
        &&& self.solar_buffer_top_entity_id@ == setting(vars, BUFFER_TOP_VAR@, ""@)
        &&& self.solar_buffer_bottom_entity_id@ == setting(vars, BUFFER_BOTTOM_VAR@, ""@)
        &&& self.solar_flow_entity_id@ == setting(vars, SOLAR_FLOW_VAR@, ""@)
        &&& self.solar_return_entity_id@ == setting(vars, SOLAR_RETURN_VAR@, ""@)
        &&& self.solar_pump_entity_id@ == setting(vars, SOLAR_PUMP_VAR@, ""@)
        &&& self.charger_current_entity_id@ == setting(
            vars,
            CHARGER_CURRENT_VAR@,
            "sensor.goe_055063_nrg_11"@,
        )
        &&& self.goe_status_entity_id@ == setting(
            vars,
            GOE_STATUS_VAR@,
            "sensor.goe_055063_modelstatus_value"@,
        )
        &&& self.goe_energy_entity_id@ == setting(vars, GOE_ENERGY_VAR@, "sensor.goe_055063_eto"@)
        &&& self.goe_car_connected_entity_id@ == setting(
            vars,
            GOE_CAR_CONNECTED_VAR@,
            "binary_sensor.goe_055063_car_0"@,
        )
        &&& self.goe_charging_entity_id@ == setting(
            vars,
            GOE_CHARGING_VAR@,
            "binary_sensor.goe_055063_laden_0"@,
        )
        &&& self.garage_left_status_entity_id@ == setting(
            vars,
            GARAGE_LEFT_STATUS_VAR@,
            "binary_sensor.garage_garage_links_offen"@,
        )
        &&& self.garage_left_action_entity_id@ == setting(
            vars,
            GARAGE_LEFT_ACTION_VAR@,
            "cover.garage_garagentor_links_bewegen"@,
        )
        &&& self.garage_right_status_entity_id@ == setting(
            vars,
            GARAGE_RIGHT_STATUS_VAR@,
            "binary_sensor.garage_garage_rechts_offen"@,
        )
        &&& self.garage_right_action_entity_id@ == setting(
            vars,
            GARAGE_RIGHT_ACTION_VAR@,
            "cover.garage_garagentor_rechts_bewegen"@,
        )
        &&& u64_setting_value(vars, SOLAR_HISTORY_MINUTES_VAR@, "60"@, self.solar_history_minutes)
        &&& u64_setting_value(vars, SOLAR_SAMPLE_SECS_VAR@, "60"@, self.solar_sample_secs)
        &&& u64_setting_value(
            vars,
            GOE_ENERGY_STABLE_SECS_VAR@,
            "60"@,
            self.goe_energy_stable_secs,
        )
        &&& u64_setting_value(
            vars,
            FORCE_FETCH_INTERVAL_VAR@,
            "120"@,
            self.force_fetch_interval_secs,
        )
        &&& opt_text(self.log_file) == env_lookup(vars, LOG_FILE_VAR@)
        &&& self.log_level@ == setting(vars, LOG_LEVEL_VAR@, "haretropanel=info,tower_http=info"@)
        &&& opt_text(self.log_dir) == env_lookup(vars, LOG_DIR_VAR@)
        &&& self.log_rotation == rotation_of(env_lookup(vars, LOG_ROTATION_VAR@))
        &&& u64_setting_value(
            vars,
            CACHE_TTL_DEFAULT_VAR@,
            "5"@,
            self.dashboard_cache_ttl_default_secs,
        )
        &&& self.dashboard_cache_ttl_light_secs == positive_setting(vars, CACHE_TTL_LIGHT_VAR@)
        &&& self.dashboard_cache_ttl_switch_secs == positive_setting(vars, CACHE_TTL_SWITCH_VAR@)
        &&& self.dashboard_cache_ttl_sensor_secs == positive_setting(vars, CACHE_TTL_SENSOR_VAR@)
        &&& self.dashboard_cache_ttl_climate_secs == positive_setting(vars, CACHE_TTL_CLIMATE_VAR@)
        &&& self.ws_auth_token is None
    }

    /// Builds the settings from the environment. `max_watts_error` and
    /// `delta_error` are what parsing the texts that `fraction_setting_texts`
    /// returns gave (`None` when it succeeded).
    pub fn from_values(
        env: &EnvVars,
        max_watts_error: Option<String>,
        delta_error: Option<String>,
    ) -> (r: Result<AppConfig, AppError>)
        ensures
            match r {
                Ok(c) => config_error(env@, opt_text(max_watts_error), opt_text(delta_error))
                    is None && c.reflects_env(env@),
                Err(e) => config_error(env@, opt_text(max_watts_error), opt_text(delta_error))
                    matches Some(m) && e@ == AppErrorView::Config(m),
            },
    {
        let port_text = setting_or(env, PORT_VAR, "8080");
        let server_port = match parse_u16(port_text.as_str()) {
            Ok(p) => p,
            Err(e) => {
                return Err(AppError::Config(invalid_message(PORT_VAR, e.as_str())));
            },
        };
        let ha_base_url = setting_or(env, BASE_URL_VAR, "http://localhost:8123");
        let ha_token = env.lookup(TOKEN_VAR);
        let demo_text = setting_or(env, DEMO_MODE_VAR, "false");
        let demo_lower = to_lowercase(demo_text.as_str());
        let demo_mode = str_eq(demo_lower.as_str(), "true");
        let solar_entity_id = setting_or(env, SOLAR_ENTITY_VAR, "sensor.solar_power");
        let solar_buffer_top_entity_id = setting_or(env, BUFFER_TOP_VAR, "");
        let solar_buffer_bottom_entity_id = setting_or(env, BUFFER_BOTTOM_VAR, "");
        let solar_flow_entity_id = setting_or(env, SOLAR_FLOW_VAR, "");
        let solar_return_entity_id = setting_or(env, SOLAR_RETURN_VAR, "");
        let solar_pump_entity_id = setting_or(env, SOLAR_PUMP_VAR, "");
        let charger_current_entity_id = setting_or(
            env,
            CHARGER_CURRENT_VAR,
            "sensor.goe_055063_nrg_11",
        );
        let goe_status_entity_id = setting_or(
            env,
            GOE_STATUS_VAR,
            "sensor.goe_055063_modelstatus_value",
        );
        let goe_energy_entity_id = setting_or(env, GOE_ENERGY_VAR, "sensor.goe_055063_eto");
        let goe_car_connected_entity_id = setting_or(
            env,
            GOE_CAR_CONNECTED_VAR,
            "binary_sensor.goe_055063_car_0",
        );
        let goe_charging_entity_id = setting_or(
            env,
            GOE_CHARGING_VAR,
            "binary_sensor.goe_055063_laden_0",
        );
        let garage_left_status_entity_id = setting_or(
            env,
            GARAGE_LEFT_STATUS_VAR,
            "binary_sensor.garage_garage_links_offen",
        );
        let garage_left_action_entity_id = setting_or(
            env,
            GARAGE_LEFT_ACTION_VAR,
            "cover.garage_garagentor_links_bewegen",
        );
        let garage_right_status_entity_id = setting_or(
            env,
            GARAGE_RIGHT_STATUS_VAR,
            "binary_sensor.garage_garage_rechts_offen",
        );
        let garage_right_action_entity_id = setting_or(
            env,
            GARAGE_RIGHT_ACTION_VAR,
            "cover.garage_garagentor_rechts_bewegen",
        );
        if let Some(e) = max_watts_error {
            return Err(AppError::Config(invalid_message(SOLAR_MAX_WATTS_VAR, e.as_str())));
        }
        let solar_history_minutes = u64_setting(env, SOLAR_HISTORY_MINUTES_VAR, "60")?;
        let solar_sample_secs = u64_setting(env, SOLAR_SAMPLE_SECS_VAR, "60")?;
        let goe_energy_stable_secs = u64_setting(env, GOE_ENERGY_STABLE_SECS_VAR, "60")?;
        if let Some(e) = delta_error {
            return Err(AppError::Config(invalid_message(GOE_ENERGY_DELTA_KWH_VAR, e.as_str())));
        }
        let force_fetch_interval_secs = u64_setting(env, FORCE_FETCH_INTERVAL_VAR, "120")?;
        let log_file = env.lookup(LOG_FILE_VAR);
        let log_level = setting_or(env, LOG_LEVEL_VAR, "haretropanel=info,tower_http=info");
        let log_dir = env.lookup(LOG_DIR_VAR);
        let log_rotation = log_rotation_setting(env);
        let dashboard_cache_ttl_default_secs = u64_setting(env, CACHE_TTL_DEFAULT_VAR, "5")?;
        let dashboard_cache_ttl_light_secs = positive_u64_setting(env, CACHE_TTL_LIGHT_VAR);
        let dashboard_cache_ttl_switch_secs = positive_u64_setting(env, CACHE_TTL_SWITCH_VAR);
        let dashboard_cache_ttl_sensor_secs = positive_u64_setting(env, CACHE_TTL_SENSOR_VAR);
        let dashboard_cache_ttl_climate_secs = positive_u64_setting(env, CACHE_TTL_CLIMATE_VAR);
        Ok(AppConfig {
            server_port,
            ha_base_url,
            ha_token,
            demo_mode,
            solar_entity_id,
            solar_buffer_top_entity_id,
            solar_buffer_bottom_entity_id,
            solar_flow_entity_id,
            solar_return_entity_id,
            solar_pump_entity_id,
            charger_current_entity_id,
            goe_status_entity_id,
            goe_energy_entity_id,
            goe_car_connected_entity_id,
            goe_charging_entity_id,
            garage_left_status_entity_id,
            garage_left_action_entity_id,
            garage_right_status_entity_id,
            garage_right_action_entity_id,
            solar_history_minutes,
            solar_sample_secs,
            goe_energy_stable_secs,
            force_fetch_interval_secs,
            log_file,
            log_level,
            log_dir,
            log_rotation,
            dashboard_cache_ttl_default_secs,
            dashboard_cache_ttl_light_secs,
            dashboard_cache_ttl_switch_secs,
            dashboard_cache_ttl_sensor_secs,
            dashboard_cache_ttl_climate_secs,
            ws_auth_token: None,
        })
    }

    /// The texts of the solar maximum and of the energy delta (value or
    /// default), for the caller to parse as decimal fractions.
    pub fn fraction_setting_texts(env: &EnvVars) -> (r: (String, String))
        ensures
            r.0@ == setting(env@, SOLAR_MAX_WATTS_VAR@, "9000"@),
            r.1@ == setting(env@, GOE_ENERGY_DELTA_KWH_VAR@, "0.02"@),
    {
        (setting_or(env, SOLAR_MAX_WATTS_VAR, "9000"), setting_or(env, GOE_ENERGY_DELTA_KWH_VAR, "0.02"))
    }
}

impl EnvVars {
    pub fn lookup(&self, name: &str) -> (r: Option<String>)
        ensures
            opt_text(r) == env_lookup(self@, name@),
    {
        let mut i: usize = 0;
        assert(self@.subrange(0, self@.len() as int) =~= self@);
        while i < self.vars.len()
            invariant
                i <= self.vars@.len(),
                env_lookup(self@, name@) == env_lookup(self@.subrange(i as int, self@.len() as int), name@),
            decreases self.vars@.len() - i,
        {
            let ghost rest = self@.subrange(i as int, self@.len() as int);
            assert(rest[0] == self@[i as int]);
            if str_eq(self.vars[i].0.as_str(), name) {
                return Some(self.vars[i].1.clone());
            }
            assert(rest.drop_first() =~= self@.subrange(i + 1, self@.len() as int));
            i = i + 1;
        }
        None
    }
}

fn setting_or(env: &EnvVars, name: &str, default: &str) -> (r: String)
    ensures
        r@ == setting(env@, name@, default@),
{
    match env.lookup(name) {
        Some(v) => v,
        None => default.to_owned(),
    }
}

fn invalid_message(name: &str, err: &str) -> (r: String)
    ensures
        r@ == "Invalid "@ + name@ + ": "@ + err@,
{
    let a = concat("Invalid ", name);
    let b = concat(a.as_str(), ": ");
    concat(b.as_str(), err)
}

fn u64_setting(env: &EnvVars, name: &str, default: &str) -> (r: Result<u64, AppError>)
    ensures
        match r {
            Ok(v) => u64_setting_error(env@, name@, default@) is None && u64_setting_value(
                env@,
                name@,
                default@,
                v,
            ),
            Err(e) => u64_setting_error(env@, name@, default@) matches Some(m) && e@
                == AppErrorView::Config(m),
        },
{
    let t = setting_or(env, name, default);
    match parse_u64(t.as_str()) {
        Ok(v) => Ok(v),
        Err(e) => Err(AppError::Config(invalid_message(name, e.as_str()))),
    }
}

fn log_rotation_setting(env: &EnvVars) -> (r: LogRotation)
    ensures
        r == rotation_of(env_lookup(env@, LOG_ROTATION_VAR@)),
{
    match env.lookup(LOG_ROTATION_VAR) {
        Some(v) => {
            let l = to_lowercase(v.as_str());
            if str_eq(l.as_str(), "minutely") {
                LogRotation::Minutely
            } else if str_eq(l.as_str(), "hourly") {
                LogRotation::Hourly
            } else if str_eq(l.as_str(), "daily") {
                LogRotation::Daily
            } else if str_eq(l.as_str(), "weekly") {
                LogRotation::Weekly
            } else {
                LogRotation::Never
            }
        },
        None => LogRotation::Never,
    }
}

fn positive_u64_setting(env: &EnvVars, name: &str) -> (r: Option<u64>)
    ensures
        r == positive_setting(env@, name@),
{
    match env.lookup(name) {
        Some(v) => match parse_u64(v.as_str()) {
            Ok(n) => if n > 0 {
                Some(n)
            } else {
                None
            },
            Err(_) => None,
        },
        None => None,
    }
}

} // verus!

verus! {

impl AppConfig {
    /// The entities the dashboard always shows: solar, charger, garage
    /// status, buffer and pump sensors.
    pub open spec fn system_ids(self) -> Seq<Seq<char>> {
        seq![
            self.solar_entity_id@,
            self.charger_current_entity_id@,
            self.goe_status_entity_id@,
            self.goe_car_connected_entity_id@,
            self.goe_charging_entity_id@,
            self.garage_left_status_entity_id@,
            self.garage_right_status_entity_id@,
            self.solar_buffer_bottom_entity_id@,
            self.solar_buffer_top_entity_id@,
            self.solar_flow_entity_id@,
            self.solar_return_entity_id@,
            self.solar_pump_entity_id@,
        ]
    }

    pub fn system_entity_ids(&self) -> (r: Vec<String>)
        ensures
            r@.map_values(|s: String| s@) == self.system_ids(),
    {
        let r = vec![
            self.solar_entity_id.clone(),
            self.charger_current_entity_id.clone(),
            self.goe_status_entity_id.clone(),
            self.goe_car_connected_entity_id.clone(),
            self.goe_charging_entity_id.clone(),
            self.garage_left_status_entity_id.clone(),
            self.garage_right_status_entity_id.clone(),
            self.solar_buffer_bottom_entity_id.clone(),
            self.solar_buffer_top_entity_id.clone(),
            self.solar_flow_entity_id.clone(),
            self.solar_return_entity_id.clone(),
            self.solar_pump_entity_id.clone(),
        ];
        assert(r@.map_values(|s: String| s@) =~= self.system_ids());
        r
    }
}

} // verus!

verus! {

/// A per-kind lifetime of zero, or one that is not a number, counts as
/// unset.
pub proof fn lemma_ttl_overrides_positive(vars: Seq<(Seq<char>, Seq<char>)>, name: Seq<char>)
    ensures
        positive_setting(vars, name) matches Some(n) ==> n > 0,
        env_lookup(vars, name) matches Some(v) && parsed_unsigned(v, u64::MAX as nat) == Some(0nat)
            ==> positive_setting(vars, name) is None,
        env_lookup(vars, name) is None ==> positive_setting(vars, name) is None,
{
}

} // verus!
