//! The data that the dashboard and settings pages are rendered from.

use vstd::prelude::*;

use crate::domain::entities::opt_text;
use crate::domain::{Entity, EntityKind, EntityView};

verus! {

/// One entity as a tile of the dashboard.
#[derive(Debug)]
pub struct EntityViewModel {
    pub id: String,
    pub name: String,
    pub kind_label: String,
    pub is_on: bool,
    pub has_value: bool,
    pub value: String,
    pub can_toggle: bool,
    pub can_run_script: bool,
    pub can_toggle_cover: bool,
}

/// The label of a kind, which is also its variant's name.
pub open spec fn kind_label(k: EntityKind) -> Seq<char> {
    match k {
        EntityKind::Light => "Light"@,
        EntityKind::Switch => "Switch"@,
        EntityKind::Sensor => "Sensor"@,
        EntityKind::Climate => "Climate"@,
        EntityKind::Script => "Script"@,
        EntityKind::Cover => "Cover"@,
    }
}

pub fn kind_label_of(k: &EntityKind) -> (r: String)
    ensures
        r@ == kind_label(*k),
{
    match k {
        EntityKind::Light => "Light".to_owned(),
        EntityKind::Switch => "Switch".to_owned(),
        EntityKind::Sensor => "Sensor".to_owned(),
        EntityKind::Climate => "Climate".to_owned(),
        EntityKind::Script => "Script".to_owned(),
        EntityKind::Cover => "Cover".to_owned(),
    }
}

impl EntityViewModel {
    /// The tile shown for an entity.
    pub open spec fn shows(self, e: EntityView) -> bool {
        &&& self.id@ == e.id
        &&& self.name@ == e.name
        &&& self.kind_label@ == kind_label(e.kind)
        &&& self.is_on == e.is_on
        &&& self.has_value == (e.value is Some)
        &&& self.value@ == match e.value {
            Some(v) => v,
            None => Seq::empty(),
        }
        &&& self.can_toggle == (e.kind == EntityKind::Light || e.kind == EntityKind::Switch)
        &&& self.can_run_script == (e.kind == EntityKind::Script)
        &&& self.can_toggle_cover == (e.kind == EntityKind::Cover)
    }

    pub fn from_entity(e: &Entity) -> (r: Self)
        ensures
            r.shows(e@),
    {
        let (has_value, value) = match &e.value {
            Some(v) => (true, v.clone()),
            None => (false, String::new()),
        };
        EntityViewModel {
            id: e.id.to_string(),
            name: e.name.clone(),
            kind_label: kind_label_of(&e.kind),
            is_on: e.is_on,
            has_value,
            value,
            can_toggle: match e.kind {
                EntityKind::Light | EntityKind::Switch => true,
                _ => false,
            },
            can_run_script: match e.kind {
                EntityKind::Script => true,
                _ => false,
            },
            can_toggle_cover: match e.kind {
                EntityKind::Cover => true,
                _ => false,
            },
        }
    }
}

impl From<&Entity> for EntityViewModel {
    fn from(e: &Entity) -> (r: Self)
        ensures
            r.shows(e@),
    {
        EntityViewModel::from_entity(e)
    }
}

/// A spec cannot build a `String` from its characters, so there is no
/// `from_spec` value; the `from` above states its result in its own
/// `ensures`.
impl vstd::std_specs::convert::FromSpecImpl<&Entity> for EntityViewModel {
    open spec fn obeys_from_spec() -> bool {
        false
    }

    open spec fn from_spec(e: &Entity) -> Self {
        arbitrary()
    }
}

pub struct SolarViewModel {
    pub watts_label: String,
    pub max_watts_label: String,
    pub chart_labels_js: String,
    pub chart_values_js: String,
    pub history_minutes: u64,
}

pub struct ChargerViewModel {
    pub amps_label: String,
    pub status_label: String,
    pub car_state_label: String,
    pub car_state_class: String,
    pub car_connected: bool,
    pub car_charging: bool,
    pub pill_paused: bool,
}

/// What the dashboard shows of the car charger.
#[derive(Debug)]
pub struct ChargerState {
    pub charger_value: String,
    pub status: String,
    pub paused: bool,
    pub car_connected: bool,
    pub car_charging: bool,
    pub car_state_label: String,
    pub car_state_class: String,
}

#[derive(Debug)]
pub struct GarageDoorViewModel {
    pub id: String,
    pub name: String,
    pub status_label: String,
    pub action_label: String,
    pub button_class: String,
}

pub struct BufferTempViewModel {
    pub chart_labels_js: String,
    pub chart_buffer_top_js: String,
    pub chart_buffer_bottom_js: String,
    pub chart_solar_flow_js: String,
    pub chart_solar_return_js: String,
}

/// The state of the solar circuit's pump, and whether it matches the
/// temperatures.
#[derive(Debug)]
pub struct PumpViewModel {
    pub pump_on: bool,
    pub is_correct: bool,
    pub status_label: String,
    pub css_class: String,
}

pub struct DashboardViewModel {
    pub solar: SolarViewModel,
    pub charger: ChargerViewModel,
    pub garage_left: GarageDoorViewModel,
    pub garage_right: GarageDoorViewModel,
    pub buffer_chart: BufferTempViewModel,
    pub pump_status: PumpViewModel,
    pub demo_mode: bool,
    pub last_updated: String,
    pub page_tabs: Vec<String>,
    pub active_tab: usize,
    pub page_entities: Vec<EntityViewModel>,
    pub pump_states_js: String,
    pub buffer_top_temp: String,
}

#[derive(Debug)]
pub struct EntitySettingsViewModel {
    pub id: String,
    pub name: String,
    pub is_selected: bool,
    pub page: usize,
}

pub struct EntitiesSettingsPageViewModel {
    pub entities: Vec<EntitySettingsViewModel>,
}

} // verus!
