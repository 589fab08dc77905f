//! The entity settings page: which entities are chosen and on which page.

use vstd::prelude::*;

use crate::application::services::dashboard_service::{
    id_listed, ids_view, page_of, strings_view, text_listed, EntityPages,
};
use crate::config::AppConfig;
use crate::domain::{DashboardState, Entity, EntityId, EntityKind, EntityView};
use crate::infrastructure::web::viewmodels::{kind_label, kind_label_of};

verus! {

/// One entity on the settings page.
#[derive(Debug)]
pub struct EntitySettingsViewModel {
    pub id: String,
    pub name: String,
    pub kind_label: String,
    pub is_on: bool,
    pub has_value: bool,
    pub value: String,
    pub can_toggle: bool,
    pub can_run_script: bool,
    pub can_toggle_cover: bool,
    pub is_selected: bool,
    pub page: usize,
}

impl EntitySettingsViewModel {
    /// The row shown for an entity, whether it is chosen, and its page.
    pub open spec fn shows(self, e: EntityView, visible: bool, page: usize) -> bool {
        &&& self.id@ == e.id
        &&& self.name@ == e.name
        &&& self.kind_label@ == kind_label(e.kind)
        &&& self.is_on == e.is_on
        &&& self.has_value == (e.value matches Some(v) && v.len() > 0)
        &&& self.value@ == match e.value {
            Some(v) => v,
            None => "N/A"@,
        }
        &&& self.can_toggle == (e.kind == EntityKind::Light || e.kind == EntityKind::Switch)
        &&& !self.can_run_script
        &&& self.can_toggle_cover == (e.kind == EntityKind::Cover)
        &&& self.is_selected == visible
        &&& self.page == page
    }

    pub fn from_entity(e: &Entity, visible: bool, page: usize) -> (r: Self)
        ensures
            r.shows(e@, visible, page),
    {
        let (has_value, value) = match &e.value {
            Some(v) => (v.unicode_len() > 0, v.clone()),
            None => (false, "N/A".to_owned()),
        };
        EntitySettingsViewModel {
            id: e.id.to_string(),
            name: e.name.clone(),
            kind_label: kind_label_of(&e.kind),
            is_on: e.is_on,
            has_value,
            value,
            can_toggle: match e.kind {
                EntityKind::Light | EntityKind::Switch => true,
                _ => false,
            },
            can_run_script: false,
            can_toggle_cover: match e.kind {
                EntityKind::Cover => true,
                _ => false,
            },
            is_selected: visible,
            page,
        }
    }
}

impl From<(&Entity, bool, usize)> for EntitySettingsViewModel {
    fn from(t: (&Entity, bool, usize)) -> (r: Self)
        ensures
            r.shows(t.0@, t.1, t.2),
    {
        EntitySettingsViewModel::from_entity(t.0, t.1, t.2)
    }
}

/// A spec cannot build a `String` from its characters, so there is no
/// `from_spec` value; the `from` above states its result in its own
/// `ensures`.
impl vstd::std_specs::convert::FromSpecImpl<(&Entity, bool, usize)> for EntitySettingsViewModel {
    open spec fn obeys_from_spec() -> bool {
        false
    }

    open spec fn from_spec(t: (&Entity, bool, usize)) -> Self {
        arbitrary()
    }
}

/// The entities the settings page leaves out.
pub open spec fn settings_system_ids(c: AppConfig) -> Seq<Seq<char>> {
    seq![
        c.solar_entity_id@,
        c.charger_current_entity_id@,
        c.goe_status_entity_id@,
        c.goe_car_connected_entity_id@,
        c.garage_left_status_entity_id@,
        c.garage_left_action_entity_id@,
        c.garage_right_status_entity_id@,
        c.garage_right_action_entity_id@,
    ]
}

pub open spec fn settings_listed(system: Seq<Seq<char>>) -> spec_fn(EntityView) -> bool {
    |e: EntityView| !system.contains(e.id)
}

pub open spec fn page_or_first(pages: Seq<(Seq<char>, usize)>, id: Seq<char>) -> usize {
    match page_of(pages, id) {
        Some(p) => p,
        None => 1,
    }
}

fn settings_system_entity_ids(c: &AppConfig) -> (r: Vec<String>)
    ensures
        strings_view(r@) == settings_system_ids(*c),
{
    let r = vec![
        c.solar_entity_id.clone(),
        c.charger_current_entity_id.clone(),
        c.goe_status_entity_id.clone(),
        c.goe_car_connected_entity_id.clone(),
        c.garage_left_status_entity_id.clone(),
        c.garage_left_action_entity_id.clone(),
        c.garage_right_status_entity_id.clone(),
        c.garage_right_action_entity_id.clone(),
    ];
    assert(strings_view(r@) =~= settings_system_ids(*c));
    r
}

/// The rows of the settings page: the dashboard's entities except the
/// solar, charger and garage ones, each marked chosen when its id is among
/// `visible_ids`, on its page (the first page when it has none).
pub fn get_entity_settings(
    state: &DashboardState,
    config: &AppConfig,
    visible_ids: &Vec<EntityId>,
    pages: &EntityPages,
) -> (r: Vec<EntitySettingsViewModel>)
    ensures
        ({
            let listed = state@.filter(settings_listed(settings_system_ids(*config)));
            &&& r@.len() == listed.len()
            &&& forall|i: int|
                0 <= i < listed.len() ==> #[trigger] r@[i].shows(
                    listed[i],
                    ids_view(visible_ids@).contains(listed[i].id),
                    page_or_first(pages@, listed[i].id),
                )
        }),
{
    let system = settings_system_entity_ids(config);
    let ghost pred = settings_listed(settings_system_ids(*config));
    let mut out: Vec<EntitySettingsViewModel> = Vec::new();
    let ghost mut kept: Seq<EntityView> = Seq::empty();
    let mut i: usize = 0;
    while i < state.entities.len()
        invariant
            i <= state@.len(),
            state@.len() == state.entities@.len(),
            strings_view(system@) == settings_system_ids(*config),
            pred == settings_listed(settings_system_ids(*config)),
            kept == state@.subrange(0, i as int).filter(pred),
            out@.len() == kept.len(),
            forall|k: int|
                0 <= k < kept.len() ==> #[trigger] out@[k].shows(
                    kept[k],
                    ids_view(visible_ids@).contains(kept[k].id),
                    page_or_first(pages@, kept[k].id),
                ),
        decreases state@.len() - i,
    {
        let e = &state.entities[i];
        let keep = !text_listed(&system, e.id.as_str());
        proof {
            let sub = state@.subrange(0, i + 1);
            assert(sub.drop_last() =~= state@.subrange(0, i as int));
            assert(sub.last() == state@[i as int]);
            reveal(Seq::filter);
        }
        if keep {
            let visible = id_listed(visible_ids, e.id.as_str());
            let page = match pages.get(e.id.as_str()) {
                Some(p) => p,
                None => 1,
            };
            out.push(EntitySettingsViewModel::from_entity(e, visible, page));
            proof {
                kept = kept.push(state@[i as int]);
            }
        }
        i = i + 1;
    }
    assert(state@.subrange(0, state@.len() as int) =~= state@);
    out
}

} // verus!
