//! Garage door tiles, shared by the dashboard page and the live updates.

use vstd::prelude::*;

use crate::domain::entities::{find_entity, opt_view};
use crate::domain::{DashboardState, Entity, EntityView};
use crate::infrastructure::web::viewmodels::GarageDoorViewModel;
use crate::text::{char_len, ends_with, has_prefix, has_suffix, starts_with, substring, trim, trim_of};

verus! {

/// A garage door as the live updates report it.
#[derive(Debug)]
pub struct GarageDoorStatus {
    pub status: String,
    pub action: String,
    pub button_class: String,
    pub name: String,
}

pub open spec fn door_status_label(open: bool) -> Seq<char> {
    if open {
        "Offen"@
    } else {
        "Geschlossen"@
    }
}

pub open spec fn door_action_label(open: bool) -> Seq<char> {
    if open {
        "Schließen"@
    } else {
        "Öffnen"@
    }
}

pub open spec fn door_button_class(open: bool) -> Seq<char> {
    if open {
        "garage-btn garage-open"@
    } else {
        "garage-btn garage-closed"@
    }
}

fn status_label_of(open: bool) -> (r: String)
    ensures
        r@ == door_status_label(open),
{
    if open {
        "Offen".to_owned()
    } else {
        "Geschlossen".to_owned()
    }
}

fn action_label_of(open: bool) -> (r: String)
    ensures
        r@ == door_action_label(open),
{
    if open {
        "Schließen".to_owned()
    } else {
        "Öffnen".to_owned()
    }
}

fn button_class_of(open: bool) -> (r: String)
    ensures
        r@ == door_button_class(open),
{
    if open {
        "garage-btn garage-open".to_owned()
    } else {
        "garage-btn garage-closed".to_owned()
    }
}

/// The status of the door with this entity id: open when the entity is
/// on; a closed door with the default name when no entity has the id.
pub fn build_garage_door(entity_id: &str, default_name: &str, state: &DashboardState) -> (r:
    GarageDoorStatus)
    ensures
        match find_entity(state@, entity_id@) {
            Some(e) => r.status@ == door_status_label(e.is_on) && r.action@ == door_action_label(
                e.is_on,
            ) && r.button_class@ == door_button_class(e.is_on) && r.name@ == e.name,
            None => r.status@ == door_status_label(false) && r.action@ == door_action_label(false)
                && r.button_class@ == door_button_class(false) && r.name@ == default_name@,
        },
{
    match state.find(entity_id) {
        Some(e) => GarageDoorStatus {
            status: status_label_of(e.is_on),
            action: action_label_of(e.is_on),
            button_class: button_class_of(e.is_on),
            name: e.name.clone(),
        },
        None => GarageDoorStatus {
            status: status_label_of(false),
            action: action_label_of(false),
            button_class: button_class_of(false),
            name: default_name.to_owned(),
        },
    }
}

/// A leading `Garage` is dropped (and the rest trimmed).
pub open spec fn without_garage_prefix(n: Seq<char>) -> Seq<char> {
    if has_prefix(n, "Garage"@) {
        trim(n.subrange(6, n.len() as int))
    } else {
        n
    }
}

/// A trailing `Offen` is dropped (and the rest trimmed).
pub open spec fn without_open_suffix(n: Seq<char>) -> Seq<char> {
    if has_suffix(n, "Offen"@) {
        trim(n.subrange(0, n.len() - 5))
    } else {
        n
    }
}

/// The displayed name of a garage door: `Garage Links Offen` becomes
/// `Links`.
pub open spec fn garage_display_name(n: Seq<char>) -> Seq<char> {
    trim(without_open_suffix(without_garage_prefix(n)))
}

fn strip_garage_prefix(n: String) -> (r: String)
    ensures
        r@ == without_garage_prefix(n@),
{
    proof {
        reveal_strlit("Garage");
    }
    if starts_with(n.as_str(), "Garage") {
        let len = char_len(n.as_str());
        let rest = substring(n.as_str(), 6, len);
        trim_of(rest.as_str())
    } else {
        n
    }
}

fn strip_open_suffix(n: String) -> (r: String)
    ensures
        r@ == without_open_suffix(n@),
{
    proof {
        reveal_strlit("Offen");
    }
    if ends_with(n.as_str(), "Offen") {
        let len = char_len(n.as_str());
        let rest = substring(n.as_str(), 0, len - 5);
        trim_of(rest.as_str())
    } else {
        n
    }
}

/// The tile of a garage door: the entity's name cleaned for display (or
/// the default name), open when the entity is on, acting on `entity_id`.
pub fn make_garage_door_vm(entity: Option<&Entity>, entity_id: &str, default_name: &str) -> (r:
    GarageDoorViewModel)
    ensures
        r.id@ == entity_id@,
        r.name@ == garage_display_name(
            match entity {
                Some(e) => e.name@,
                None => default_name@,
            },
        ),
        r.status_label@ == door_status_label(entity matches Some(e) && e.is_on),
        r.action_label@ == door_action_label(entity matches Some(e) && e.is_on),
        r.button_class@ == door_button_class(entity matches Some(e) && e.is_on),
{
    let name = match entity {
        Some(e) => e.name.clone(),
        None => default_name.to_owned(),
    };
    let name = strip_garage_prefix(name);
    let name = strip_open_suffix(name);
    let name = trim_of(name.as_str());
    let open = match entity {
        Some(e) => e.is_on,
        None => false,
    };
    GarageDoorViewModel {
        id: entity_id.to_owned(),
        name,
        status_label: status_label_of(open),
        action_label: action_label_of(open),
        button_class: button_class_of(open),
    }
}

} // verus!
