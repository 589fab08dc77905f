//! The garage doors as the solar API reports them, in English.

use vstd::prelude::*;

use crate::domain::entities::find_entity;
use crate::domain::DashboardState;
use crate::infrastructure::web::viewhelpers::{door_button_class, GarageDoorStatus};

verus! {

pub open spec fn english_status(open: bool) -> Seq<char> {
    if open {
        "Open"@
    } else {
        "Closed"@
    }
}

pub open spec fn english_action(open: bool) -> Seq<char> {
    if open {
        "Close"@
    } else {
        "Open"@
    }
}

/// The door with this entity id: open when the entity is on; a closed
/// door with the default name when no entity has the id.
pub fn garage_status(entity_id: &str, default_name: &str, state: &DashboardState) -> (r:
    GarageDoorStatus)
    ensures
        ({
            let open = find_entity(state@, entity_id@) matches Some(e) && e.is_on;
            &&& r.status@ == english_status(open)
            &&& r.action@ == english_action(open)
            &&& r.button_class@ == door_button_class(open)
            &&& r.name@ == match find_entity(state@, entity_id@) {
                Some(e) => e.name,
                None => default_name@,
            }
        }),
{
    let (open, name) = match state.find(entity_id) {
        Some(e) => (e.is_on, e.name.clone()),
        None => (false, default_name.to_owned()),
    };
    GarageDoorStatus {
        status: if open {
            "Open".to_owned()
        } else {
            "Closed".to_owned()
        },
        action: if open {
            "Close".to_owned()
        } else {
            "Open".to_owned()
        },
        button_class: if open {
            "garage-btn garage-open".to_owned()
        } else {
            "garage-btn garage-closed".to_owned()
        },
        name,
    }
}

} // verus!
