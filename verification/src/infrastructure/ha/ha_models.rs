//! The state records that Home Assistant's REST API returns.

use vstd::prelude::*;

verus! {

/// One record of `GET /api/states`.
#[derive(Debug)]
pub struct HaStateResponse {
    pub entity_id: String,
    pub state: String,
    pub attributes: HaAttributes,
}

/// The attributes the dashboard reads; absent ones are `None`.
#[derive(Debug)]
pub struct HaAttributes {
    pub friendly_name: Option<String>,
    pub unit_of_measurement: Option<String>,
}

impl Default for HaAttributes {
    fn default() -> (r: Self)
        ensures
            r.friendly_name is None,
            r.unit_of_measurement is None,
    {
        HaAttributes { friendly_name: None, unit_of_measurement: None }
    }
}

} // verus!
