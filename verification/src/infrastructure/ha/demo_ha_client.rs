//! The demo stand-in for Home Assistant: a fixed set of entities whose
//! garage doors open and close when toggled.

use vstd::prelude::*;

use crate::application::services::dashboard_service::{
    key_index_from, keys_distinct, lemma_key_index_from, lemma_map_insert_distinct, map_insert,
};
use crate::config::AppConfig;
use crate::domain::entities::{find_index_from, opt_text};
use crate::domain::{DashboardState, Entity, EntityId, EntityKind, EntityView};
use crate::text::{contains, contains_text, str_eq};

verus! {

/// The demo entities, built from the configured entity ids.
pub struct DemoHaClient {
    pub state: DashboardState,
    /// Garage action ids and the index of the status entity each moves.
    pub garage_action_to_status: Vec<(String, usize)>,
}

pub open spec fn demo_entity(id: Seq<char>, name: Seq<char>, kind: EntityKind, on: bool, value: Seq<char>) -> EntityView {
    EntityView { id, name, kind, is_on: on, value: Some(value) }
}

/// The demo entities, in order.
pub open spec fn demo_entities(c: AppConfig) -> Seq<EntityView> {
    seq![
        demo_entity(c.solar_entity_id@, "Solar Production"@, EntityKind::Sensor, false, "4200 W"@),
        demo_entity("sensor.solar_peak"@, "Solar Peak"@, EntityKind::Sensor, false, "7800 W"@),
        demo_entity(c.solar_buffer_top_entity_id@, "Buffer Top"@, EntityKind::Sensor, false, "55.2 °C"@),
        demo_entity(c.solar_buffer_bottom_entity_id@, "Buffer Bottom"@, EntityKind::Sensor, false, "48.5 °C"@),
        demo_entity(c.solar_flow_entity_id@, "Solar Flow Pre-Panel"@, EntityKind::Sensor, false, "52.0 °C"@),
        demo_entity(c.solar_return_entity_id@, "Solar Return"@, EntityKind::Sensor, false, "45.0 °C"@),
        demo_entity(c.solar_pump_entity_id@, "Solar Pump"@, EntityKind::Sensor, false, "on"@),
        demo_entity(c.charger_current_entity_id@, "Go-E Charger Current"@, EntityKind::Sensor, false, "0 W"@),
        demo_entity(c.goe_status_entity_id@, "Go-E Status"@, EntityKind::Sensor, false, "Nicht laden"@),
        demo_entity(c.goe_energy_entity_id@, "Lademenge seit Anstöpseln"@, EntityKind::Sensor, false, "0.8 kWh"@),
        demo_entity(c.goe_car_connected_entity_id@, "Car Connected"@, EntityKind::Sensor, true, "on"@),
        demo_entity(c.garage_left_status_entity_id@, "Garage Left"@, EntityKind::Cover, false, "closed"@),
        demo_entity(c.garage_right_status_entity_id@, "Garage Right"@, EntityKind::Cover, true, "open"@),
    ]
}

/// The index of the first pair with this key.
pub open spec fn map_get(m: Seq<(Seq<char>, usize)>, k: Seq<char>) -> Option<usize>
    decreases m.len(),
{
    if m.len() == 0 {
        None
    } else if m[0].0 == k {
        Some(m[0].1)
    } else {
        map_get(m.drop_first(), k)
    }
}

/// One garage's action id mapped to its status entity, when both ids are
/// set and the status entity exists.
pub open spec fn with_garage(
    m: Seq<(Seq<char>, usize)>,
    s: Seq<EntityView>,
    action: Seq<char>,
    status: Seq<char>,
) -> Seq<(Seq<char>, usize)> {
    if action.len() > 0 && status.len() > 0 {
        match find_index_from(s, status, 0) {
            Some(i) => map_insert(m, action, i as usize),
            None => m,
        }
    } else {
        m
    }
}

pub open spec fn demo_garage_map(c: AppConfig) -> Seq<(Seq<char>, usize)> {
    let s = demo_entities(c);
    with_garage(
        with_garage(Seq::empty(), s, c.garage_left_action_entity_id@, c.garage_left_status_entity_id@),
        s,
        c.garage_right_action_entity_id@,
        c.garage_right_status_entity_id@,
    )
}

pub open spec fn pairs_view(v: Seq<(String, usize)>) -> Seq<(Seq<char>, usize)> {
    v.map_values(|p: (String, usize)| (p.0@, p.1))
}

/// A door moved: on becomes off and the reverse, the value follows.
pub open spec fn flipped(e: EntityView) -> EntityView {
    EntityView {
        is_on: !e.is_on,
        value: Some(
            if !e.is_on {
                "open"@
            } else {
                "closed"@
            },
        ),
        ..e
    }
}

/// The entities after a toggle of `id`: a cover with that id moves; any
/// other entity with that id stays as it is; with no such entity, the
/// status entity of a garage action with that id moves.
pub open spec fn toggled(s: Seq<EntityView>, m: Seq<(Seq<char>, usize)>, id: Seq<char>) -> Seq<EntityView> {
    match find_index_from(s, id, 0) {
        Some(i) => if s[i].kind == EntityKind::Cover {
            s.update(i, flipped(s[i]))
        } else {
            s
        },
        None => match map_get(m, id) {
            Some(k) => if k < s.len() {
                s.update(k as int, flipped(s[k as int]))
            } else {
                s
            },
            None => s,
        },
    }
}

/// The index of the entity a toggle of `id` may change: the entity with
/// that id, else the status entity of a garage action with that id; -1
/// when there is neither.
pub open spec fn toggle_target(s: Seq<EntityView>, m: Seq<(Seq<char>, usize)>, id: Seq<char>) -> int {
    match find_index_from(s, id, 0) {
        Some(j) => j,
        None => match map_get(m, id) {
            Some(k) => k as int,
            None => -1,
        },
    }
}

/// The demo's energy counter is the entity whose id mentions `goe` and
/// whose name mentions `Lademenge`.
pub open spec fn is_energy_counter(e: EntityView) -> bool {
    contains_text(e.id, "goe"@) && contains_text(e.name, "Lademenge"@)
}

fn make(id: &str, name: &str, kind: EntityKind, on: bool, value: &str) -> (r: Entity)
    ensures
        r@ == demo_entity(id@, name@, kind, on, value@),
{
    Entity {
        id: EntityId::new(id),
        name: name.to_owned(),
        kind,
        is_on: on,
        value: Some(value.to_owned()),
    }
}

fn index_of_id(state: &DashboardState, id: &str) -> (r: Option<usize>)
    ensures
        match r {
            Some(i) => find_index_from(state@, id@, 0) == Some(i as int),
            None => find_index_from(state@, id@, 0) is None,
        },
{
    let mut i: usize = 0;
    while i < state.entities.len()
        invariant
            i <= state@.len(),
            state@.len() == state.entities@.len(),
            find_index_from(state@, id@, i as int) == find_index_from(state@, id@, 0),
        decreases state@.len() - i,
    {
        if str_eq(state.entities[i].id.as_str(), id) {
            return Some(i);
        }
        i = i + 1;
    }
    None
}

fn insert_pair(m: &mut Vec<(String, usize)>, k: &str, v: usize)
    ensures
        pairs_view(final(m)@) == map_insert(pairs_view(old(m)@), k@, v),
{
    let ghost before = pairs_view(m@);
    let mut i: usize = 0;
    while i < m.len()
        invariant
            i <= m@.len(),
            before == pairs_view(m@),
            before == pairs_view(old(m)@),
            key_index_from(before, k@, i as int) == key_index_from(before, k@, 0),
        decreases m@.len() - i,
    {
        if str_eq(m[i].0.as_str(), k) {
            assert(before[i as int] == (m@[i as int].0@, m@[i as int].1));
            assert(key_index_from(before, k@, i as int) == Some(i as int));
            assert(map_insert(before, k@, v) == before.update(i as int, (k@, v)));
            m.set(i, (k.to_owned(), v));
            assert(pairs_view(m@) =~= before.update(i as int, (k@, v)));
            return;
        }
        assert(before[i as int].0 == m@[i as int].0@);
        i = i + 1;
    }
    m.push((k.to_owned(), v));
    assert(pairs_view(m@) =~= before.push((k@, v)));
}

fn add_garage(m: &mut Vec<(String, usize)>, state: &DashboardState, action: &str, status: &str)
    ensures
        pairs_view(final(m)@) == with_garage(pairs_view(old(m)@), state@, action@, status@),
{
    if action.unicode_len() > 0 && status.unicode_len() > 0 {
        match index_of_id(state, status) {
            Some(i) => insert_pair(m, action, i),
            None => {},
        }
    }
}

fn flip(e: &mut Entity)
    ensures
        final(e)@ == flipped(old(e)@),
{
    e.is_on = !e.is_on;
    e.value = Some(
        if e.is_on {
            "open".to_owned()
        } else {
            "closed".to_owned()
        },
    );
}

impl DemoHaClient {
    /// The indices of the garage map point at entities, and no action id
    /// occurs twice.
    pub open spec fn wf(self) -> bool {
        &&& forall|i: int|
            0 <= i < self.garage_action_to_status@.len() ==> #[trigger] self.garage_action_to_status@[i].1
                < self.state@.len()
        &&& keys_distinct(pairs_view(self.garage_action_to_status@))
    }

    pub fn new(config: &AppConfig) -> (r: Self)
        ensures
            r.wf(),
            r.state@ == demo_entities(*config),
            pairs_view(r.garage_action_to_status@) == demo_garage_map(*config),
    {
        let entities = vec![
            make(config.solar_entity_id.as_str(), "Solar Production", EntityKind::Sensor, false, "4200 W"),
            make("sensor.solar_peak", "Solar Peak", EntityKind::Sensor, false, "7800 W"),
            make(config.solar_buffer_top_entity_id.as_str(), "Buffer Top", EntityKind::Sensor, false, "55.2 °C"),
            make(config.solar_buffer_bottom_entity_id.as_str(), "Buffer Bottom", EntityKind::Sensor, false, "48.5 °C"),
            make(config.solar_flow_entity_id.as_str(), "Solar Flow Pre-Panel", EntityKind::Sensor, false, "52.0 °C"),
            make(config.solar_return_entity_id.as_str(), "Solar Return", EntityKind::Sensor, false, "45.0 °C"),
            make(config.solar_pump_entity_id.as_str(), "Solar Pump", EntityKind::Sensor, false, "on"),
            make(config.charger_current_entity_id.as_str(), "Go-E Charger Current", EntityKind::Sensor, false, "0 W"),
            make(config.goe_status_entity_id.as_str(), "Go-E Status", EntityKind::Sensor, false, "Nicht laden"),
            make(config.goe_energy_entity_id.as_str(), "Lademenge seit Anstöpseln", EntityKind::Sensor, false, "0.8 kWh"),
            make(config.goe_car_connected_entity_id.as_str(), "Car Connected", EntityKind::Sensor, true, "on"),
            make(config.garage_left_status_entity_id.as_str(), "Garage Left", EntityKind::Cover, false, "closed"),
            make(config.garage_right_status_entity_id.as_str(), "Garage Right", EntityKind::Cover, true, "open"),
        ];
        let state = DashboardState { entities };
        assert(state@ =~= demo_entities(*config));
        let mut map: Vec<(String, usize)> = Vec::new();
        assert(pairs_view(map@) =~= Seq::<(Seq<char>, usize)>::empty());
        add_garage(
            &mut map,
            &state,
            config.garage_left_action_entity_id.as_str(),
            config.garage_left_status_entity_id.as_str(),
        );
        add_garage(
            &mut map,
            &state,
            config.garage_right_action_entity_id.as_str(),
            config.garage_right_status_entity_id.as_str(),
        );
        let r = DemoHaClient { state, garage_action_to_status: map };
        assert forall|i: int| 0 <= i < r.garage_action_to_status@.len() implies #[trigger] r.garage_action_to_status@[i].1 < r.state@.len() by {
            lemma_demo_map_in_range(*config, i);
            assert(pairs_view(r.garage_action_to_status@)[i].1 == r.garage_action_to_status@[i].1);
        }
        proof {
            lemma_demo_map_distinct(*config);
        }
        r
    }

    fn map_lookup(&self, id: &str) -> (r: Option<usize>)
        ensures
            r == map_get(pairs_view(self.garage_action_to_status@), id@),
    {
        let ghost m = pairs_view(self.garage_action_to_status@);
        let mut i: usize = 0;
        assert(m.subrange(0, m.len() as int) =~= m);
        while i < self.garage_action_to_status.len()
            invariant
                i <= m.len(),
                m == pairs_view(self.garage_action_to_status@),
                map_get(m, id@) == map_get(m.subrange(i as int, m.len() as int), id@),
            decreases m.len() - i,
        {
            let ghost rest = m.subrange(i as int, m.len() as int);
            assert(rest[0] == m[i as int]);
            if str_eq(self.garage_action_to_status[i].0.as_str(), id) {
                return Some(self.garage_action_to_status[i].1);
            }
            assert(rest.drop_first() =~= m.subrange(i + 1, m.len() as int));
            i = i + 1;
        }
        None
    }

    /// Toggles an entity: see `toggled`.
    pub fn toggle_entity_state(&mut self, entity_id: &EntityId)
        requires
            old(self).wf(),
        ensures
            final(self).wf(),
            final(self).state@ == toggled(
                old(self).state@,
                pairs_view(old(self).garage_action_to_status@),
                entity_id@,
            ),
            final(self).garage_action_to_status@ == old(self).garage_action_to_status@,
    {
        proof {
            lemma_find_index_in_range(self.state@, entity_id@, 0);
        }
        let ghost s0 = self.state@;
        let ghost m0 = pairs_view(self.garage_action_to_status@);
        let id_text = entity_id.as_str();
        let found = index_of_id(&self.state, id_text);
        match found {
            Some(i) => {
                assert(find_index_from(s0, entity_id@, 0) is Some);
                assert(self.state@[i as int] == self.state.entities@[i as int]@);
                assert(find_index_from(s0, entity_id@, 0) == Some(i as int));
                let is_cover = match self.state.entities[i].kind {
                    EntityKind::Cover => true,
                    _ => false,
                };
                assert(is_cover == (s0[i as int].kind == EntityKind::Cover));
                if is_cover {
                    let mut e = self.state.entities[i].clone();
                    flip(&mut e);
                    let ghost before = self.state@;
                    self.state.entities.set(i, e);
                    assert(self.state@ =~= before.update(i as int, flipped(before[i as int])));
                }
                assert(self.state@ == toggled(s0, m0, entity_id@));
            },
            None => {
                match self.map_lookup(entity_id.as_str()) {
                    Some(k) => {
                        if k < self.state.entities.len() {
                            assert(self.state@[k as int] == self.state.entities@[k as int]@);
                            let mut e = self.state.entities[k].clone();
                            flip(&mut e);
                            let ghost before = self.state@;
                            self.state.entities.set(k, e);
                            assert(self.state@ =~= before.update(k as int, flipped(before[k as int])));
                        }
                        assert(self.state@ == toggled(s0, m0, entity_id@));
                    },
                    None => {
                        assert(self.state@ == toggled(s0, m0, entity_id@));
                    },
                }
            },
        }
    }

    /// Writes the energy label into the demo's energy counter entities.
    pub fn apply_energy_label(&mut self, label: &str)
        requires
            old(self).wf(),
        ensures
            final(self).wf(),
            final(self).garage_action_to_status@ == old(self).garage_action_to_status@,
            final(self).state@.len() == old(self).state@.len(),
            forall|i: int|
                0 <= i < old(self).state@.len() ==> #[trigger] final(self).state@[i] == if is_energy_counter(
                    old(self).state@[i],
                ) {
                    EntityView { value: Some(label@), ..old(self).state@[i] }
                } else {
                    old(self).state@[i]
                },
    {
        let ghost start = self.state@;
        let ghost m0 = self.garage_action_to_status@;
        let mut i: usize = 0;
        while i < self.state.entities.len()
            invariant
                self.garage_action_to_status@ == m0,
                self.wf(),
                i <= self.state@.len(),
                self.state@.len() == start.len(),
                self.state@.len() == self.state.entities@.len(),
                forall|k: int|
                    0 <= k < i ==> #[trigger] self.state@[k] == if is_energy_counter(start[k]) {
                        EntityView { value: Some(label@), ..start[k] }
                    } else {
                        start[k]
                    },
                forall|k: int| i <= k < start.len() ==> #[trigger] self.state@[k] == start[k],
            decreases self.state@.len() - i,
        {
            let hit = contains(self.state.entities[i].id.as_str(), "goe") && contains(
                self.state.entities[i].name.as_str(),
                "Lademenge",
            );
            assert(self.state@[i as int] == self.state.entities@[i as int]@);
            assert(hit == is_energy_counter(start[i as int]));
            if hit {
                let mut e = self.state.entities[i].clone();
                assert(e@ == start[i as int]);
                e.value = Some(label.to_owned());
                assert(e@ == EntityView { value: Some(label@), ..start[i as int] });
                let ghost before = self.state@;
                self.state.entities.set(i, e);
                assert(self.state@ =~= before.update(
                    i as int,
                    EntityView { value: Some(label@), ..start[i as int] },
                ));
            }
            i = i + 1;
        }
    }

    /// The current demo state.
    pub fn fetch_dashboard_state(&self) -> (r: DashboardState)
        ensures
            r@ == self.state@,
    {
        self.state.clone()
    }
}

proof fn lemma_map_insert_in_range(m: Seq<(Seq<char>, usize)>, k: Seq<char>, v: usize, n: int)
    requires
        forall|i: int| 0 <= i < m.len() ==> #[trigger] m[i].1 < n,
        v < n,
    ensures
        forall|i: int| 0 <= i < map_insert(m, k, v).len() ==> #[trigger] map_insert(m, k, v)[i].1 < n,
{
    lemma_key_index_from(m, k, 0);
}

proof fn lemma_with_garage_in_range(m: Seq<(Seq<char>, usize)>, s: Seq<EntityView>, a: Seq<char>, st: Seq<char>)
    requires
        forall|i: int| 0 <= i < m.len() ==> #[trigger] m[i].1 < s.len(),
    ensures
        forall|i: int| 0 <= i < with_garage(m, s, a, st).len() ==> #[trigger] with_garage(m, s, a, st)[i].1 < s.len(),
{
    if a.len() > 0 && st.len() > 0 {
        match find_index_from(s, st, 0) {
            Some(j) => {
                lemma_find_index_in_range(s, st, 0);
                lemma_map_insert_in_range(m, a, j as usize, s.len() as int);
            },
            None => {},
        }
    }
}

pub proof fn lemma_find_index_in_range(s: Seq<EntityView>, id: Seq<char>, i: int)
    ensures
        find_index_from(s, id, i) matches Some(j) ==> i <= j < s.len() && s[j].id == id,
    decreases s.len() - i,
{
    if 0 <= i < s.len() && s[i].id != id {
        lemma_find_index_in_range(s, id, i + 1);
    }
}

proof fn lemma_with_garage_distinct(m: Seq<(Seq<char>, usize)>, s: Seq<EntityView>, a: Seq<char>, st: Seq<char>)
    requires
        keys_distinct(m),
    ensures
        keys_distinct(with_garage(m, s, a, st)),
{
    if a.len() > 0 && st.len() > 0 {
        match find_index_from(s, st, 0) {
            Some(j) => lemma_map_insert_distinct(m, a, j as usize),
            None => {},
        }
    }
}

proof fn lemma_demo_map_distinct(c: AppConfig)
    ensures
        keys_distinct(demo_garage_map(c)),
{
    let s = demo_entities(c);
    let e = Seq::<(Seq<char>, usize)>::empty();
    lemma_with_garage_distinct(e, s, c.garage_left_action_entity_id@, c.garage_left_status_entity_id@);
    let m1 = with_garage(e, s, c.garage_left_action_entity_id@, c.garage_left_status_entity_id@);
    lemma_with_garage_distinct(m1, s, c.garage_right_action_entity_id@, c.garage_right_status_entity_id@);
}

proof fn lemma_demo_map_in_range(c: AppConfig, i: int)
    requires
        0 <= i < demo_garage_map(c).len(),
    ensures
        demo_garage_map(c)[i].1 < demo_entities(c).len(),
{
    let s = demo_entities(c);
    let e = Seq::<(Seq<char>, usize)>::empty();
    lemma_with_garage_in_range(e, s, c.garage_left_action_entity_id@, c.garage_left_status_entity_id@);
    let m1 = with_garage(e, s, c.garage_left_action_entity_id@, c.garage_left_status_entity_id@);
    lemma_with_garage_in_range(m1, s, c.garage_right_action_entity_id@, c.garage_right_status_entity_id@);
}

} // verus!

verus! {

proof fn lemma_find_after_flip(s: Seq<EntityView>, k: int, id: Seq<char>, i: int)
    requires
        0 <= k < s.len(),
    ensures
        find_index_from(s.update(k, flipped(s[k])), id, i) == find_index_from(s, id, i),
    decreases s.len() - i,
{
    let t = s.update(k, flipped(s[k]));
    if 0 <= i < s.len() {
        assert(t[i].id == s[i].id);
        if s[i].id != id {
            lemma_find_after_flip(s, k, id, i + 1);
        }
    }
}

/// The value a door shows for its state.
pub open spec fn door_value(open: bool) -> Seq<char> {
    if open {
        "open"@
    } else {
        "closed"@
    }
}

/// An entity whose value matches its on/off state as a door's does.
pub open spec fn door_consistent(e: EntityView) -> bool {
    e.value == Some(door_value(e.is_on))
}

/// Toggling the same id twice puts every door back: every entity but the
/// one at the returned index (the toggle's target) is untouched; that one keeps its id, name,
/// kind and on/off state, and is entirely as before when its value
/// matched its state (as the demo's doors do).
pub proof fn lemma_toggle_twice_restores(s: Seq<EntityView>, m: Seq<(Seq<char>, usize)>, id: Seq<char>) -> (k: int)
    ensures
        k == toggle_target(s, m, id),
        toggled(toggled(s, m, id), m, id).len() == s.len(),
        forall|i: int|
            0 <= i < s.len() && i != k ==> #[trigger] toggled(toggled(s, m, id), m, id)[i] == s[i],
        forall|i: int|
            0 <= i < s.len() ==> {
                let e = #[trigger] toggled(toggled(s, m, id), m, id)[i];
                &&& e.id == s[i].id
                &&& e.name == s[i].name
                &&& e.kind == s[i].kind
                &&& e.is_on == s[i].is_on
            },
        forall|i: int|
            0 <= i < s.len() && door_consistent(s[i]) ==> #[trigger] toggled(
                toggled(s, m, id),
                m,
                id,
            )[i] == s[i],
{
    lemma_find_index_in_range(s, id, 0);
    match find_index_from(s, id, 0) {
        Some(j) => {
            if s[j].kind == EntityKind::Cover {
                lemma_find_after_flip(s, j, id, 0);
                lemma_flip_twice(s[j]);
            }
            j
        },
        None => {
            match map_get(m, id) {
                Some(k) => {
                    if k < s.len() {
                        lemma_find_after_flip(s, k as int, id, 0);
                        lemma_flip_twice(s[k as int]);
                    }
                    k as int
                },
                None => -1,
            }
        },
    }
}

proof fn lemma_flip_twice(e: EntityView)
    ensures
        flipped(flipped(e)).id == e.id,
        flipped(flipped(e)).name == e.name,
        flipped(flipped(e)).kind == e.kind,
        flipped(flipped(e)).is_on == e.is_on,
        door_consistent(e) ==> flipped(flipped(e)) == e,
{
}

/// A toggle changes at most one entity (the returned index, its target),
/// and never the number of entities.
pub proof fn lemma_toggle_changes_one(s: Seq<EntityView>, m: Seq<(Seq<char>, usize)>, id: Seq<char>) -> (k: int)
    ensures
        k == toggle_target(s, m, id),
        toggled(s, m, id).len() == s.len(),
        forall|i: int| 0 <= i < s.len() && i != k ==> #[trigger] toggled(s, m, id)[i] == s[i],
{
    lemma_find_index_in_range(s, id, 0);
    match find_index_from(s, id, 0) {
        Some(j) => j,
        None => match map_get(m, id) {
            Some(k) => k as int,
            None => -1,
        },
    }
}

} // verus!
