//! Domain entities: what the dashboard knows of each Home Assistant entity.

use vstd::prelude::*;

use super::value_objects::EntityId;

verus! {

/// The kind of an entity, which decides how it is shown and controlled.
#[derive(Clone, Copy, Debug, PartialEq, Eq, Structural)]
pub enum EntityKind {
    Light,
    Switch,
    Sensor,
    Climate,
    Script,
    Cover,
}

/// One entity as the dashboard shows it.
#[derive(Debug, PartialEq, Eq)]
pub struct Entity {
    pub id: EntityId,
    pub name: String,
    pub kind: EntityKind,
    pub is_on: bool,
    pub value: Option<String>,
}

/// The mathematical content of an `Entity`.
pub struct EntityView {
    pub id: Seq<char>,
    pub name: Seq<char>,
    pub kind: EntityKind,
    pub is_on: bool,
    pub value: Option<Seq<char>>,
}

pub open spec fn opt_text(o: Option<String>) -> Option<Seq<char>> {
    match o {
        Some(s) => Some(s@),
        None => None,
    }
}

impl View for Entity {
    type V = EntityView;

    open spec fn view(&self) -> EntityView {
        EntityView {
            id: self.id@,
            name: self.name@,
            kind: self.kind,
            is_on: self.is_on,
            value: opt_text(self.value),
        }
    }
}

pub fn clone_opt_string(o: &Option<String>) -> (r: Option<String>)
    ensures
        opt_text(r) == opt_text(*o),
{
    match o {
        Some(s) => Some(s.clone()),
        None => None,
    }
}

impl Clone for Entity {
    fn clone(&self) -> (r: Self)
        ensures
            r@ == self@,
    {
        Entity {
            id: self.id.clone(),
            name: self.name.clone(),
            kind: self.kind,
            is_on: self.is_on,
            value: clone_opt_string(&self.value),
        }
    }
}

/// All entities fetched from Home Assistant, in the order received.
#[derive(Debug, PartialEq, Eq)]
pub struct DashboardState {
    pub entities: Vec<Entity>,
}

impl View for DashboardState {
    type V = Seq<EntityView>;

    open spec fn view(&self) -> Seq<EntityView> {
        self.entities@.map_values(|e: Entity| e@)
    }
}

impl Clone for DashboardState {
    fn clone(&self) -> (r: Self)
        ensures
            r@ == self@,
    {
        let mut out: Vec<Entity> = Vec::new();
        let mut i: usize = 0;
        while i < self.entities.len()
            invariant
                i <= self.entities@.len(),
                out@.len() == i,
                forall|k: int| 0 <= k < i ==> out@[k]@ == self.entities@[k]@,
            decreases self.entities@.len() - i,
        {
            out.push(self.entities[i].clone());
            i = i + 1;
        }
        let r = DashboardState { entities: out };
        assert(r@ =~= self@);
        r
    }
}

} // verus!

verus! {

/// Index of the first entity at or after `i` whose id is `id`.
pub open spec fn find_index_from(s: Seq<EntityView>, id: Seq<char>, i: int) -> Option<int>
    decreases s.len() - i,
{
    if i < 0 || i >= s.len() {
        None
    } else if s[i].id == id {
        Some(i)
    } else {
        find_index_from(s, id, i + 1)
    }
}

/// The first entity whose id is `id` (what `iter().find` gives).
pub open spec fn find_entity(s: Seq<EntityView>, id: Seq<char>) -> Option<EntityView> {
    match find_index_from(s, id, 0) {
        Some(i) => Some(s[i]),
        None => None,
    }
}

pub open spec fn opt_view(o: Option<&Entity>) -> Option<EntityView> {
    match o {
        Some(e) => Some(e@),
        None => None,
    }
}

impl DashboardState {
    /// The first entity whose id is `id`.
    pub fn find(&self, id: &str) -> (r: Option<&Entity>)
        ensures
            opt_view(r) == find_entity(self@, id@),
    {
        let mut i: usize = 0;
        while i < self.entities.len()
            invariant
                i <= self.entities@.len(),
                find_index_from(self@, id@, i as int) == find_index_from(self@, id@, 0),
            decreases self.entities@.len() - i,
        {
            if crate::text::str_eq(self.entities[i].id.as_str(), id) {
                return Some(&self.entities[i]);
            }
            i = i + 1;
        }
        None
    }
}

} // verus!
