//! Identifiers of Home Assistant entities.

use vstd::prelude::*;

verus! {

/// The id of a Home Assistant entity, such as `light.kitchen`.
#[derive(Debug, Eq, Hash)]
pub struct EntityId(pub String);

impl View for EntityId {
    type V = Seq<char>;

    open spec fn view(&self) -> Seq<char> {
        self.0@
    }
}

impl Clone for EntityId {
    fn clone(&self) -> (r: Self)
        ensures
            r@ == self@,
    {
        EntityId(self.0.clone())
    }
}

impl PartialEq for EntityId {
    fn eq(&self, other: &Self) -> (r: bool) {
        self.0.eq(&other.0)
    }
}

impl vstd::std_specs::cmp::PartialEqSpecImpl for EntityId {
    open spec fn obeys_eq_spec() -> bool {
        true
    }

    open spec fn eq_spec(&self, other: &Self) -> bool {
        self.0@ == other.0@
    }
}

impl From<&str> for EntityId {
    fn from(s: &str) -> (r: Self)
        ensures
            r@ == s@,
    {
        EntityId::new(s)
    }
}

/// A spec cannot build a `String` from its characters, so there is no
/// `from_spec` value; the `from` above states its result in its own
/// `ensures`.
impl vstd::std_specs::convert::FromSpecImpl<&str> for EntityId {
    open spec fn obeys_from_spec() -> bool {
        false
    }

    open spec fn from_spec(s: &str) -> Self {
        arbitrary()
    }
}

impl EntityId {
    pub fn new(s: &str) -> (r: Self)
        ensures
            r@ == s@,
    {
        EntityId(s.to_owned())
    }

    /// The id as text (what `Display` printed).
    pub fn to_string(&self) -> (r: String)
        ensures
            r@ == self@,
    {
        self.0.clone()
    }

    pub fn as_str(&self) -> (r: &str)
        ensures
            r@ == self@,
    {
        self.0.as_str()
    }
}

} // verus!
