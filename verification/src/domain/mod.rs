pub mod entities;
pub mod value_objects;

pub use entities::{DashboardState, Entity, EntityKind, EntityView};
pub use value_objects::EntityId;
