use std::collections::HashSet;

use haretropanel::domain::{DashboardState, Entity, EntityId, EntityKind};

#[test]
fn test_entity_id_from_str() {
    let id = EntityId::from("light.lamp");
    assert_eq!(id.0, "light.lamp");
}

#[test]
fn test_entity_id_display() {
    let id = EntityId::from("switch.outdoor");
    assert_eq!(id.to_string(), "switch.outdoor");
}

#[test]
fn test_entity_id_eq_and_hash() {
    let id1 = EntityId::from("light.a");
    let id2 = EntityId::from("light.a");
    let id3 = EntityId::from("light.b");
    assert_eq!(id1, id2);
    assert_ne!(id1, id3);

    let mut set = HashSet::new();
    set.insert(id1);
    set.insert(id2);
    set.insert(id3);
    assert_eq!(set.len(), 2);
}

#[test]
fn entity_id_new_and_as_str() {
    let id = EntityId::new("cover.garage");
    assert_eq!(id.as_str(), "cover.garage");
}

#[test]
fn dashboard_state_find_returns_first_match() {
    let state = DashboardState {
        entities: vec![
            Entity {
                id: EntityId::from("sensor.a"),
                name: "First".to_string(),
                kind: EntityKind::Sensor,
                is_on: false,
                value: None,
            },
            Entity {
                id: EntityId::from("sensor.a"),
                name: "Second".to_string(),
                kind: EntityKind::Sensor,
                is_on: true,
                value: None,
            },
        ],
    };
    assert_eq!(state.find("sensor.a").map(|e| e.name.as_str()), Some("First"));
    assert!(state.find("sensor.b").is_none());
    let copy = state.clone();
    assert_eq!(copy, state);
}
