use dyingstar_plugins::generic_props::{
    compression_for_zone, decide_prop_request, ChannelDefinition, Compression, GenericProps, JsonInput,
    ObjectDefinition, PropRequestAction,
};
use std::collections::HashSet;

fn channel(zone: u8, properties: &[Option<&str>]) -> ChannelDefinition {
    ChannelDefinition {
        zone,
        distance_bits: 100.0f64.to_bits(),
        frequency_bits: 30.0f64.to_bits(),
        properties: properties.iter().map(|p| p.map(|s| s.to_string())).collect(),
    }
}

fn crate_definition() -> ObjectDefinition {
    ObjectDefinition::new(
        "crate".to_string(),
        vec![
            channel(0, &[Some("position"), Some("rotation")]),
            channel(1, &[Some("led_state"), None]),
            channel(3, &[Some("weight"), Some("rotation")]),
        ],
    )
}

fn object(members: &[(&str, i64)]) -> JsonInput<i64> {
    JsonInput::Object(members.iter().map(|(k, v)| (k.to_string(), *v)).collect())
}

#[test]
fn definition_indexes_properties_by_zone() {
    let def = crate_definition();
    assert_eq!(def.name, "crate");
    assert_eq!(def.index.get("position"), Some(&0));
    // the last channel that names a property wins
    assert_eq!(def.index.get("rotation"), Some(&3));
    assert_eq!(def.index.get("led_state"), Some(&1));
    assert_eq!(def.index.get("weight"), Some(&3));
    assert_eq!(def.index.get("color"), None);
    let zones: Vec<u8> = def.channels.iter().map(|c| c.zone).collect();
    assert_eq!(zones, vec![0, 1, 3]);
    assert_eq!(f64::from_bits(def.channels[0].distance_bits), 100.0);
}

#[test]
fn order_data_places_members_into_zones() {
    let def = crate_definition();
    let zones = def.order_data(object(&[("position", 5), ("led_state", 1), ("color", 9)])).unwrap();
    assert_eq!(zones.len(), 2);
    assert_eq!(zones[&0].get("position"), Some(&5));
    assert_eq!(zones[&1].get("led_state"), Some(&1));
    assert!(!zones[&0].contains_key("color"));
    assert!(def.order_data::<i64>(JsonInput::Null).unwrap().is_empty());
    assert_eq!(
        def.order_data::<i64>(JsonInput::Other).unwrap_err(),
        "object creation error: Invalid data input"
    );
}

#[test]
fn new_prop_keeps_or_generates_uuid() {
    let kept = GenericProps::new(crate_definition(), object(&[("weight", 2)]), "box-1".to_string());
    assert_eq!(kept.uuid, "box-1");
    assert_eq!(kept.data[&3].get("weight"), Some(&2));
    let fresh = GenericProps::<i64>::new(crate_definition(), JsonInput::Null, String::new());
    assert_eq!(fresh.uuid.len(), 36);
    assert_eq!(fresh.uuid.chars().filter(|c| *c == '-').count(), 4);
    assert!(fresh.data.is_empty());
}

#[test]
fn update_reports_touched_zones() {
    let mut prop = GenericProps::new(crate_definition(), object(&[("position", 1)]), "p".to_string());
    let touched = prop.update(object(&[("position", 2), ("weight", 7), ("unknown", 0)]));
    assert_eq!(touched, HashSet::from([0u8, 3u8]));
    assert_eq!(prop.data[&0].get("position"), Some(&2));
    assert_eq!(prop.data[&3].get("weight"), Some(&7));
    assert!(!prop.data.contains_key(&1));
    assert!(prop.update(JsonInput::Null).is_empty());
    assert!(prop.update(JsonInput::Other).is_empty());
    assert_eq!(prop.data[&0].get("position"), Some(&2));
}

#[test]
fn last_write_wins_and_untouched_zones_stay() {
    let mut prop = GenericProps::new(crate_definition(), object(&[("led_state", 4)]), "p".to_string());
    let touched = prop.update(object(&[("position", 1), ("position", 2)]));
    assert_eq!(touched, HashSet::from([0u8]));
    assert_eq!(prop.data[&0].get("position"), Some(&2));
    assert_eq!(prop.data[&1].get("led_state"), Some(&4));
}

#[test]
fn updates_compose_as_one_update() {
    let mut twice = GenericProps::new(crate_definition(), JsonInput::Null, "p".to_string());
    twice.update(object(&[("position", 1), ("weight", 2)]));
    twice.update(object(&[("weight", 3), ("led_state", 4)]));
    let mut once = GenericProps::new(crate_definition(), JsonInput::Null, "p".to_string());
    once.update(object(&[("position", 1), ("weight", 2), ("weight", 3), ("led_state", 4)]));
    for zone in [0u8, 1, 3] {
        for name in ["position", "weight", "led_state"] {
            assert_eq!(twice.data[&zone].get(name), once.data[&zone].get(name));
        }
    }
}

#[test]
fn creation_equals_update_of_empty_prop() {
    let members = [("position", 1), ("led_state", 2), ("weight", 3)];
    let created = GenericProps::new(crate_definition(), object(&members), "p".to_string());
    let mut updated = GenericProps::<i64>::new(crate_definition(), JsonInput::Null, "p".to_string());
    updated.update(object(&members));
    assert_eq!(created.data.len(), updated.data.len());
    for zone in [0u8, 1, 3] {
        for (name, _) in members {
            assert_eq!(created.data[&zone].get(name), updated.data[&zone].get(name));
        }
    }
}

#[test]
fn compression_by_zone() {
    assert_eq!(compression_for_zone(0), Compression::Delta);
    assert_eq!(compression_for_zone(1), Compression::Lz4);
    assert_eq!(compression_for_zone(2), Compression::Lz4);
    assert_eq!(compression_for_zone(3), Compression::High);
    assert_eq!(compression_for_zone(200), Compression::High);
}

#[test]
fn second_identical_update_changes_nothing() {
    let mut prop = GenericProps::new(crate_definition(), object(&[]), "u1".to_string());
    assert!(prop.data.is_empty());
    let members = [("position", 1), ("position", 5), ("weight", 2), ("unknown", 9)];
    let first = prop.update(object(&members));
    let snapshot: Vec<(u8, Vec<(String, i64)>)> = {
        let mut z: Vec<_> = prop.data.iter().map(|(k, v)| (*k, v.entries().clone())).collect();
        z.sort();
        z
    };
    let second = prop.update(object(&members));
    assert_eq!(first, second);
    assert_eq!(first, HashSet::from([0u8, 3u8]));
    let mut after: Vec<(u8, Vec<(String, i64)>)> = prop.data.iter().map(|(k, v)| (*k, v.entries().clone())).collect();
    after.sort();
    assert_eq!(after, snapshot);
    assert_eq!(prop.data[&0].get("position"), Some(&5));
}

#[test]
fn prop_requests_create_or_update() {
    let def = crate_definition();
    match decide_prop_request(false, &def) {
        PropRequestAction::Create { zones } => assert_eq!(zones, vec![0, 1, 3]),
        PropRequestAction::Update => panic!("an unknown prop was updated"),
    }
    assert!(matches!(decide_prop_request(true, &def), PropRequestAction::Update));
    let bare = ObjectDefinition::new("bare".to_string(), Vec::new());
    match decide_prop_request(false, &bare) {
        PropRequestAction::Create { zones } => assert!(zones.is_empty()),
        PropRequestAction::Update => panic!("an unknown prop was updated"),
    }
}
