use dyingstar_plugins::connection::{handle_player_disconnected, PlayerDisconnectedEvent, PlayerRegistry};
use dyingstar_plugins::ids::{GorcObjectId, PlayerId};
use dyingstar_plugins::player_plugin::{PlayerDetailedData, PlayerPlugin, PlayerSocialData};

fn disconnection(player: u128) -> PlayerDisconnectedEvent {
    PlayerDisconnectedEvent { player_id: PlayerId(player), connection_id: "conn-1".to_string(), timestamp: 1_700_000_000 }
}

#[test]
fn test_player_connection_creates_mapping() {
    let mut registry = PlayerRegistry::new();
    assert_eq!(registry.len(), 0);
    assert_eq!(registry.record_connection(PlayerId(42), GorcObjectId(1000)), None);
    assert_eq!(registry.object_of(PlayerId(42)), Some(GorcObjectId(1000)));
    assert_eq!(registry.len(), 1);
    // a new connection of the same player replaces its object
    assert_eq!(registry.record_connection(PlayerId(42), GorcObjectId(2000)), Some(GorcObjectId(1000)));
    assert_eq!(registry.object_of(PlayerId(42)), Some(GorcObjectId(2000)));
    assert_eq!(registry.len(), 1);
}

#[test]
fn test_player_disconnection_cleanup() {
    let mut registry = PlayerRegistry::new();
    registry.record_connection(PlayerId(1), GorcObjectId(11));
    registry.record_connection(PlayerId(2), GorcObjectId(22));
    assert_eq!(handle_player_disconnected(&disconnection(1), &mut registry), Some(GorcObjectId(11)));
    assert_eq!(registry.object_of(PlayerId(1)), None);
    assert_eq!(registry.object_of(PlayerId(2)), Some(GorcObjectId(22)));
    assert_eq!(registry.len(), 1);
}

#[test]
fn disconnection_cleanup_is_idempotent() {
    let mut registry = PlayerRegistry::new();
    registry.record_connection(PlayerId(5), GorcObjectId(55));
    assert_eq!(handle_player_disconnected(&disconnection(5), &mut registry), Some(GorcObjectId(55)));
    assert_eq!(handle_player_disconnected(&disconnection(5), &mut registry), None);
    assert_eq!(registry.len(), 0);
    // a player that was never registered
    assert_eq!(handle_player_disconnected(&disconnection(6), &mut registry), None);
}

#[test]
fn connect_then_disconnect_leaves_no_trace() {
    let mut registry = PlayerRegistry::new();
    registry.record_connection(PlayerId(8), GorcObjectId(88));
    registry.remove_player(PlayerId(8));
    assert_eq!(registry.len(), 0);
    assert_eq!(registry.object_of(PlayerId(8)), None);
}

#[test]
fn player_plugin_lifecycle() {
    let mut plugin = PlayerPlugin::new();
    assert_eq!(plugin.name(), "PlayerPlugin");
    assert_eq!(plugin.version(), "1.0.0");
    plugin.register_player(PlayerId(1), GorcObjectId(10));
    plugin.register_player(PlayerId(2), GorcObjectId(20));
    plugin.register_player(PlayerId(1), GorcObjectId(30));
    assert_eq!(plugin.object_of(PlayerId(1)), Some(GorcObjectId(30)));
    assert_eq!(plugin.unregister_player(PlayerId(2)), Some(GorcObjectId(20)));
    plugin.register_player(PlayerId(3), GorcObjectId(40));
    assert_eq!(plugin.shutdown(), 2);
    assert_eq!(plugin.object_of(PlayerId(1)), None);
    assert_eq!(plugin.shutdown(), 0);
    let default_plugin = PlayerPlugin::default();
    assert_eq!(default_plugin.name(), "PlayerPlugin");
}

#[test]
fn player_zone_data_defaults() {
    let detailed = PlayerDetailedData::initial();
    assert_eq!(detailed.movement_state, "idle");
    assert_eq!(detailed.level, 1);
    let mut social = PlayerSocialData::initial("Pilot".to_string());
    assert_eq!(social.name, "Pilot");
    assert_eq!(social.chat_bubble, None);
    social.set_chat_bubble("Requesting docking clearance".to_string());
    assert_eq!(social.chat_bubble.as_deref(), Some("Requesting docking clearance"));
    assert_eq!(social.name, "Pilot");
}
