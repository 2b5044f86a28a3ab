use dyingstar_plugins::auth::{announce_new_player, new_player_announcement, DsPlayerAuthenticationPlugin, PlayerInit, PlayerInitData};
use dyingstar_plugins::game_server::{route_game_server_message, DsGameServerPlugin, FrameKind, GameServerForward};
use dyingstar_plugins::ids::{resolve_broadcast_target, uuid_or_generate, GorcObjectId, PlayerId};
use dyingstar_plugins::props::{
    classify_spawn_request, new_player_server_event, players_to_announce_departed, DyingstarPropsPlugin,
    ServerPropsEvent, SpawnKind,
};

fn init(login: &str) -> PlayerInit {
    PlayerInit {
        data: PlayerInitData { login: login.to_string(), password: "secret".to_string() },
        player_id: PlayerId(12),
    }
}

#[test]
fn authentication_plugin_identity() {
    let plugin = DsPlayerAuthenticationPlugin::new();
    assert_eq!(plugin.name(), "ds_player_authentication");
    assert_eq!(plugin.version(), "1.0.0");
}

#[test]
fn init_message_announces_new_player() {
    let d = new_player_announcement(&init("ddurieux"), PlayerId(99), "fixed-uuid".to_string()).unwrap();
    assert_eq!(d.username, "ddurieux");
    assert_eq!(d.uuid, "fixed-uuid");
    assert_eq!(d.internal_uuid, PlayerId(12));
    assert_eq!(d.hs_player_id, PlayerId(99));
    let fresh = announce_new_player(&init("pilot"), PlayerId(99)).unwrap();
    assert_eq!(fresh.uuid.len(), 36);
    assert_eq!(fresh.username, "pilot");
}

#[test]
fn refused_login_announces_nothing() {
    assert!(announce_new_player(&init("I am an idiot !"), PlayerId(1)).is_none());
    assert!(new_player_announcement(&init("I am an idiot !"), PlayerId(1), "u".to_string()).is_none());
}

#[test]
fn game_server_plugin_identity() {
    let plugin = DsGameServerPlugin::new();
    assert_eq!(plugin.name(), "ds_game_server");
    assert_eq!(plugin.socket_url(), "ws://127.0.0.1:8980");
    assert_eq!(plugin.version(), "1.0.0");
}

fn s(x: &str) -> Option<String> {
    Some(x.to_string())
}

#[test]
fn game_server_messages_are_routed() {
    let players = route_game_server_message(FrameKind::Text, &s("players"), &s("position"));
    assert_eq!(players, Some(GameServerForward::PlayersPosition));
    assert_eq!(players.unwrap().event_name(), "players_position_update");
    assert_eq!(players.unwrap().payload_field(), "players");
    let props = route_game_server_message(FrameKind::Text, &s("props"), &s("position"));
    assert_eq!(props, Some(GameServerForward::PropsPosition));
    assert_eq!(props.unwrap().event_name(), "props_position_update");
    assert_eq!(props.unwrap().payload_field(), "props");
    assert_eq!(
        route_game_server_message(FrameKind::Binary, &s("players"), &s("position")),
        Some(GameServerForward::PlayersPosition)
    );
    // binary frames only carry player positions
    assert_eq!(route_game_server_message(FrameKind::Binary, &s("props"), &s("position")), None);
    assert_eq!(route_game_server_message(FrameKind::Text, &s("players"), &s("spawn")), None);
    assert_eq!(route_game_server_message(FrameKind::Text, &None, &s("position")), None);
}

#[test]
fn props_plugin_decisions() {
    let plugin = DyingstarPropsPlugin::new();
    assert_eq!(plugin.name(), "dyingstar_props");
    assert_eq!(plugin.version(), "1.0.0");
    assert_eq!(new_player_server_event(0), ServerPropsEvent::InitServer);
    assert_eq!(new_player_server_event(0).event_name(), "init_server");
    assert_eq!(new_player_server_event(3), ServerPropsEvent::AddProps);
    assert_eq!(new_player_server_event(3).event_name(), "add_props");
    assert_eq!(classify_spawn_request(&s("box50cm")), SpawnKind::Box50cm);
    assert_eq!(classify_spawn_request(&s("box4m")), SpawnKind::Box4m);
    assert_eq!(classify_spawn_request(&s("ship")), SpawnKind::Ship);
    assert_eq!(classify_spawn_request(&s("tank")), SpawnKind::Unknown);
    assert_eq!(classify_spawn_request(&None), SpawnKind::Unknown);
}

#[test]
fn departed_players_are_announced_in_order() {
    let players = vec![
        ("a".to_string(), "u1".to_string()),
        ("b".to_string(), "u2".to_string()),
        ("a".to_string(), "u3".to_string()),
    ];
    assert_eq!(players_to_announce_departed(&players, "a"), vec!["u1".to_string(), "u3".to_string()]);
    assert!(players_to_announce_departed(&players, "c").is_empty());
}

#[test]
fn broadcast_targets_are_read_from_object_ids() {
    assert_eq!(
        resolve_broadcast_target("550e8400-e29b-41d4-a716-446655440000"),
        Some(GorcObjectId(0x550e8400_e29b_41d4_a716_446655440000))
    );
    assert_eq!(resolve_broadcast_target("not-an-object"), None);
    let value = 0x67e5504410b1426f9247bb680e5fe0c8u128;
    assert_eq!(resolve_broadcast_target("67e5504410b1426f9247bb680e5fe0c8"), Some(GorcObjectId(value)));
    assert_eq!(resolve_broadcast_target("67E55044-10B1-426F-9247-BB680E5FE0C8"), Some(GorcObjectId(value)));
    assert_eq!(resolve_broadcast_target("{67e55044-10b1-426f-9247-bb680e5fe0c8}"), Some(GorcObjectId(value)));
    assert_eq!(resolve_broadcast_target("URN:uuid:67e55044-10b1-426f-9247-bb680e5fe0c8"), Some(GorcObjectId(value)));
    assert_eq!(resolve_broadcast_target("67e55044-10b1-426f-9247-bb680e5fe0cg"), None);
    assert_eq!(resolve_broadcast_target("(67e55044-10b1-426f-9247-bb680e5fe0c8)"), None);
    assert_eq!(resolve_broadcast_target(""), None);
}

#[test]
fn uuids_are_kept_or_generated() {
    assert_eq!(uuid_or_generate("box-7".to_string()), "box-7");
    let generated = uuid_or_generate(String::new());
    assert_eq!(generated.len(), 36);
    assert!(generated.chars().all(|c| c == '-' || c.is_ascii_digit() || ('a'..='f').contains(&c)));
    let chars: Vec<char> = generated.chars().collect();
    assert_eq!(chars[14], '4');
    assert!(['8', '9', 'a', 'b'].contains(&chars[19]));
    assert_ne!(uuid_or_generate(String::new()), generated);
}
