//! The game-server bridge plugin: its configuration, and which plugin event
//! a message from the game server is forwarded as.

use vstd::prelude::*;
use crate::ids::PlayerId;
use crate::text::str_equals;

verus! {

/// What a client sends when it spawns.
#[derive(Debug, Clone)]
pub struct PlayerInitData {
    /// The player's name.
    pub name: String,
    /// The spawn point chosen.
    pub spawnpoint: i32,
}

/// A client's spawn message.
#[derive(Debug, Clone)]
pub struct PlayerInit {
    /// The spawn data.
    pub data: PlayerInitData,
    /// The player spawning.
    pub player_id: PlayerId,
}

/// The game-server bridge plugin's configuration.
pub struct DsGameServerPlugin {
    name: String,
    socket_url: String,
}

impl DsGameServerPlugin {
    /// The plugin's name.
    pub closed spec fn plugin_name(&self) -> Seq<char> {
        self.name@
    }

    /// The game server's WebSocket address.
    pub closed spec fn server_url(&self) -> Seq<char> {
        self.socket_url@
    }

    /// The plugin, named "ds_game_server", bridging to the game server at
    /// `ws://127.0.0.1:8980`.
    pub fn new() -> (r: DsGameServerPlugin)
        ensures
            r.plugin_name() == "ds_game_server"@,
            r.server_url() == "ws://127.0.0.1:8980"@,
    {
        DsGameServerPlugin {
            name: String::from_str("ds_game_server"),
            socket_url: String::from_str("ws://127.0.0.1:8980"),
        }
    }

    /// The plugin's name.
    pub fn name(&self) -> (r: &str)
        ensures
            r@ == self.plugin_name(),
    {
        self.name.as_str()
    }

    /// The game server's WebSocket address.
    pub fn socket_url(&self) -> (r: &str)
        ensures
            r@ == self.server_url(),
    {
        self.socket_url.as_str()
    }

    /// The plugin's version.
    pub fn version(&self) -> (r: &'static str)
        ensures
            r@ == "1.0.0"@,
    {
        "1.0.0"
    }
}

/// How a frame from the game server arrived.
#[derive(Debug, Clone, Copy, PartialEq, Eq, Structural)]
pub enum FrameKind {
    /// A text frame.
    Text,
    /// A binary frame holding UTF-8 text.
    Binary,
}

/// The plugin event a game-server message is forwarded as.
#[derive(Debug, Clone, Copy, PartialEq, Eq, Structural)]
pub enum GameServerForward {
    /// Player positions, forwarded to the props plugin as `players_position_update`.
    PlayersPosition,
    /// Prop positions, forwarded to the props plugin as `props_position_update`.
    PropsPosition,
}

/// Whether an optional text field holds exactly `expected`.
pub open spec fn field_is(field: Option<String>, expected: Seq<char>) -> bool {
    field matches Some(f) && f@ == expected
}

/// The forwarding of a game-server message with the given `namespace` and
/// `event` fields (`None` where the field is missing or not a string):
/// player positions in either kind of frame, prop positions in text frames
/// only; anything else is not forwarded.
pub open spec fn forward_of(kind: FrameKind, namespace: Option<String>, event: Option<String>) -> Option<GameServerForward> {
    if field_is(namespace, "players"@) && field_is(event, "position"@) {
        Some(GameServerForward::PlayersPosition)
    } else if kind == FrameKind::Text && field_is(namespace, "props"@) && field_is(event, "position"@) {
        Some(GameServerForward::PropsPosition)
    } else {
        None
    }
}

fn field_equals(field: &Option<String>, expected: &str) -> (r: bool)
    ensures
        r == (field matches Some(f) && f@ == expected@),
{
    match field {
        Some(f) => str_equals(f.as_str(), expected),
        None => false,
    }
}

/// Decides which plugin event a message from the game server is forwarded as.
pub fn route_game_server_message(kind: FrameKind, namespace: &Option<String>, event: &Option<String>) -> (r: Option<GameServerForward>)
    ensures
        r == forward_of(kind, *namespace, *event),
        r is Some ==> ((*event is Some && (*event)->0@ == "position"@)),
        (r == Some(GameServerForward::PlayersPosition)) <==> ((*namespace is Some && (*namespace)->0@ == "players"@)
            && (*event is Some && (*event)->0@ == "position"@)),
        (r == Some(GameServerForward::PropsPosition)) <==> (kind == FrameKind::Text && (*namespace is Some && (*namespace)->0@ == "props"@)
            && (*event is Some && (*event)->0@ == "position"@)),
{
    proof {
        reveal_strlit("players");
        reveal_strlit("props");
        assert("players"@.len() != "props"@.len());
    }
    let is_position = field_equals(event, "position");
    if field_equals(namespace, "players") && is_position {
        Some(GameServerForward::PlayersPosition)
    } else if kind == FrameKind::Text && field_equals(namespace, "props") && is_position {
        Some(GameServerForward::PropsPosition)
    } else {
        None
    }
}

impl GameServerForward {
    /// The plugin event name used for the forwarded message.
    pub fn event_name(&self) -> (r: &'static str)
        ensures
            r@ == (match self {
                GameServerForward::PlayersPosition => "players_position_update"@,
                GameServerForward::PropsPosition => "props_position_update"@,
            }),
    {
        match self {
            GameServerForward::PlayersPosition => "players_position_update",
            GameServerForward::PropsPosition => "props_position_update",
        }
    }

    /// The field of the forwarded payload that carries the message's data.
    pub fn payload_field(&self) -> (r: &'static str)
        ensures
            r@ == (match self {
                GameServerForward::PlayersPosition => "players"@,
                GameServerForward::PropsPosition => "props"@,
            }),
    {
        match self {
            GameServerForward::PlayersPosition => "players",
            GameServerForward::PropsPosition => "props",
        }
    }
}

/// Only position messages are forwarded: player positions from a text or
/// binary frame, prop positions from a text frame only; a message with any
/// other event, or from any other namespace, is not forwarded.
pub proof fn only_position_messages_are_forwarded(kind: FrameKind, namespace: Option<String>, event: Option<String>)
    ensures
        forward_of(kind, namespace, event) is Some ==> ((event is Some && event->0@ == "position"@)),
        ((namespace is Some && namespace->0@ == "players"@) && (event is Some && event->0@ == "position"@))
            ==> forward_of(kind, namespace, event) == Some(GameServerForward::PlayersPosition),
        (kind == FrameKind::Text && (namespace is Some && namespace->0@ == "props"@) && (event is Some && event->0@ == "position"@))
            ==> forward_of(kind, namespace, event) == Some(GameServerForward::PropsPosition),
        kind == FrameKind::Binary ==> forward_of(kind, namespace, event) != Some(GameServerForward::PropsPosition),
        !(namespace is Some && (namespace->0@ == "players"@ || namespace->0@ == "props"@)) ==> forward_of(kind, namespace, event) is None,
{
    reveal_strlit("players");
    reveal_strlit("props");
    assert("players"@.len() != "props"@.len());
}

} // verus!
