//! The props plugin's decisions: which event announces a new player to the
//! game server, what a spawn request asks for, and which players a
//! disconnection removes from the clients' view.

use vstd::prelude::*;
use crate::text::str_equals;

verus! {

/// The event sent to the game server when a player joins.
#[derive(Debug, Clone, Copy, PartialEq, Eq, Structural)]
pub enum ServerPropsEvent {
    /// The first player: the game server is initialised with the planets and the player.
    InitServer,
    /// A further player: only the player is added.
    AddProps,
}

/// The event that announces a joining player, given how many players the
/// plugin knew before: the first one initialises the server.
pub fn new_player_server_event(known_players: usize) -> (r: ServerPropsEvent)
    ensures
        r == (if known_players == 0 { ServerPropsEvent::InitServer } else { ServerPropsEvent::AddProps }),
{
    if known_players == 0 {
        ServerPropsEvent::InitServer
    } else {
        ServerPropsEvent::AddProps
    }
}

impl ServerPropsEvent {
    /// The game-server plugin event's name.
    pub fn event_name(&self) -> (r: &'static str)
        ensures
            r@ == (match self {
                ServerPropsEvent::InitServer => "init_server"@,
                ServerPropsEvent::AddProps => "add_props"@,
            }),
    {
        match self {
            ServerPropsEvent::InitServer => "init_server",
            ServerPropsEvent::AddProps => "add_props",
        }
    }
}

/// What a spawn request asks for.
#[derive(Debug, Clone, Copy, PartialEq, Eq, Structural)]
pub enum SpawnKind {
    /// A 50 cm box.
    Box50cm,
    /// A 4 m box.
    Box4m,
    /// A ship.
    Ship,
    /// Anything else.
    Unknown,
}

/// The kind of prop a spawn request's `type` field asks for (`None` where
/// the field is missing or not a string).
pub open spec fn spawn_kind_of(requested: Option<String>) -> SpawnKind {
    match requested {
        Some(t) => if t@ == "box50cm"@ {
            SpawnKind::Box50cm
        } else if t@ == "box4m"@ {
            SpawnKind::Box4m
        } else if t@ == "ship"@ {
            SpawnKind::Ship
        } else {
            SpawnKind::Unknown
        },
        None => SpawnKind::Unknown,
    }
}

/// Classifies a spawn request by its `type` field.
pub fn classify_spawn_request(requested: &Option<String>) -> (r: SpawnKind)
    ensures
        r == spawn_kind_of(*requested),
        (r == SpawnKind::Box50cm) <==> (*requested is Some && (*requested)->0@ == "box50cm"@),
        (r == SpawnKind::Box4m) <==> (*requested is Some && (*requested)->0@ == "box4m"@),
        (r == SpawnKind::Ship) <==> (*requested is Some && (*requested)->0@ == "ship"@),
{
    proof {
        reveal_strlit("box50cm");
        reveal_strlit("box4m");
        reveal_strlit("ship");
        assert("box50cm"@.len() != "box4m"@.len() && "box50cm"@.len() != "ship"@.len() && "box4m"@.len() != "ship"@.len());
    }
    match requested {
        Some(t) => {
            let t = t.as_str();
            if str_equals(t, "box50cm") {
                SpawnKind::Box50cm
            } else if str_equals(t, "box4m") {
                SpawnKind::Box4m
            } else if str_equals(t, "ship") {
                SpawnKind::Ship
            } else {
                SpawnKind::Unknown
            }
        }
        None => SpawnKind::Unknown,
    }
}

/// The UUIDs of the players whose internal id is `departed`, in the order given.
pub open spec fn departed_uuids(players: Seq<(String, String)>, departed: Seq<char>) -> Seq<Seq<char>>
    decreases players.len(),
{
    if players.len() == 0 {
        Seq::empty()
    } else {
        let before = departed_uuids(players.drop_last(), departed);
        if players.last().0@ == departed {
            before.push(players.last().1@)
        } else {
            before
        }
    }
}

/// The props plugin's players as (internal id, UUID) pairs; returns the UUIDs
/// of those whose internal id is `departed`, whose deletion is announced to
/// every client.
pub fn players_to_announce_departed(players: &Vec<(String, String)>, departed: &str) -> (r: Vec<String>)
    ensures
        r@.map_values(|u: String| u@) == departed_uuids(players@, departed@),
{
    let mut out: Vec<String> = Vec::new();
    let mut i: usize = 0;
    while i < players.len()
        invariant
            i <= players@.len(),
            out@.map_values(|u: String| u@) == departed_uuids(players@.subrange(0, i as int), departed@),
        decreases players@.len() - i,
    {
        let ghost prefix = players@.subrange(0, i as int);
        if str_equals(players[i].0.as_str(), departed) {
            out.push(players[i].1.clone());
        }
        i = i + 1;
        assert(players@.subrange(0, i as int).drop_last() =~= prefix);
        assert(out@.map_values(|u: String| u@) =~= departed_uuids(players@.subrange(0, i as int), departed@));
    }
    assert(players@.subrange(0, i as int) =~= players@);
    out
}

/// The props plugin, named "dyingstar_props".
pub struct DyingstarPropsPlugin {
    name: String,
}

impl DyingstarPropsPlugin {
    /// The plugin's name.
    pub closed spec fn plugin_name(&self) -> Seq<char> {
        self.name@
    }

    /// The plugin, named "dyingstar_props".
    pub fn new() -> (r: DyingstarPropsPlugin)
        ensures
            r.plugin_name() == "dyingstar_props"@,
    {
        DyingstarPropsPlugin { name: String::from_str("dyingstar_props") }
    }

    /// The plugin's name.
    pub fn name(&self) -> (r: &str)
        ensures
            r@ == self.plugin_name(),
    {
        self.name.as_str()
    }

    /// The plugin's version.
    pub fn version(&self) -> (r: &'static str)
        ensures
            r@ == "1.0.0"@,
    {
        "1.0.0"
    }
}

/// A spawn request asks for a 50 cm box, a 4 m box or a ship exactly when its
/// type is "box50cm", "box4m" or "ship"; anything else, a missing type
/// included, is unknown.
pub proof fn spawn_kinds_follow_the_type(requested: Option<String>)
    ensures
        (spawn_kind_of(requested) == SpawnKind::Box50cm) <==> (requested is Some && requested->0@ == "box50cm"@),
        (spawn_kind_of(requested) == SpawnKind::Box4m) <==> (requested is Some && requested->0@ == "box4m"@),
        (spawn_kind_of(requested) == SpawnKind::Ship) <==> (requested is Some && requested->0@ == "ship"@),
        requested is None ==> spawn_kind_of(requested) == SpawnKind::Unknown,
{
    reveal_strlit("box50cm");
    reveal_strlit("box4m");
    reveal_strlit("ship");
    assert("box50cm"@.len() != "box4m"@.len() && "box50cm"@.len() != "ship"@.len() && "box4m"@.len() != "ship"@.len());
}

/// Whether some player with internal id `departed` has the UUID `uuid`.
pub open spec fn has_departed_body(players: Seq<(String, String)>, departed: Seq<char>, uuid: Seq<char>) -> bool {
    exists|j: int| 0 <= j < players.len() && (#[trigger] players[j]).0@ == departed && players[j].1@ == uuid
}

/// The deletion of exactly the departed player's bodies is announced: every
/// announced UUID belongs to a player whose internal id is the departed one,
/// and every such player's UUID is announced; no more are announced than
/// there are players.
pub proof fn departures_announce_exactly_the_departed(players: Seq<(String, String)>, departed: Seq<char>)
    ensures
        departed_uuids(players, departed).len() <= players.len(),
        forall|k: int| 0 <= k < departed_uuids(players, departed).len()
            ==> has_departed_body(players, departed, #[trigger] departed_uuids(players, departed)[k]),
        forall|j: int| 0 <= j < players.len() && (#[trigger] players[j]).0@ == departed
            ==> departed_uuids(players, departed).contains(players[j].1@),
    decreases players.len(),
{
    if players.len() > 0 {
        let before = players.drop_last();
        departures_announce_exactly_the_departed(before, departed);
        let out = departed_uuids(players, departed);
        let prev = departed_uuids(before, departed);
        assert forall|k: int| 0 <= k < departed_uuids(players, departed).len()
            implies has_departed_body(players, departed, #[trigger] departed_uuids(players, departed)[k]) by {
            if k < prev.len() {
                assert(out[k] == prev[k]);
                assert(has_departed_body(before, departed, prev[k]));
                let j = choose|j: int| 0 <= j < before.len() && (#[trigger] before[j]).0@ == departed && before[j].1@ == prev[k];
                assert(players[j] == before[j]);
            } else {
                let j = players.len() - 1;
                assert(players[j] == players.last());
                assert(players.last().0@ == departed);
                assert(out == prev.push(players.last().1@));
                assert(players[j].1@ == out[k]);
            }
        }
        assert forall|j: int| 0 <= j < players.len() && (#[trigger] players[j]).0@ == departed
            implies out.contains(players[j].1@) by {
            if j < players.len() - 1 {
                assert(before[j] == players[j]);
                let k = choose|k: int| 0 <= k < prev.len() && prev[k] == players[j].1@;
                assert(out[k] == prev[k]);
            } else {
                assert(players[j] == players.last());
                assert(out[out.len() - 1] == players.last().1@);
            }
        }
    }
}

} // verus!
