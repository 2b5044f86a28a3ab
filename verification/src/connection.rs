//! The registry of connected players: which replicated object stands for each
//! player, filled when a player connects and emptied when it leaves.

use vstd::prelude::*;
use dashmap::DashMap;
use crate::ids::{PlayerId, GorcObjectId};

verus! {

#[verifier::external_type_specification]
#[verifier::external_body]
#[verifier::reject_recursive_types(K)]
#[verifier::reject_recursive_types(V)]
#[verifier::reject_recursive_types(S)]
pub struct ExDashMap<K, V, S>(DashMap<K, V, S>);

/// The mapping with no entries.
pub open spec fn no_entries() -> Map<u128, u128> {
    Map::empty()
}

/// The key-value pairs a `DashMap<u128, u128>` holds.
pub uninterp spec fn dashmap_contents(m: DashMap<u128, u128>) -> Map<u128, u128>;

/// Calls `DashMap::new`: an empty map.
#[verifier::external_body]
fn dashmap_new() -> (created: DashMap<u128, u128>)
    ensures
        dashmap_contents(created) == no_entries(),
{
    DashMap::new()
}

/// Calls `DashMap::insert`: the key now maps to the value, and the value it
/// held before (if any) is returned.
#[verifier::external_body]
fn dashmap_insert(m: &mut DashMap<u128, u128>, key: u128, value: u128) -> (previous: Option<u128>)
    ensures
        dashmap_contents(*final(m)) == dashmap_contents(*old(m)).insert(key, value),
        previous == (if dashmap_contents(*old(m)).contains_key(key) {
            Some(dashmap_contents(*old(m))[key])
        } else {
            None
        }),
{
    m.insert(key, value)
}

/// Calls `DashMap::remove`: the key no longer has an entry, and the removed
/// key-value pair (if any) is returned.
#[verifier::external_body]
fn dashmap_remove(m: &mut DashMap<u128, u128>, key: u128) -> (removed: Option<(u128, u128)>)
    ensures
        dashmap_contents(*final(m)) == dashmap_contents(*old(m)).remove(key),
        removed == (if dashmap_contents(*old(m)).contains_key(key) {
            Some((key, dashmap_contents(*old(m))[key]))
        } else {
            None
        }),
{
    m.remove(&key)
}

/// Calls `DashMap::get` and copies out the value found.
#[verifier::external_body]
fn dashmap_get(m: &DashMap<u128, u128>, key: u128) -> (found: Option<u128>)
    ensures
        found == (if dashmap_contents(*m).contains_key(key) {
            Some(dashmap_contents(*m)[key])
        } else {
            None
        }),
{
    m.get(&key).map(|entry| *entry)
}

/// Calls `DashMap::len`: the number of entries.
#[verifier::external_body]
fn dashmap_len(m: &DashMap<u128, u128>) -> (count: usize)
    ensures
        count as nat == dashmap_contents(*m).len(),
{
    m.len()
}

/// Calls `DashMap::clear`: no entries remain.
#[verifier::external_body]
fn dashmap_clear(m: &mut DashMap<u128, u128>)
    ensures
        dashmap_contents(*final(m)) == no_entries(),
{
    m.clear()
}

/// The registry of connected players, from a player's id to the id of the
/// replicated object that stands for it.
pub struct PlayerRegistry {
    players: DashMap<u128, u128>,
}

impl PlayerRegistry {
    /// The player-to-object mapping, over the ids' 128-bit values.
    pub closed spec fn view(&self) -> Map<u128, u128> {
        dashmap_contents(self.players)
    }

    /// An empty registry.
    pub fn new() -> (r: PlayerRegistry)
        ensures
            r.view() == no_entries(),
    {
        PlayerRegistry { players: dashmap_new() }
    }

    /// Records that `player` is represented by `object`; returns the object
    /// that represented it before, if any.
    pub fn record_connection(&mut self, player: PlayerId, object: GorcObjectId) -> (previous: Option<GorcObjectId>)
        ensures
            final(self).view() == old(self).view().insert(player.0, object.0),
            previous == (if old(self).view().contains_key(player.0) {
                Some(GorcObjectId(old(self).view()[player.0]))
            } else {
                None
            }),
    {
        match dashmap_insert(&mut self.players, player.0, object.0) {
            Some(v) => Some(GorcObjectId(v)),
            None => None,
        }
    }

    /// The object that represents `player`, if it is registered.
    pub fn object_of(&self, player: PlayerId) -> (r: Option<GorcObjectId>)
        ensures
            r == (if self.view().contains_key(player.0) {
                Some(GorcObjectId(self.view()[player.0]))
            } else {
                None
            }),
    {
        match dashmap_get(&self.players, player.0) {
            Some(v) => Some(GorcObjectId(v)),
            None => None,
        }
    }

    /// Removes `player` from the registry; returns the object that
    /// represented it, if it was registered.
    pub fn remove_player(&mut self, player: PlayerId) -> (removed: Option<GorcObjectId>)
        ensures
            final(self).view() == old(self).view().remove(player.0),
            removed == (if old(self).view().contains_key(player.0) {
                Some(GorcObjectId(old(self).view()[player.0]))
            } else {
                None
            }),
    {
        match dashmap_remove(&mut self.players, player.0) {
            Some((_, v)) => Some(GorcObjectId(v)),
            None => None,
        }
    }

    /// The number of registered players.
    pub fn len(&self) -> (n: usize)
        ensures
            n as nat == self.view().len(),
    {
        dashmap_len(&self.players)
    }

    /// Forgets every registered player.
    pub fn clear(&mut self)
        ensures
            final(self).view() == no_entries(),
    {
        dashmap_clear(&mut self.players)
    }
}

/// A player's disconnection, as the server core reports it.
#[derive(Debug, Clone)]
pub struct PlayerDisconnectedEvent {
    /// The player that left.
    pub player_id: PlayerId,
    /// The connection of the session that ended.
    pub connection_id: String,
    /// Unix time of the disconnection, in seconds.
    pub timestamp: u64,
}

/// Cleans up after a disconnection: the player leaves the registry. Returns
/// the object that represented it, or `None` where it was never registered.
pub fn handle_player_disconnected(event: &PlayerDisconnectedEvent, players: &mut PlayerRegistry) -> (removed: Option<GorcObjectId>)
    ensures
        final(players).view() == old(players).view().remove(event.player_id.0),
        removed == (if old(players).view().contains_key(event.player_id.0) {
            Some(GorcObjectId(old(players).view()[event.player_id.0]))
        } else {
            None
        }),
{
    players.remove_player(event.player_id)
}

/// After a player's connection is recorded, the registry finds the object
/// recorded for it.
pub proof fn connection_is_found(players: Map<u128, u128>, player: PlayerId, object: GorcObjectId)
    ensures
        players.insert(player.0, object.0).contains_key(player.0),
        players.insert(player.0, object.0)[player.0] == object.0,
{
}

/// Cleaning up after a disconnection is idempotent: doing it twice leaves
/// the registry as doing it once does.
pub proof fn disconnection_is_idempotent(players: Map<u128, u128>, player: PlayerId)
    ensures
        players.remove(player.0).remove(player.0) == players.remove(player.0),
{
    assert(players.remove(player.0).remove(player.0) =~= players.remove(player.0));
}

/// A disconnection leaves every other player's registration as it was.
pub proof fn disconnection_keeps_others(players: Map<u128, u128>, player: PlayerId, other: PlayerId)
    requires
        other != player,
    ensures
        players.remove(player.0).contains_key(other.0) == players.contains_key(other.0),
        players.contains_key(other.0) ==> players.remove(player.0)[other.0] == players[other.0],
{
}

/// A player that connects and then disconnects leaves the registry as if it
/// had only disconnected: no trace of the connection remains.
pub proof fn connection_then_disconnection(players: Map<u128, u128>, player: PlayerId, object: GorcObjectId)
    ensures
        players.insert(player.0, object.0).remove(player.0) == players.remove(player.0),
{
    assert(players.insert(player.0, object.0).remove(player.0) =~= players.remove(player.0));
}

} // verus!
