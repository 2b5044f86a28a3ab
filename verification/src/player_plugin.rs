//! The player plugin's own state and the parts of a player object that hold
//! no position: detailed state (zone 1) and social data (zone 2).

use vstd::prelude::*;
use crate::connection::{PlayerRegistry, no_entries};
use crate::ids::{PlayerId, GorcObjectId};

verus! {

/// Detailed player data, replicated at medium frequency (zone 1).
#[derive(Debug, Clone)]
pub struct PlayerDetailedData {
    /// Movement mode ("idle", "walking", "running", ...).
    pub movement_state: String,
    /// Experience level.
    pub level: u32,
}

/// Social player data, replicated at low frequency (zone 2).
#[derive(Debug, Clone)]
pub struct PlayerSocialData {
    /// Display name.
    pub name: String,
    /// Text of the chat bubble shown above the player, if any.
    pub chat_bubble: Option<String>,
}

impl PlayerDetailedData {
    /// The detailed state of a player that has just joined: idle, level 1.
    pub fn initial() -> (r: PlayerDetailedData)
        ensures
            r.movement_state@ == "idle"@,
            r.level == 1,
    {
        PlayerDetailedData { movement_state: String::from_str("idle"), level: 1 }
    }
}

impl PlayerSocialData {
    /// The social data of a player that has just joined: its name, no chat bubble.
    pub fn initial(name: String) -> (r: PlayerSocialData)
        ensures
            r.name == name,
            r.chat_bubble is None,
    {
        PlayerSocialData { name, chat_bubble: None }
    }

    /// Shows `message` in the player's chat bubble.
    pub fn set_chat_bubble(&mut self, message: String)
        ensures
            final(self).name == old(self).name,
            final(self).chat_bubble == Some(message),
    {
        self.chat_bubble = Some(message);
    }
}

/// The player plugin: its name and the registry of connected players.
pub struct PlayerPlugin {
    name: String,
    players: PlayerRegistry,
}

impl PlayerPlugin {
    /// The plugin's name.
    pub closed spec fn plugin_name(&self) -> Seq<char> {
        self.name@
    }

    /// The registry of connected players.
    pub closed spec fn registered(&self) -> Map<u128, u128> {
        self.players.view()
    }

    /// A plugin named "PlayerPlugin" with no player registered.
    pub fn new() -> (r: PlayerPlugin)
        ensures
            r.plugin_name() == "PlayerPlugin"@,
            r.registered() == no_entries(),
    {
        PlayerPlugin { name: String::from_str("PlayerPlugin"), players: PlayerRegistry::new() }
    }

    /// The plugin's name.
    pub fn name(&self) -> (r: &str)
        ensures
            r@ == self.plugin_name(),
    {
        self.name.as_str()
    }

    /// The plugin's version.
    pub fn version(&self) -> (r: &'static str)
        ensures
            r@ == "1.0.0"@,
    {
        "1.0.0"
    }

    /// Records that a connected player is represented by `object`.
    pub fn register_player(&mut self, player: PlayerId, object: GorcObjectId)
        ensures
            final(self).plugin_name() == old(self).plugin_name(),
            final(self).registered() == old(self).registered().insert(player.0, object.0),
    {
        self.players.record_connection(player, object);
    }

    /// Removes a player that left; returns the object that represented it.
    pub fn unregister_player(&mut self, player: PlayerId) -> (removed: Option<GorcObjectId>)
        ensures
            final(self).plugin_name() == old(self).plugin_name(),
            final(self).registered() == old(self).registered().remove(player.0),
            removed == (if old(self).registered().contains_key(player.0) {
                Some(GorcObjectId(old(self).registered()[player.0]))
            } else {
                None
            }),
    {
        self.players.remove_player(player)
    }

    /// The object that represents `player`, if it is registered.
    pub fn object_of(&self, player: PlayerId) -> (r: Option<GorcObjectId>)
        ensures
            r == (if self.registered().contains_key(player.0) {
                Some(GorcObjectId(self.registered()[player.0]))
            } else {
                None
            }),
    {
        self.players.object_of(player)
    }

    /// Shuts the plugin down: returns how many players it managed and
    /// releases every registration.
    pub fn shutdown(&mut self) -> (managed: usize)
        ensures
            managed as nat == old(self).registered().len(),
            final(self).registered() == no_entries(),
            final(self).plugin_name() == old(self).plugin_name(),
    {
        let n = self.players.len();
        self.players.clear();
        n
    }
}

impl Default for PlayerPlugin {
    fn default() -> (r: PlayerPlugin)
        ensures
            r.plugin_name() == "PlayerPlugin"@,
            r.registered() == no_entries(),
    {
        PlayerPlugin::new()
    }
}

} // verus!
