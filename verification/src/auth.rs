//! The player authentication plugin: what a player's init message turns into
//! (the announcement of a new player to the player plugin).

use vstd::prelude::*;
use crate::ids::{PlayerId, new_uuid_v4_text, is_v4_uuid_text};
use crate::text::str_equals;

verus! {

/// Credentials a client sends with its init message.
#[derive(Debug, Clone)]
pub struct PlayerInitData {
    /// Login name.
    pub login: String,
    /// Password.
    pub password: String,
}

/// A client's init message.
#[derive(Debug, Clone)]
pub struct PlayerInit {
    /// The credentials.
    pub data: PlayerInitData,
    /// The player id the client claims.
    pub player_id: PlayerId,
}

/// A logged-in player's session.
#[derive(Debug, Clone)]
pub struct PlayerSession {
    /// The player's name.
    pub username: String,
    /// The player's id.
    pub player_id: PlayerId,
}

/// The announcement of a new player, sent to the player plugin.
#[derive(Debug, Clone)]
pub struct NewPlayerData {
    /// The player's name.
    pub username: String,
    /// A fresh UUID for the player.
    pub uuid: String,
    /// The player id the client claimed.
    pub internal_uuid: PlayerId,
    /// The player id of the client's connection.
    pub hs_player_id: PlayerId,
}

/// The login that is refused outright.
pub open spec fn is_refused_login(login: Seq<char>) -> bool {
    login == "I am an idiot !"@
}

/// The announcement that an init message gives, with `uuid` as the new
/// player's UUID; `None` for a refused login.
pub fn new_player_announcement(event: &PlayerInit, hs_player_id: PlayerId, uuid: String) -> (r: Option<NewPlayerData>)
    ensures
        is_refused_login(event.data.login@) <==> r is None,
        r matches Some(d) ==> d.username@ == event.data.login@ && d.uuid == uuid
            && d.internal_uuid == event.player_id && d.hs_player_id == hs_player_id,
{
    if str_equals(event.data.login.as_str(), "I am an idiot !") {
        None
    } else {
        Some(NewPlayerData {
            username: String::from_str(event.data.login.as_str()),
            uuid,
            internal_uuid: event.player_id,
            hs_player_id,
        })
    }
}

/// Answers a client's init message: unless its login is refused, announces a
/// new player named by the login, under a freshly generated UUID.
pub fn announce_new_player(event: &PlayerInit, hs_player_id: PlayerId) -> (r: Option<NewPlayerData>)
    ensures
        is_refused_login(event.data.login@) <==> r is None,
        r is None <==> event.data.login@ == "I am an idiot !"@,
        r matches Some(d) ==> d.username@ == event.data.login@ && is_v4_uuid_text(d.uuid@)
            && d.internal_uuid == event.player_id && d.hs_player_id == hs_player_id,
{
    if str_equals(event.data.login.as_str(), "I am an idiot !") {
        None
    } else {
        new_player_announcement(event, hs_player_id, new_uuid_v4_text())
    }
}

/// The authentication plugin.
pub struct DsPlayerAuthenticationPlugin {
    name: String,
}

impl DsPlayerAuthenticationPlugin {
    /// The plugin's name.
    pub closed spec fn plugin_name(&self) -> Seq<char> {
        self.name@
    }

    /// The plugin, named "ds_player_authentication".
    pub fn new() -> (r: DsPlayerAuthenticationPlugin)
        ensures
            r.plugin_name() == "ds_player_authentication"@,
    {
        DsPlayerAuthenticationPlugin { name: String::from_str("ds_player_authentication") }
    }

    /// The plugin's name.
    pub fn name(&self) -> (r: &str)
        ensures
            r@ == self.plugin_name(),
    {
        self.name.as_str()
    }

    /// The plugin's version.
    pub fn version(&self) -> (r: &'static str)
        ensures
            r@ == "1.0.0"@,
    {
        "1.0.0"
    }
}

} // verus!
