//! Chat and communication on channel 2: content validation, the routing
//! behavior of each channel and the checks a chat request must pass before it
//! is broadcast.

use vstd::prelude::*;
use crate::errors::{HandlerError, outcome_matches, unauthenticated_error, unauthenticated_reason};
use crate::ids::PlayerId;
use crate::text::{decimal, append_decimal, str_equals};
use vstd::string::StrSliceExecFns;

verus! {

/// Longest message accepted, in characters.
pub const MAX_MESSAGE_CHARS: usize = 500;

/// A chat request sent by a client.
#[derive(Debug, Clone)]
pub struct PlayerChatRequest {
    /// The player the message is sent as.
    pub player_id: PlayerId,
    /// The message text.
    pub message: String,
    /// The communication channel ("general", "emergency", ...).
    pub channel: String,
    /// The recipient of a direct message, if any.
    pub target_player: Option<PlayerId>,
}

/// The communication channels the server supports.
pub open spec fn is_valid_channel(channel: Seq<char>) -> bool {
    ||| channel == "general"@
    ||| channel == "emergency"@
    ||| channel == "trade"@
    ||| channel == "fleet"@
    ||| channel == "private"@
}

/// Why a message is refused, checked in this order: empty, longer than 500
/// characters, unsupported channel; `None` where it is accepted.
pub open spec fn message_content_error(message: Seq<char>, channel: Seq<char>) -> Option<Seq<char>> {
    if message.len() == 0 {
        Some("Message cannot be empty"@)
    } else if message.len() > 500 {
        Some("Message too long: "@ + decimal(message.len()) + " characters (max 500)"@)
    } else if !is_valid_channel(channel) {
        Some("Invalid communication channel: "@ + channel)
    } else {
        None
    }
}

fn is_supported_channel(channel: &str) -> (r: bool)
    ensures
        r == is_valid_channel(channel@),
{
    str_equals(channel, "general") || str_equals(channel, "emergency") || str_equals(channel, "trade")
        || str_equals(channel, "fleet") || str_equals(channel, "private")
}

/// Validates the content of a message for a channel: it must not be empty,
/// must hold at most 500 characters, and the channel must be a supported one.
pub fn validate_message_content(message: &str, channel: &str) -> (r: Result<(), String>)
    ensures
        match message_content_error(message@, channel@) {
            None => r is Ok,
            Some(reason) => r matches Err(e) && e@ == reason,
        },
        r is Ok <==> (1 <= message@.len() <= 500 && (channel@ == "general"@ || channel@ == "emergency"@ || channel@ == "trade"@ || channel@ == "fleet"@ || channel@ == "private"@)),
{
    if message.is_empty() {
        return Err(String::from_str("Message cannot be empty"));
    }
    let len = message.unicode_len();
    if len > MAX_MESSAGE_CHARS {
        let mut e = String::from_str("Message too long: ");
        append_decimal(&mut e, len as u64);
        e.append(" characters (max 500)");
        assert(e@ =~= "Message too long: "@ + decimal(message@.len()) + " characters (max 500)"@);
        return Err(e);
    }
    if !is_supported_channel(channel) {
        let mut e = String::from_str("Invalid communication channel: ");
        e.append(channel);
        assert(e@ =~= "Invalid communication channel: "@ + channel@);
        return Err(e);
    }
    Ok(())
}

/// How a message on a channel is delivered. Ranges are in meters.
#[derive(Debug, Clone, Copy, PartialEq, Eq, Structural)]
pub enum CommunicationBehavior {
    /// Standard spatial broadcast within the range.
    Spatial { range: u32 },
    /// Direct message between two players.
    Direct { target: PlayerId },
    /// Emergency broadcast with extended range and priority.
    Emergency { range: u32, priority: bool },
    /// Communication to the members of a fleet.
    Fleet { fleet_id: Option<u32> },
}

/// The delivery of a message: emergency messages reach 1000 m with priority,
/// private messages with a target go directly to it, fleet messages go to the
/// fleet, and everything else is a spatial broadcast over 300 m.
pub open spec fn communication_behavior_of(channel: Seq<char>, target_player: Option<PlayerId>) -> CommunicationBehavior {
    if channel == "emergency"@ {
        CommunicationBehavior::Emergency { range: 1000, priority: true }
    } else if channel == "private"@ {
        match target_player {
            Some(target) => CommunicationBehavior::Direct { target },
            None => CommunicationBehavior::Spatial { range: 300 },
        }
    } else if channel == "fleet"@ {
        CommunicationBehavior::Fleet { fleet_id: None }
    } else {
        CommunicationBehavior::Spatial { range: 300 }
    }
}

/// Determines how a message sent on `channel` is delivered.
pub fn determine_communication_behavior(
    channel: &str,
    _sender: PlayerId,
    target_player: Option<PlayerId>,
) -> (r: CommunicationBehavior)
    ensures
        r == communication_behavior_of(channel@, target_player),
        channel@ == "emergency"@ ==> r == (CommunicationBehavior::Emergency { range: 1000, priority: true }),
        channel@ == "fleet"@ ==> r == (CommunicationBehavior::Fleet { fleet_id: None }),
        (channel@ == "private"@ && target_player is Some) ==> r == (CommunicationBehavior::Direct { target: target_player->0 }),
        !(channel@ == "emergency"@ || channel@ == "fleet"@ || (channel@ == "private"@ && target_player is Some))
            ==> r == (CommunicationBehavior::Spatial { range: 300 }),
{
    proof {
        reveal_strlit("emergency");
        reveal_strlit("fleet");
        reveal_strlit("private");
        assert("emergency"@[0] == 'e' && "fleet"@[0] == 'f' && "private"@[0] == 'p');
    }
    if str_equals(channel, "emergency") {
        CommunicationBehavior::Emergency { range: 1000, priority: true }
    } else if str_equals(channel, "private") {
        match target_player {
            Some(target) => CommunicationBehavior::Direct { target },
            None => CommunicationBehavior::Spatial { range: 300 },
        }
    } else if str_equals(channel, "fleet") {
        CommunicationBehavior::Fleet { fleet_id: None }
    } else {
        CommunicationBehavior::Spatial { range: 300 }
    }
}

/// Why a chat request from `client_player` is refused: only authenticated
/// connections may send requests, a player may only send messages as itself,
/// and the content must be valid; `None` where accepted.
pub open spec fn communication_refusal(authenticated: bool, client_player: PlayerId, request: PlayerChatRequest) -> Option<Seq<char>> {
    if !authenticated {
        Some(unauthenticated_reason())
    } else if request.player_id != client_player {
        Some("Unauthorized communication"@)
    } else {
        message_content_error(request.message@, request.channel@)
    }
}

/// The checks a chat request passes before it is broadcast on channel 2.
pub fn check_communication_request(authenticated: bool, client_player: PlayerId, request: &PlayerChatRequest) -> (r: Result<(), HandlerError>)
    ensures
        outcome_matches(r, communication_refusal(authenticated, client_player, *request)),
        r is Ok <==> (authenticated && request.player_id == client_player && 1 <= request.message@.len() <= 500
            && (request.channel@ == "general"@ || request.channel@ == "emergency"@ || request.channel@ == "trade"@
                || request.channel@ == "fleet"@ || request.channel@ == "private"@)),
{
    if !authenticated {
        return Err(unauthenticated_error());
    }
    if request.player_id != client_player {
        return Err(HandlerError::HandlerExecution(String::from_str("Unauthorized communication")));
    }
    match validate_message_content(request.message.as_str(), request.channel.as_str()) {
        Ok(()) => Ok(()),
        Err(reason) => Err(HandlerError::HandlerExecution(reason)),
    }
}

/// A message is accepted exactly when it holds 1 to 500 characters and is
/// sent on one of the five channels (general, emergency, trade, fleet,
/// private); an empty message is refused before anything else is checked.
pub proof fn messages_accepted_are_bounded(message: Seq<char>, channel: Seq<char>)
    ensures
        message_content_error(message, channel) is None <==> (1 <= message.len() <= 500 && (channel == "general"@
            || channel == "emergency"@ || channel == "trade"@ || channel == "fleet"@ || channel == "private"@)),
        message.len() == 0 ==> message_content_error(message, channel) == Some("Message cannot be empty"@),
{
}

/// Emergency messages reach 1000 m with priority, fleet messages go to the
/// fleet, private messages with a recipient go to it directly, and every
/// other message (general, trade, a private one without recipient, any other
/// channel) is a spatial broadcast over 300 m. The sender plays no part.
pub proof fn delivery_by_channel(channel: Seq<char>, target_player: Option<PlayerId>)
    ensures
        channel == "emergency"@ ==> communication_behavior_of(channel, target_player) == (CommunicationBehavior::Emergency { range: 1000, priority: true }),
        channel == "fleet"@ ==> communication_behavior_of(channel, target_player) == (CommunicationBehavior::Fleet { fleet_id: None }),
        (channel == "private"@ && target_player is Some) ==> communication_behavior_of(channel, target_player) == (CommunicationBehavior::Direct { target: target_player->0 }),
        !(channel == "emergency"@ || channel == "fleet"@ || (channel == "private"@ && target_player is Some))
            ==> communication_behavior_of(channel, target_player) == (CommunicationBehavior::Spatial { range: 300 }),
        communication_behavior_of("trade"@, target_player) == (CommunicationBehavior::Spatial { range: 300 }),
        communication_behavior_of("general"@, target_player) == (CommunicationBehavior::Spatial { range: 300 }),
{
    reveal_strlit("trade");
    reveal_strlit("general");
    reveal_strlit("emergency");
    reveal_strlit("fleet");
    reveal_strlit("private");
    assert("trade"@[0] == 't' && "general"@[0] == 'g' && "emergency"@[0] == 'e' && "fleet"@[0] == 'f' && "private"@[0] == 'p');
}

} // verus!
