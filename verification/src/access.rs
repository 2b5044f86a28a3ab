//! The access rules that every request handler of the player plugin follows:
//! only authenticated connections may send requests, and a client acts only
//! in its own name.

use vstd::prelude::*;
use crate::combat::{attack_refusal, block_change_error, block_change_refusal, PlayerAttackRequest, PlayerBlockChangeRequest};
use crate::communication::{communication_refusal, message_content_error, PlayerChatRequest};
use crate::errors::unauthenticated_reason;
use crate::ids::PlayerId;
use crate::movement::{motion_refusal, movement_refusal, PlayerMoveRequest};
use crate::scanning::{scan_refusal, ScanRequester};

verus! {

/// Only authenticated connections can send requests: a movement, weapon
/// fire, block change, chat or scan request from a connection that is not
/// authenticated is refused with "Unauthenticated request", whatever it holds.
pub proof fn unauthenticated_requests_are_refused(
    client: PlayerId,
    movement: PlayerMoveRequest,
    motion: Result<(), String>,
    attack: PlayerAttackRequest,
    block: PlayerBlockChangeRequest,
    chat: PlayerChatRequest,
    scanner: ScanRequester,
)
    ensures
        movement_refusal(false, client, movement, motion) == Some(unauthenticated_reason()),
        attack_refusal(false, client, attack) == Some(unauthenticated_reason()),
        block_change_refusal(false, client, block) == Some(unauthenticated_reason()),
        communication_refusal(false, client, chat) == Some(unauthenticated_reason()),
        scan_refusal(false, client, scanner) == Some(unauthenticated_reason()),
{
}

/// Players can only control their own entities: on an authenticated
/// connection, a movement, weapon fire, block change, chat or scan request
/// made in another player's name is refused as unauthorized, whatever else it
/// holds.
pub proof fn requests_in_another_name_are_refused(
    client: PlayerId,
    movement: PlayerMoveRequest,
    motion: Result<(), String>,
    attack: PlayerAttackRequest,
    block: PlayerBlockChangeRequest,
    chat: PlayerChatRequest,
    scanner: PlayerId,
)
    ensures
        movement.player_id != client ==> movement_refusal(true, client, movement, motion) == Some("Unauthorized ship movement"@),
        attack.player_id != client ==> attack_refusal(true, client, attack) == Some("Unauthorized weapon fire"@),
        block.player_id != client ==> block_change_refusal(true, client, block) == Some("Unauthorized block change"@),
        chat.player_id != client ==> communication_refusal(true, client, chat) == Some("Unauthorized communication"@),
        scanner != client ==> scan_refusal(true, client, ScanRequester::Player(scanner)) == Some("Unauthorized scan request"@),
{
}

/// An authenticated request in the client's own name is judged on its
/// content alone: a move is refused exactly when its bounds check fails, with
/// that check's reason; weapon fire and scans are accepted; block changes and
/// chat messages are refused exactly when their content is invalid.
pub proof fn requests_in_own_name_are_judged_on_content(
    client: PlayerId,
    movement: PlayerMoveRequest,
    motion: Result<(), String>,
    attack: PlayerAttackRequest,
    block: PlayerBlockChangeRequest,
    chat: PlayerChatRequest,
)
    ensures
        movement.player_id == client ==> movement_refusal(true, client, movement, motion) == motion_refusal(motion),
        attack.player_id == client ==> attack_refusal(true, client, attack) is None,
        block.player_id == client ==> block_change_refusal(true, client, block) == block_change_error(block),
        chat.player_id == client ==> communication_refusal(true, client, chat) == message_content_error(chat.message@, chat.channel@),
        scan_refusal(true, client, ScanRequester::Player(client)) is None,
{
}

/// A move that fails its bounds check (a teleport, a speed beyond the limit,
/// a timestamp out of sync) is never accepted, whoever sends it.
pub proof fn moves_failing_their_bounds_are_refused(
    authenticated: bool,
    client: PlayerId,
    movement: PlayerMoveRequest,
    motion: Result<(), String>,
)
    requires
        motion is Err,
    ensures
        movement_refusal(authenticated, client, movement, motion) is Some,
{
}

} // verus!
