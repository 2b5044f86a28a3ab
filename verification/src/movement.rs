//! Movement on channel 0: the check a movement request passes before the
//! ship's position is updated and broadcast.

use vstd::prelude::*;
use crate::errors::{HandlerError, outcome_matches, unauthenticated_error, unauthenticated_reason};
use crate::ids::PlayerId;
use crate::text::{decimal, append_decimal};

verus! {

/// A movement request sent by a client (the parts the server decides on).
#[derive(Debug, Clone, Copy, PartialEq, Eq, Structural)]
pub struct PlayerMoveRequest {
    /// The player whose ship moves.
    pub player_id: PlayerId,
    /// Movement mode (0 idle, 1 walking, 2 running, 3 sprinting, 4 crouching, 5 airborne).
    pub movement_state: i32,
}

/// The refusal that the float-valued check of a move (distance, speed and
/// timestamp, made against the ship's current position) reported, if any.
pub open spec fn motion_refusal(motion: Result<(), String>) -> Option<Seq<char>> {
    match motion {
        Ok(_) => None,
        Err(reason) => Some(reason@),
    }
}

/// Why a movement request from `client_player` is refused, checked in this
/// order: the connection is not authenticated; the ship is another player's
/// (players may only move their own ships); the move itself failed its
/// bounds check (`motion`: too far, too fast or out of sync), with that
/// check's reason.
pub open spec fn movement_refusal(
    authenticated: bool,
    client_player: PlayerId,
    request: PlayerMoveRequest,
    motion: Result<(), String>,
) -> Option<Seq<char>> {
    if !authenticated {
        Some(unauthenticated_reason())
    } else if request.player_id != client_player {
        Some("Unauthorized ship movement"@)
    } else {
        motion_refusal(motion)
    }
}

/// The checks a movement request passes before the position is applied,
/// given whether the connection is authenticated and the outcome of the
/// bounds check of the move.
pub fn check_movement_request(
    authenticated: bool,
    client_player: PlayerId,
    request: &PlayerMoveRequest,
    motion: Result<(), String>,
) -> (r: Result<(), HandlerError>)
    ensures
        outcome_matches(r, movement_refusal(authenticated, client_player, *request, motion)),
        r is Ok <==> (authenticated && request.player_id == client_player && motion is Ok),
{
    if !authenticated {
        Err(unauthenticated_error())
    } else if request.player_id != client_player {
        Err(HandlerError::HandlerExecution(String::from_str("Unauthorized ship movement")))
    } else {
        match motion {
            Ok(()) => Ok(()),
            Err(reason) => Err(HandlerError::HandlerExecution(reason)),
        }
    }
}

/// The largest accepted difference between a client's timestamp and the
/// server's clock, in milliseconds.
pub const MAX_CLOCK_SKEW_MILLIS: i64 = 5000;

/// The magnitude of a signed duration.
pub open spec fn magnitude(duration: i64) -> nat {
    if duration < 0 { (-duration) as nat } else { duration as nat }
}

/// Why a movement request's timestamp is refused: it lies more than 5
/// seconds from the server's clock. The reason gives the difference in whole
/// seconds.
pub open spec fn clock_skew_error(difference_millis: i64) -> Option<Seq<char>> {
    if magnitude(difference_millis) > 5000 {
        Some("Timestamp out of sync: "@ + decimal(magnitude(difference_millis) / 1000) + " seconds difference"@)
    } else {
        None
    }
}

/// Checks the timestamp of a movement request, given the milliseconds
/// between the server's clock and the client's timestamp. (Movement distance
/// and speed are checked before, by the caller.)
pub fn check_clock_skew(difference_millis: i64) -> (r: Result<(), String>)
    requires
        difference_millis != i64::MIN,
    ensures
        match clock_skew_error(difference_millis) {
            None => r is Ok,
            Some(reason) => r matches Err(e) && e@ == reason,
        },
        r is Ok <==> -5000 <= difference_millis <= 5000,
{
    let size: i64 = if difference_millis < 0 { -difference_millis } else { difference_millis };
    if size > MAX_CLOCK_SKEW_MILLIS {
        let mut e = String::from_str("Timestamp out of sync: ");
        append_decimal(&mut e, (size / 1000) as u64);
        e.append(" seconds difference");
        assert(e@ =~= "Timestamp out of sync: "@ + decimal(magnitude(difference_millis) / 1000) + " seconds difference"@);
        Err(e)
    } else {
        Ok(())
    }
}

/// A move is accepted exactly when the connection is authenticated, the ship
/// is the client's own, and the move passed its bounds check; a failed bounds
/// check is reported with its own reason.
pub proof fn moves_accepted_are_authorized_and_bounded(
    authenticated: bool,
    client: PlayerId,
    request: PlayerMoveRequest,
    motion: Result<(), String>,
)
    ensures
        movement_refusal(authenticated, client, request, motion) is None <==> (authenticated && request.player_id == client && motion is Ok),
        (authenticated && request.player_id == client && motion is Err) ==> movement_refusal(authenticated, client, request, motion) == Some(motion->Err_0@),
{
}

/// A timestamp is accepted exactly when it lies within 5000 ms of the
/// server's clock, on either side; the skew is symmetric.
pub proof fn clock_skew_window(difference_millis: i64)
    requires
        difference_millis != i64::MIN,
    ensures
        clock_skew_error(difference_millis) is None <==> -5000 <= difference_millis <= 5000,
        clock_skew_error(difference_millis) == clock_skew_error((-difference_millis) as i64),
{
}

} // verus!
