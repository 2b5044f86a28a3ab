//! Combat and world events on channel 1: weapon fire and block changes, the
//! validation of each request and the checks made before it is broadcast.

use vstd::prelude::*;
use crate::errors::{HandlerError, outcome_matches, unauthenticated_error, unauthenticated_reason};
use crate::ids::PlayerId;
use crate::text::{signed_decimal, append_signed_decimal, str_equals};

verus! {

/// A weapon-fire request sent by a client (the parts the server decides on).
#[derive(Debug, Clone)]
pub struct PlayerAttackRequest {
    /// The player firing.
    pub player_id: PlayerId,
    /// The weapon fired ("laser", "missile", "plasma", "kinetic", "melee").
    pub attack_type: String,
}

/// A block break or placement request sent by a client.
#[derive(Debug, Clone, Copy, PartialEq, Eq, Structural)]
pub struct PlayerBlockChangeRequest {
    /// The player changing the block.
    pub player_id: PlayerId,
    /// Block column.
    pub x: i32,
    /// Block row.
    pub y: i32,
    /// Tile type before the change.
    pub old_tile: u8,
    /// Tile type after the change.
    pub new_tile: u8,
}

/// The weapon systems the server supports.
pub open spec fn is_supported_weapon(attack_type: Seq<char>) -> bool {
    ||| attack_type == "laser"@
    ||| attack_type == "missile"@
    ||| attack_type == "plasma"@
    ||| attack_type == "kinetic"@
    ||| attack_type == "melee"@
}

/// Why a weapon-fire request is invalid; `None` where it is valid.
pub open spec fn combat_request_error(attack_type: Seq<char>) -> Option<Seq<char>> {
    if is_supported_weapon(attack_type) {
        None
    } else {
        Some("Invalid weapon type: "@ + attack_type)
    }
}

/// Validates a weapon-fire request: the weapon must be a supported one.
pub fn validate_combat_request(attack_data: &PlayerAttackRequest) -> (r: Result<(), String>)
    ensures
        match combat_request_error(attack_data.attack_type@) {
            None => r is Ok,
            Some(reason) => r matches Err(e) && e@ == reason,
        },
        r is Ok <==> (attack_data.attack_type@ == "laser"@ || attack_data.attack_type@ == "missile"@
            || attack_data.attack_type@ == "plasma"@ || attack_data.attack_type@ == "kinetic"@
            || attack_data.attack_type@ == "melee"@),
{
    let t = attack_data.attack_type.as_str();
    if str_equals(t, "laser") || str_equals(t, "missile") || str_equals(t, "plasma") || str_equals(t, "kinetic")
        || str_equals(t, "melee") {
        Ok(())
    } else {
        let mut e = String::from_str("Invalid weapon type: ");
        e.append(t);
        assert(e@ =~= "Invalid weapon type: "@ + attack_data.attack_type@);
        Err(e)
    }
}

/// The damage a weapon deals at point-blank range: laser 50, missile 75,
/// plasma 60, kinetic 40, melee and any other weapon 25.
pub open spec fn base_damage_of(weapon_type: Seq<char>) -> u32 {
    if weapon_type == "laser"@ {
        50
    } else if weapon_type == "missile"@ {
        75
    } else if weapon_type == "plasma"@ {
        60
    } else if weapon_type == "kinetic"@ {
        40
    } else if weapon_type == "melee"@ {
        25
    } else {
        25
    }
}

/// The damage a weapon deals before distance falloff.
pub fn weapon_base_damage(weapon_type: &str) -> (r: u32)
    ensures
        r == base_damage_of(weapon_type@),
        25 <= r <= 75,
        weapon_type@ == "missile"@ <==> r == 75,
{
    proof {
        reveal_strlit("laser");
        reveal_strlit("missile");
        reveal_strlit("plasma");
        reveal_strlit("kinetic");
        reveal_strlit("melee");
        assert("kinetic"@[0] != "missile"@[0]);
    }
    if str_equals(weapon_type, "laser") {
        50
    } else if str_equals(weapon_type, "missile") {
        75
    } else if str_equals(weapon_type, "plasma") {
        60
    } else if str_equals(weapon_type, "kinetic") {
        40
    } else if str_equals(weapon_type, "melee") {
        25
    } else {
        25
    }
}

/// Why a weapon-fire request from `client_player` is refused: only
/// authenticated connections may send requests, and only the owner of a ship
/// may fire its weapons.
pub open spec fn attack_refusal(authenticated: bool, client_player: PlayerId, request: PlayerAttackRequest) -> Option<Seq<char>> {
    if !authenticated {
        Some(unauthenticated_reason())
    } else if request.player_id != client_player {
        Some("Unauthorized weapon fire"@)
    } else {
        None
    }
}

/// The check a weapon-fire request passes before it is broadcast on channel 1.
pub fn check_attack_request(authenticated: bool, client_player: PlayerId, request: &PlayerAttackRequest) -> (r: Result<(), HandlerError>)
    ensures
        outcome_matches(r, attack_refusal(authenticated, client_player, *request)),
        r is Ok <==> (authenticated && request.player_id == client_player),
{
    if !authenticated {
        Err(unauthenticated_error())
    } else if request.player_id != client_player {
        Err(HandlerError::HandlerExecution(String::from_str("Unauthorized weapon fire")))
    } else {
        Ok(())
    }
}

/// The coordinate bound of the world, on each axis.
pub const WORLD_COORDINATE_LIMIT: i32 = 10000;

/// The largest tile type.
pub const MAX_TILE_TYPE: u8 = 7;

/// Why a block change is invalid, checked in this order: x outside
/// [-10000, 10000], y outside it, old tile above 7, new tile above 7.
pub open spec fn block_change_error(b: PlayerBlockChangeRequest) -> Option<Seq<char>> {
    if b.x < -10000 || b.x > 10000 {
        Some("Invalid X coordinate: "@ + signed_decimal(b.x as int))
    } else if b.y < -10000 || b.y > 10000 {
        Some("Invalid Y coordinate: "@ + signed_decimal(b.y as int))
    } else if b.old_tile > 7 {
        Some("Invalid old tile type: "@ + signed_decimal(b.old_tile as int))
    } else if b.new_tile > 7 {
        Some("Invalid new tile type: "@ + signed_decimal(b.new_tile as int))
    } else {
        None
    }
}

fn error_with_number(prefix: &str, n: i64) -> (r: String)
    ensures
        r@ == prefix@ + signed_decimal(n as int),
{
    let mut e = String::from_str(prefix);
    append_signed_decimal(&mut e, n);
    e
}

/// Validates a block change: coordinates within the world bounds and both
/// tile types among the supported ones (0 to 7).
pub fn validate_block_change_request(block_data: &PlayerBlockChangeRequest) -> (r: Result<(), String>)
    ensures
        match block_change_error(*block_data) {
            None => r is Ok,
            Some(reason) => r matches Err(e) && e@ == reason,
        },
        r is Ok <==> (-10000 <= block_data.x <= 10000 && -10000 <= block_data.y <= 10000
            && block_data.old_tile <= 7 && block_data.new_tile <= 7),
{
    if block_data.x < -WORLD_COORDINATE_LIMIT || block_data.x > WORLD_COORDINATE_LIMIT {
        return Err(error_with_number("Invalid X coordinate: ", block_data.x as i64));
    }
    if block_data.y < -WORLD_COORDINATE_LIMIT || block_data.y > WORLD_COORDINATE_LIMIT {
        return Err(error_with_number("Invalid Y coordinate: ", block_data.y as i64));
    }
    if block_data.old_tile > MAX_TILE_TYPE {
        return Err(error_with_number("Invalid old tile type: ", block_data.old_tile as i64));
    }
    if block_data.new_tile > MAX_TILE_TYPE {
        return Err(error_with_number("Invalid new tile type: ", block_data.new_tile as i64));
    }
    Ok(())
}

/// Why a block change from `client_player` is refused: only authenticated
/// connections may send requests, only the player itself may change blocks in
/// its name, and the change must be valid.
pub open spec fn block_change_refusal(authenticated: bool, client_player: PlayerId, request: PlayerBlockChangeRequest) -> Option<Seq<char>> {
    if !authenticated {
        Some(unauthenticated_reason())
    } else if request.player_id != client_player {
        Some("Unauthorized block change"@)
    } else {
        block_change_error(request)
    }
}

/// The checks a block change passes before it is broadcast on channel 1.
pub fn check_block_change_request(authenticated: bool, client_player: PlayerId, request: &PlayerBlockChangeRequest) -> (r: Result<(), HandlerError>)
    ensures
        outcome_matches(r, block_change_refusal(authenticated, client_player, *request)),
        r is Ok <==> (authenticated && request.player_id == client_player
            && -10000 <= request.x <= 10000 && -10000 <= request.y <= 10000
            && request.old_tile <= 7 && request.new_tile <= 7),
{
    if !authenticated {
        return Err(unauthenticated_error());
    }
    if request.player_id != client_player {
        return Err(HandlerError::HandlerExecution(String::from_str("Unauthorized block change")));
    }
    match validate_block_change_request(request) {
        Ok(()) => Ok(()),
        Err(reason) => Err(HandlerError::HandlerExecution(reason)),
    }
}

/// A block change is valid exactly when both coordinates lie within
/// [-10000, 10000] and both tiles are at most 7; where a coordinate lies
/// outside, the refusal names that coordinate (x first) and its value.
pub proof fn block_changes_stay_in_the_world(b: PlayerBlockChangeRequest)
    ensures
        block_change_error(b) is None <==> (-10000 <= b.x <= 10000 && -10000 <= b.y <= 10000 && b.old_tile <= 7 && b.new_tile <= 7),
        (b.x < -10000 || b.x > 10000) ==> block_change_error(b) == Some("Invalid X coordinate: "@ + signed_decimal(b.x as int)),
        (-10000 <= b.x <= 10000 && (b.y < -10000 || b.y > 10000)) ==> block_change_error(b) == Some("Invalid Y coordinate: "@ + signed_decimal(b.y as int)),
{
}

/// A weapon-fire request is valid exactly when its weapon is a laser, a
/// missile, a plasma weapon, a kinetic weapon or a melee attack; any other is
/// refused, with the weapon named.
pub proof fn weapons_are_the_documented_ones(attack_type: Seq<char>)
    ensures
        combat_request_error(attack_type) is None <==> (attack_type == "laser"@ || attack_type == "missile"@
            || attack_type == "plasma"@ || attack_type == "kinetic"@ || attack_type == "melee"@),
        combat_request_error(attack_type) is Some ==> combat_request_error(attack_type) == Some("Invalid weapon type: "@ + attack_type),
{
}

/// Base damage lies between 25 and 75: missiles hit hardest (75), then
/// plasma (60), lasers (50) and kinetic weapons (40); melee and unknown
/// weapons deal 25.
pub proof fn base_damage_ranks_weapons(w: Seq<char>)
    ensures
        25 <= base_damage_of(w) <= 75,
        base_damage_of("missile"@) > base_damage_of("plasma"@) > base_damage_of("laser"@) > base_damage_of("kinetic"@) > base_damage_of("melee"@),
        !(w == "laser"@ || w == "missile"@ || w == "plasma"@ || w == "kinetic"@) ==> base_damage_of(w) == 25,
{
    reveal_strlit("laser");
    reveal_strlit("missile");
    reveal_strlit("plasma");
    reveal_strlit("kinetic");
    reveal_strlit("melee");
    assert("laser"@[0] == 'l' && "missile"@[0] == 'm' && "plasma"@[0] == 'p' && "kinetic"@[0] == 'k');
    assert("melee"@[0] == 'm' && "melee"@[1] == 'e' && "missile"@[1] == 'i');
}

} // verus!
