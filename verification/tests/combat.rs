use dyingstar_plugins::combat::{
    check_attack_request, check_block_change_request, validate_block_change_request,
    validate_combat_request, weapon_base_damage, PlayerAttackRequest, PlayerBlockChangeRequest,
};
use dyingstar_plugins::errors::HandlerError;
use dyingstar_plugins::ids::PlayerId;

fn reason(e: HandlerError) -> String {
    match e {
        HandlerError::HandlerExecution(s) => s,
    }
}

fn attack(player: u128, weapon: &str) -> PlayerAttackRequest {
    PlayerAttackRequest { player_id: PlayerId(player), attack_type: weapon.to_string() }
}

fn block(player: u128, x: i32, y: i32, old_tile: u8, new_tile: u8) -> PlayerBlockChangeRequest {
    PlayerBlockChangeRequest { player_id: PlayerId(player), x, y, old_tile, new_tile }
}

#[test]
fn supported_weapons_are_valid() {
    for weapon in ["laser", "missile", "plasma", "kinetic", "melee"] {
        assert_eq!(validate_combat_request(&attack(1, weapon)), Ok(()));
    }
}

#[test]
fn unknown_weapon_is_invalid() {
    assert_eq!(
        validate_combat_request(&attack(1, "railgun")),
        Err("Invalid weapon type: railgun".to_string())
    );
    assert_eq!(validate_combat_request(&attack(1, "")), Err("Invalid weapon type: ".to_string()));
}

#[test]
fn weapon_fire_needs_ownership_only() {
    assert!(check_attack_request(true, PlayerId(5), &attack(5, "railgun")).is_ok());
    let r = check_attack_request(true, PlayerId(5), &attack(6, "laser"));
    assert_eq!(reason(r.unwrap_err()), "Unauthorized weapon fire");
}

#[test]
fn block_change_bounds_are_inclusive() {
    assert_eq!(validate_block_change_request(&block(1, 10000, -10000, 0, 7)), Ok(()));
    assert_eq!(validate_block_change_request(&block(1, -10000, 10000, 7, 0)), Ok(()));
}

#[test]
fn block_change_errors_in_order() {
    assert_eq!(
        validate_block_change_request(&block(1, 10001, 0, 0, 0)),
        Err("Invalid X coordinate: 10001".to_string())
    );
    assert_eq!(
        validate_block_change_request(&block(1, -10001, 20000, 9, 9)),
        Err("Invalid X coordinate: -10001".to_string())
    );
    assert_eq!(
        validate_block_change_request(&block(1, 0, i32::MIN, 0, 0)),
        Err("Invalid Y coordinate: -2147483648".to_string())
    );
    assert_eq!(
        validate_block_change_request(&block(1, 0, 0, 8, 200)),
        Err("Invalid old tile type: 8".to_string())
    );
    assert_eq!(
        validate_block_change_request(&block(1, 0, 0, 3, 255)),
        Err("Invalid new tile type: 255".to_string())
    );
}

#[test]
fn block_change_checks_ownership_then_validity() {
    let r = check_block_change_request(true, PlayerId(3), &block(4, 99999, 0, 0, 0));
    assert_eq!(reason(r.unwrap_err()), "Unauthorized block change");
    let r = check_block_change_request(true, PlayerId(3), &block(3, 0, 0, 0, 12));
    assert_eq!(reason(r.unwrap_err()), "Invalid new tile type: 12");
    assert!(check_block_change_request(true, PlayerId(3), &block(3, 12, -4, 1, 2)).is_ok());
}

#[test]
fn base_damage_by_weapon() {
    assert_eq!(weapon_base_damage("laser"), 50);
    assert_eq!(weapon_base_damage("missile"), 75);
    assert_eq!(weapon_base_damage("plasma"), 60);
    assert_eq!(weapon_base_damage("kinetic"), 40);
    assert_eq!(weapon_base_damage("melee"), 25);
    assert_eq!(weapon_base_damage("railgun"), 25);
}
