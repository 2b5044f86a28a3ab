use dyingstar_plugins::errors::HandlerError;
use dyingstar_plugins::ids::PlayerId;
use dyingstar_plugins::movement::{check_clock_skew, check_movement_request, PlayerMoveRequest};

#[test]
fn players_move_only_their_own_ships() {
    let own = PlayerMoveRequest { player_id: PlayerId(9), movement_state: 2 };
    assert!(check_movement_request(true, PlayerId(9), &own, Ok(())).is_ok());
    let other = PlayerMoveRequest { player_id: PlayerId(10), movement_state: 2 };
    match check_movement_request(true, PlayerId(9), &other, Ok(())) {
        Err(HandlerError::HandlerExecution(s)) => assert_eq!(s, "Unauthorized ship movement"),
        Ok(()) => panic!("movement of another player's ship was accepted"),
    }
}

#[test]
fn clock_skew_window_is_five_seconds() {
    assert_eq!(check_clock_skew(0), Ok(()));
    assert_eq!(check_clock_skew(5000), Ok(()));
    assert_eq!(check_clock_skew(-5000), Ok(()));
    assert_eq!(check_clock_skew(5001), Err("Timestamp out of sync: 5 seconds difference".to_string()));
    assert_eq!(check_clock_skew(5900), Err("Timestamp out of sync: 5 seconds difference".to_string()));
    assert_eq!(check_clock_skew(6000), Err("Timestamp out of sync: 6 seconds difference".to_string()));
    assert_eq!(check_clock_skew(-120_000), Err("Timestamp out of sync: 120 seconds difference".to_string()));
}

#[test]
fn moves_failing_their_bounds_check_are_refused() {
    let own = PlayerMoveRequest { player_id: PlayerId(9), movement_state: 1 };
    let teleport: Result<(), String> = Err("Movement delta too large: 10000.00 units".to_string());
    match check_movement_request(true, PlayerId(9), &own, teleport) {
        Err(HandlerError::HandlerExecution(s)) => assert_eq!(s, "Movement delta too large: 10000.00 units"),
        Ok(()) => panic!("a teleport was accepted"),
    }
}

#[test]
fn unauthenticated_movement_is_refused_first() {
    let other = PlayerMoveRequest { player_id: PlayerId(10), movement_state: 1 };
    let r = check_movement_request(false, PlayerId(9), &other, Err("Velocity too high: 2000.00 units/sec".to_string()));
    match r {
        Err(HandlerError::HandlerExecution(s)) => assert_eq!(s, "Unauthenticated request"),
        Ok(()) => panic!("an unauthenticated move was accepted"),
    }
}
