use dyingstar_plugins::combat::{check_attack_request, check_block_change_request, PlayerAttackRequest, PlayerBlockChangeRequest};
use dyingstar_plugins::communication::{check_communication_request, PlayerChatRequest};
use dyingstar_plugins::errors::HandlerError;
use dyingstar_plugins::ids::PlayerId;
use dyingstar_plugins::movement::{check_movement_request, PlayerMoveRequest};
use dyingstar_plugins::scanning::{check_scan_request, ScanRequester};

fn reason(r: Result<(), HandlerError>) -> String {
    match r {
        Err(HandlerError::HandlerExecution(s)) => s,
        Ok(()) => String::from("<accepted>"),
    }
}

#[test]
fn every_request_in_another_name_is_refused() {
    let client = PlayerId(1);
    let other = PlayerId(2);
    let mv = PlayerMoveRequest { player_id: other, movement_state: 0 };
    let atk = PlayerAttackRequest { player_id: other, attack_type: "laser".to_string() };
    let blk = PlayerBlockChangeRequest { player_id: other, x: 0, y: 0, old_tile: 0, new_tile: 1 };
    let chat = PlayerChatRequest {
        player_id: other,
        message: "hello".to_string(),
        channel: "general".to_string(),
        target_player: None,
    };
    assert_eq!(reason(check_movement_request(true, client, &mv, Ok(()))), "Unauthorized ship movement");
    assert_eq!(reason(check_attack_request(true, client, &atk)), "Unauthorized weapon fire");
    assert_eq!(reason(check_block_change_request(true, client, &blk)), "Unauthorized block change");
    assert_eq!(reason(check_communication_request(true, client, &chat)), "Unauthorized communication");
    assert_eq!(reason(check_scan_request(true, client, ScanRequester::Player(other))), "Unauthorized scan request");
}

#[test]
fn requests_in_own_name_are_judged_on_content() {
    let client = PlayerId(1);
    let mv = PlayerMoveRequest { player_id: client, movement_state: 3 };
    let atk = PlayerAttackRequest { player_id: client, attack_type: "anything".to_string() };
    let bad_block = PlayerBlockChangeRequest { player_id: client, x: 0, y: 0, old_tile: 8, new_tile: 1 };
    let bad_chat = PlayerChatRequest {
        player_id: client,
        message: String::new(),
        channel: "general".to_string(),
        target_player: None,
    };
    assert!(check_movement_request(true, client, &mv, Ok(())).is_ok());
    assert!(check_attack_request(true, client, &atk).is_ok());
    assert_eq!(reason(check_block_change_request(true, client, &bad_block)), "Invalid old tile type: 8");
    assert_eq!(reason(check_communication_request(true, client, &bad_chat)), "Message cannot be empty");
    assert!(check_scan_request(true, client, ScanRequester::Player(client)).is_ok());
}

#[test]
fn unauthenticated_requests_are_refused() {
    let client = PlayerId(1);
    let mv = PlayerMoveRequest { player_id: client, movement_state: 0 };
    let atk = PlayerAttackRequest { player_id: client, attack_type: "laser".to_string() };
    let blk = PlayerBlockChangeRequest { player_id: client, x: 0, y: 0, old_tile: 0, new_tile: 1 };
    let chat = PlayerChatRequest {
        player_id: client,
        message: "hello".to_string(),
        channel: "general".to_string(),
        target_player: None,
    };
    assert_eq!(reason(check_movement_request(false, client, &mv, Ok(()))), "Unauthenticated request");
    assert_eq!(reason(check_attack_request(false, client, &atk)), "Unauthenticated request");
    assert_eq!(reason(check_block_change_request(false, client, &blk)), "Unauthenticated request");
    assert_eq!(reason(check_communication_request(false, client, &chat)), "Unauthenticated request");
    assert_eq!(reason(check_scan_request(false, client, ScanRequester::Player(client))), "Unauthenticated request");
    assert_eq!(reason(check_scan_request(false, client, ScanRequester::Missing)), "Unauthenticated request");
}
