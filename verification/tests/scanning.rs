use dyingstar_plugins::errors::HandlerError;
use dyingstar_plugins::ids::PlayerId;
use dyingstar_plugins::scanning::{
    check_scan_rate, check_scan_request, ship_class_loadout, validate_scan_manifest, ScanRateLimiter, ScanRequester,
};

fn reason(r: Result<(), HandlerError>) -> String {
    match r {
        Err(HandlerError::HandlerExecution(s)) => s,
        Ok(()) => String::from("<accepted>"),
    }
}

#[test]
fn scan_requester_checks() {
    let me = PlayerId(77);
    assert!(check_scan_request(true, me, ScanRequester::Player(me)).is_ok());
    assert_eq!(reason(check_scan_request(true, me, ScanRequester::Missing)), "Missing player_id in scan request");
    assert_eq!(reason(check_scan_request(true, me, ScanRequester::Malformed)), "Invalid player_id format");
    assert_eq!(reason(check_scan_request(true, me, ScanRequester::Player(PlayerId(78)))), "Unauthorized scan request");
}

fn names(n: usize, len: usize) -> Vec<String> {
    (0..n).map(|_| "x".repeat(len)).collect()
}

#[test]
fn manifest_limits() {
    assert_eq!(validate_scan_manifest(&names(50, 100), &names(20, 5)), Ok(()));
    assert_eq!(
        validate_scan_manifest(&names(51, 1), &names(0, 1)),
        Err("Cargo manifest too large: 51 items".to_string())
    );
    assert_eq!(
        validate_scan_manifest(&names(0, 1), &names(21, 1)),
        Err("Too many weapon systems: 21".to_string())
    );
}

#[test]
fn first_overlong_cargo_item_is_reported() {
    let cargo = vec!["Food".to_string(), "A".repeat(101), "B".repeat(150)];
    assert_eq!(
        validate_scan_manifest(&cargo, &names(30, 1)),
        Err(format!("Cargo item name too long: {}", "A".repeat(101)))
    );
}

#[test]
fn ship_class_loadouts() {
    let cruiser = ship_class_loadout("Cruiser");
    assert_eq!(cruiser.ship_class, "Cruiser");
    assert_eq!(cruiser.cargo_manifest, vec!["Ammunition", "Spare Parts"]);
    assert_eq!(cruiser.weapon_systems, vec!["Heavy Beam Lasers", "Torpedo Launcher", "Point Defense Systems"]);
    let interceptor = ship_class_loadout("Interceptor");
    assert!(interceptor.cargo_manifest.is_empty());
    assert_eq!(interceptor.weapon_systems, vec!["Light Pulse Lasers", "Missile Pod"]);
    let freighter = ship_class_loadout("Freighter");
    assert_eq!(freighter.cargo_manifest.len(), 4);
    assert_eq!(freighter.weapon_systems, vec!["Light Defense Turrets"]);
    let other = ship_class_loadout("Dreadnought");
    assert_eq!(other.ship_class, "Unknown");
    assert!(other.cargo_manifest.is_empty() && other.weapon_systems.is_empty());
}

#[test]
fn loadouts_pass_manifest_validation() {
    for class in ["Interceptor", "Cruiser", "Freighter", "Dreadnought"] {
        let l = ship_class_loadout(class);
        assert_eq!(validate_scan_manifest(&l.cargo_manifest, &l.weapon_systems), Ok(()));
    }
}

#[test]
fn one_scan_per_five_seconds() {
    let refused = Err("Scan rate limit exceeded: one scan per 5 seconds".to_string());
    assert_eq!(check_scan_rate(None, 0), Ok(()));
    assert_eq!(check_scan_rate(Some(10_000), 14_999), refused.clone());
    assert_eq!(check_scan_rate(Some(10_000), 15_000), Ok(()));
    assert_eq!(check_scan_rate(Some(10_000), 9_000), refused.clone());
    assert_eq!(check_scan_rate(Some(u64::MAX - 10), u64::MAX), refused.clone());

    let mut limiter = ScanRateLimiter::new();
    let (a, b) = (PlayerId(1), PlayerId(2));
    assert_eq!(limiter.admit_scan(a, 1_000), Ok(()));
    assert_eq!(limiter.admit_scan(b, 2_000), Ok(()));
    assert_eq!(limiter.admit_scan(a, 5_999), refused.clone());
    // a refused scan is not recorded: the window still starts at 1 000
    assert_eq!(limiter.admit_scan(a, 6_000), Ok(()));
    assert_eq!(limiter.admit_scan(a, 10_999), refused);
}
