//! Ship scanning on channel 3: the checks a scan request passes before its
//! results are broadcast.

use vstd::prelude::*;
use std::collections::HashMap;
use crate::errors::{HandlerError, outcome_matches, unauthenticated_error, unauthenticated_reason};
use crate::ids::PlayerId;
use crate::text::{decimal, append_decimal, str_equals};

verus! {

broadcast use vstd::std_specs::hash::group_hash_axioms;

/// What a scan request says about the player who sends it.
#[derive(Debug, Clone, Copy, PartialEq, Eq, Structural)]
pub enum ScanRequester {
    /// The request has no `player_id` field.
    Missing,
    /// The `player_id` field is no player id.
    Malformed,
    /// The request names this player.
    Player(PlayerId),
}

/// Why a scan request from `client_player` is refused: only authenticated
/// connections may send requests, and the requester must be named, must be a
/// player id, and must be the client itself.
pub open spec fn scan_refusal(authenticated: bool, client_player: PlayerId, requester: ScanRequester) -> Option<Seq<char>> {
    if !authenticated {
        Some(unauthenticated_reason())
    } else {
        match requester {
            ScanRequester::Missing => Some("Missing player_id in scan request"@),
            ScanRequester::Malformed => Some("Invalid player_id format"@),
            ScanRequester::Player(p) => if p != client_player {
                Some("Unauthorized scan request"@)
            } else {
                None
            },
        }
    }
}

/// The checks a scan request passes before its results are broadcast.
pub fn check_scan_request(authenticated: bool, client_player: PlayerId, requester: ScanRequester) -> (r: Result<(), HandlerError>)
    ensures
        outcome_matches(r, scan_refusal(authenticated, client_player, requester)),
        r is Ok <==> (authenticated && requester == ScanRequester::Player(client_player)),
{
    if !authenticated {
        return Err(unauthenticated_error());
    }
    match requester {
        ScanRequester::Missing => Err(HandlerError::HandlerExecution(String::from_str("Missing player_id in scan request"))),
        ScanRequester::Malformed => Err(HandlerError::HandlerExecution(String::from_str("Invalid player_id format"))),
        ScanRequester::Player(p) => if p != client_player {
            Err(HandlerError::HandlerExecution(String::from_str("Unauthorized scan request")))
        } else {
            Ok(())
        },
    }
}

/// The shortest time between two accepted scans of one player, in milliseconds.
pub const SCAN_INTERVAL_MILLIS: u64 = 5000;

/// Why a scan at `now` (milliseconds) is refused, given when the player's
/// last accepted scan took place: at most one scan per 5 seconds per player.
pub open spec fn scan_rate_error(last_scan: Option<u64>, now: u64) -> Option<Seq<char>> {
    match last_scan {
        Some(t) => if now < t + 5000 {
            Some("Scan rate limit exceeded: one scan per 5 seconds"@)
        } else {
            None
        },
        None => None,
    }
}

/// Checks the rate of a player's scans: refused where the last accepted scan
/// was less than 5 seconds before `now_millis`.
pub fn check_scan_rate(last_scan_millis: Option<u64>, now_millis: u64) -> (r: Result<(), String>)
    ensures
        match scan_rate_error(last_scan_millis, now_millis) {
            None => r is Ok,
            Some(reason) => r matches Err(e) && e@ == reason,
        },
        r is Ok <==> (last_scan_millis matches Some(t) ==> now_millis >= t + 5000),
{
    match last_scan_millis {
        Some(t) => {
            if t > u64::MAX - SCAN_INTERVAL_MILLIS || now_millis < t + SCAN_INTERVAL_MILLIS {
                Err(String::from_str("Scan rate limit exceeded: one scan per 5 seconds"))
            } else {
                Ok(())
            }
        }
        None => Ok(()),
    }
}

/// The time of a player's last accepted scan in a record of scans.
pub open spec fn last_scan_of(scans: Map<u128, u64>, player: PlayerId) -> Option<u64> {
    if scans.contains_key(player.0) { Some(scans[player.0]) } else { None }
}

/// The time of each player's last accepted scan.
pub struct ScanRateLimiter {
    last_scans: HashMap<u128, u64>,
}

impl ScanRateLimiter {
    /// The time of each player's last accepted scan, in milliseconds.
    pub closed spec fn view(&self) -> Map<u128, u64> {
        self.last_scans@
    }

    /// A limiter that has accepted no scan.
    pub fn new() -> (r: ScanRateLimiter)
        ensures
            r.view() == Map::<u128, u64>::empty(),
    {
        ScanRateLimiter { last_scans: HashMap::new() }
    }

    /// Admits a scan by `scanner` at `now_millis` where the rate limit allows
    /// it, and records it; a refused scan is not recorded.
    pub fn admit_scan(&mut self, scanner: PlayerId, now_millis: u64) -> (r: Result<(), String>)
        ensures
            match scan_rate_error(last_scan_of(old(self).view(), scanner), now_millis) {
                None => r is Ok && final(self).view() == old(self).view().insert(scanner.0, now_millis),
                Some(reason) => r matches Err(e) && e@ == reason && final(self).view() == old(self).view(),
            },
    {
        let last = match self.last_scans.get(&scanner.0) {
            Some(t) => Some(*t),
            None => None,
        };
        let r = check_scan_rate(last, now_millis);
        if r.is_ok() {
            self.last_scans.insert(scanner.0, now_millis);
        }
        r
    }
}

/// Two scans by one player are both accepted only where they lie at least
/// 5 seconds apart.
pub proof fn accepted_scans_are_five_seconds_apart(scans: Map<u128, u64>, scanner: PlayerId, first: u64, second: u64)
    requires
        scan_rate_error(last_scan_of(scans, scanner), first) is None,
        scan_rate_error(last_scan_of(scans.insert(scanner.0, first), scanner), second) is None,
    ensures
        second >= first + 5000,
{
}

/// The most cargo items a scan may list.
pub const MAX_CARGO_ITEMS: usize = 50;

/// The longest cargo item name, in bytes of its UTF-8 encoding.
pub const MAX_CARGO_ITEM_BYTES: usize = 100;

/// The most weapon systems a scan may list.
pub const MAX_WEAPON_SYSTEMS: usize = 20;

/// The first cargo item whose name is longer than 100 bytes, if any.
pub open spec fn first_long_item(cargo: Seq<String>) -> Option<int> {
    if exists|i: int| 0 <= i < cargo.len() && vstd::utf8::encode_utf8(#[trigger] cargo[i]@).len() > 100 {
        Some(choose|i: int| 0 <= i < cargo.len() && vstd::utf8::encode_utf8(#[trigger] cargo[i]@).len() > 100
            && forall|j: int| 0 <= j < i ==> vstd::utf8::encode_utf8(#[trigger] cargo[j]@).len() <= 100)
    } else {
        None
    }
}

/// Why the lists of a scan are refused, checked in this order: more than 50
/// cargo items, a cargo item name longer than 100 bytes (the first one),
/// more than 20 weapon systems; `None` where they are accepted.
pub open spec fn scan_manifest_error(cargo: Seq<String>, weapons: Seq<String>) -> Option<Seq<char>> {
    if cargo.len() > 50 {
        Some("Cargo manifest too large: "@ + decimal(cargo.len()) + " items"@)
    } else if first_long_item(cargo) is Some {
        Some("Cargo item name too long: "@ + cargo[first_long_item(cargo)->0]@)
    } else if weapons.len() > 20 {
        Some("Too many weapon systems: "@ + decimal(weapons.len()))
    } else {
        None
    }
}

/// Validates the lists a scan shares: the cargo manifest holds at most 50
/// items, each named in at most 100 bytes, and at most 20 weapon systems are
/// listed. (Hull and shield values are checked before, by the caller.)
pub fn validate_scan_manifest(cargo_manifest: &Vec<String>, weapon_systems: &Vec<String>) -> (r: Result<(), String>)
    ensures
        match scan_manifest_error(cargo_manifest@, weapon_systems@) {
            None => r is Ok,
            Some(reason) => r matches Err(e) && e@ == reason,
        },
        r is Ok <==> (cargo_manifest@.len() <= 50 && weapon_systems@.len() <= 20
            && forall|i: int| 0 <= i < cargo_manifest@.len() ==> vstd::utf8::encode_utf8(#[trigger] cargo_manifest@[i]@).len() <= 100),
{
    if cargo_manifest.len() > MAX_CARGO_ITEMS {
        let mut e = String::from_str("Cargo manifest too large: ");
        append_decimal(&mut e, cargo_manifest.len() as u64);
        e.append(" items");
        assert(e@ =~= "Cargo manifest too large: "@ + decimal(cargo_manifest@.len()) + " items"@);
        return Err(e);
    }
    let mut i: usize = 0;
    while i < cargo_manifest.len()
        invariant
            i <= cargo_manifest@.len(),
            cargo_manifest@.len() <= 50,
            forall|j: int| 0 <= j < i ==> vstd::utf8::encode_utf8(#[trigger] cargo_manifest@[j]@).len() <= 100,
        decreases cargo_manifest@.len() - i,
    {
        let item = cargo_manifest[i].as_str();
        if item.as_bytes().len() > MAX_CARGO_ITEM_BYTES {
            let mut e = String::from_str("Cargo item name too long: ");
            e.append(item);
            proof {
                let w = first_long_item(cargo_manifest@);
                assert(vstd::utf8::encode_utf8(cargo_manifest@[i as int]@).len() > 100);
                assert(0 <= i < cargo_manifest@.len() && vstd::utf8::encode_utf8(cargo_manifest@[i as int]@).len() > 100
                    && forall|j: int| 0 <= j < i ==> vstd::utf8::encode_utf8(#[trigger] cargo_manifest@[j]@).len() <= 100);
                assert(w is Some);
                let k = w->0;
                assert(k == i as int) by {
                    if k < i as int {
                        assert(vstd::utf8::encode_utf8(cargo_manifest@[k]@).len() <= 100);
                    } else if k > i as int {
                        assert(vstd::utf8::encode_utf8(cargo_manifest@[i as int]@).len() <= 100);
                    }
                }
            }
            assert(e@ =~= "Cargo item name too long: "@ + cargo_manifest@[i as int]@);
            return Err(e);
        }
        i = i + 1;
    }
    assert(first_long_item(cargo_manifest@) is None);
    if weapon_systems.len() > MAX_WEAPON_SYSTEMS {
        let mut e = String::from_str("Too many weapon systems: ");
        append_decimal(&mut e, weapon_systems.len() as u64);
        assert(e@ =~= "Too many weapon systems: "@ + decimal(weapon_systems@.len()));
        return Err(e);
    }
    Ok(())
}

/// The class name a scan reports for a ship class: the class itself where it
/// is known (interceptor, cruiser, freighter), "Unknown" otherwise.
pub open spec fn loadout_class_name(ship_class: Seq<char>) -> Seq<char> {
    if ship_class == "Interceptor"@ || ship_class == "Cruiser"@ || ship_class == "Freighter"@ {
        ship_class
    } else {
        "Unknown"@
    }
}

/// The cargo a ship class typically carries.
pub open spec fn loadout_cargo(ship_class: Seq<char>) -> Seq<Seq<char>> {
    if ship_class == "Cruiser"@ {
        seq!["Ammunition"@, "Spare Parts"@]
    } else if ship_class == "Freighter"@ {
        seq!["Consumer Goods"@, "Raw Materials"@, "Food Supplies"@, "Medical Equipment"@]
    } else {
        Seq::empty()
    }
}

/// The weapon systems a ship class typically mounts.
pub open spec fn loadout_weapons(ship_class: Seq<char>) -> Seq<Seq<char>> {
    if ship_class == "Interceptor"@ {
        seq!["Light Pulse Lasers"@, "Missile Pod"@]
    } else if ship_class == "Cruiser"@ {
        seq!["Heavy Beam Lasers"@, "Torpedo Launcher"@, "Point Defense Systems"@]
    } else if ship_class == "Freighter"@ {
        seq!["Light Defense Turrets"@]
    } else {
        Seq::empty()
    }
}

/// The texts held by a list of strings.
pub open spec fn texts(items: Seq<String>) -> Seq<Seq<char>> {
    items.map_values(|s: String| s@)
}

/// The class name, cargo and weapons a scan of a typical ship reports.
#[derive(Debug, Clone)]
pub struct ShipLoadout {
    /// The class name reported.
    pub ship_class: String,
    /// The cargo carried.
    pub cargo_manifest: Vec<String>,
    /// The weapon systems mounted.
    pub weapon_systems: Vec<String>,
}

fn strings_of(items: &[&str]) -> (r: Vec<String>)
    ensures
        texts(r@) == items@.map_values(|s: &str| s@),
{
    let mut out: Vec<String> = Vec::new();
    let mut i: usize = 0;
    while i < items.len()
        invariant
            i <= items@.len(),
            texts(out@) == items@.subrange(0, i as int).map_values(|s: &str| s@),
        decreases items@.len() - i,
    {
        let s = String::from_str(items[i]);
        let ghost before = out@;
        let ghost text = s@;
        assert(text == items@[i as int]@);
        out.push(s);
        assert(texts(out@) =~= texts(before).push(text));
        assert(items@.subrange(0, i + 1) =~= items@.subrange(0, i as int).push(items@[i as int]));
        i = i + 1;
        assert(texts(out@) =~= items@.subrange(0, i as int).map_values(|s: &str| s@));
    }
    assert(items@.subrange(0, i as int) =~= items@);
    out
}

/// The class name, cargo and weapon systems of a typical ship of a class
/// (the parts of its generated scan data that are not measurements).
pub fn ship_class_loadout(ship_class: &str) -> (r: ShipLoadout)
    ensures
        r.ship_class@ == loadout_class_name(ship_class@),
        texts(r.cargo_manifest@) == loadout_cargo(ship_class@),
        texts(r.weapon_systems@) == loadout_weapons(ship_class@),
        (ship_class@ == "Interceptor"@ || ship_class@ == "Cruiser"@ || ship_class@ == "Freighter"@) ==> r.ship_class@ == ship_class@,
        !(ship_class@ == "Interceptor"@ || ship_class@ == "Cruiser"@ || ship_class@ == "Freighter"@) ==> (r.ship_class@ == "Unknown"@
            && r.cargo_manifest@.len() == 0 && r.weapon_systems@.len() == 0),
        ship_class@ == "Interceptor"@ ==> (r.cargo_manifest@.len() == 0 && r.weapon_systems@.len() == 2),
        ship_class@ == "Cruiser"@ ==> (r.cargo_manifest@.len() == 2 && r.weapon_systems@.len() == 3),
        ship_class@ == "Freighter"@ ==> (r.cargo_manifest@.len() == 4 && r.weapon_systems@.len() == 1),
{
    proof {
        reveal_strlit("Interceptor");
        reveal_strlit("Cruiser");
        reveal_strlit("Freighter");
    }
    if str_equals(ship_class, "Interceptor") {
        let weapons = ["Light Pulse Lasers", "Missile Pod"];
        let none: Vec<String> = Vec::new();
        assert(texts(none@) =~= Seq::empty());
        assert(ship_class@.len() != "Cruiser"@.len() && ship_class@.len() != "Freighter"@.len());
        let r = ShipLoadout {
            ship_class: String::from_str(ship_class),
            cargo_manifest: none,
            weapon_systems: strings_of(&weapons),
        };
        assert(texts(r.cargo_manifest@) =~= loadout_cargo(ship_class@));
        assert(texts(r.weapon_systems@) =~= loadout_weapons(ship_class@));
        r
    } else if str_equals(ship_class, "Cruiser") {
        let cargo = ["Ammunition", "Spare Parts"];
        let weapons = ["Heavy Beam Lasers", "Torpedo Launcher", "Point Defense Systems"];
        let r = ShipLoadout {
            ship_class: String::from_str(ship_class),
            cargo_manifest: strings_of(&cargo),
            weapon_systems: strings_of(&weapons),
        };
        assert(texts(r.cargo_manifest@) =~= loadout_cargo(ship_class@));
        assert(texts(r.weapon_systems@) =~= loadout_weapons(ship_class@));
        r
    } else if str_equals(ship_class, "Freighter") {
        let cargo = ["Consumer Goods", "Raw Materials", "Food Supplies", "Medical Equipment"];
        let weapons = ["Light Defense Turrets"];
        let r = ShipLoadout {
            ship_class: String::from_str(ship_class),
            cargo_manifest: strings_of(&cargo),
            weapon_systems: strings_of(&weapons),
        };
        assert(texts(r.cargo_manifest@) =~= loadout_cargo(ship_class@));
        assert(texts(r.weapon_systems@) =~= loadout_weapons(ship_class@));
        r
    } else {
        let r = ShipLoadout {
            ship_class: String::from_str("Unknown"),
            cargo_manifest: Vec::new(),
            weapon_systems: Vec::new(),
        };
        assert(texts(r.cargo_manifest@) =~= loadout_cargo(ship_class@));
        assert(texts(r.weapon_systems@) =~= loadout_weapons(ship_class@));
        r
    }
}

proof fn lemma_utf8_len_bound(text: Seq<char>)
    ensures
        vstd::utf8::encode_utf8(text).len() <= 4 * text.len(),
    decreases text.len(),
{
    if text.len() > 0 {
        lemma_utf8_len_bound(text.drop_first());
    }
}

/// The cargo and weapon systems of every typical loadout pass the manifest
/// validation of scans.
pub proof fn loadouts_pass_manifest_validation(ship_class: Seq<char>, cargo: Seq<String>, weapons: Seq<String>)
    requires
        texts(cargo) == loadout_cargo(ship_class),
        texts(weapons) == loadout_weapons(ship_class),
    ensures
        scan_manifest_error(cargo, weapons) is None,
{
    reveal_strlit("Ammunition");
    reveal_strlit("Spare Parts");
    reveal_strlit("Consumer Goods");
    reveal_strlit("Raw Materials");
    reveal_strlit("Food Supplies");
    reveal_strlit("Medical Equipment");
    assert(cargo.len() == texts(cargo).len());
    assert(weapons.len() == texts(weapons).len());
    assert forall|i: int| 0 <= i < cargo.len() implies vstd::utf8::encode_utf8(#[trigger] cargo[i]@).len() <= 100 by {
        assert(cargo[i]@ == texts(cargo)[i]);
        lemma_utf8_len_bound(cargo[i]@);
    }
    assert(first_long_item(cargo) is None);
}

/// A scan request is accepted exactly when the connection is authenticated
/// and the request names the client itself; a request naming nobody, naming
/// no valid player id or naming another player is refused.
pub proof fn scans_are_made_by_the_client_only(authenticated: bool, client: PlayerId, requester: ScanRequester)
    ensures
        scan_refusal(authenticated, client, requester) is None <==> (authenticated && requester == ScanRequester::Player(client)),
{
}

/// A scan is refused by the rate limit exactly when the player's last
/// accepted scan lies less than 5000 ms before it; a first scan always passes.
pub proof fn scan_rate_limit_window(last_scan: Option<u64>, now: u64)
    ensures
        scan_rate_error(last_scan, now) is None <==> (last_scan matches Some(t) ==> now >= t + 5000),
        scan_rate_error(None, now) is None,
{
}

/// The lists of a scan are accepted exactly when the cargo has at most 50
/// items, each named in at most 100 bytes, and at most 20 weapon systems are
/// listed.
pub proof fn manifests_accepted_are_bounded(cargo: Seq<String>, weapons: Seq<String>)
    ensures
        scan_manifest_error(cargo, weapons) is None <==> (cargo.len() <= 50 && weapons.len() <= 20
            && forall|i: int| 0 <= i < cargo.len() ==> vstd::utf8::encode_utf8(#[trigger] cargo[i]@).len() <= 100),
{
    if cargo.len() <= 50 && first_long_item(cargo) is Some {
        let k = first_long_item(cargo)->0;
        assert(vstd::utf8::encode_utf8(cargo[k]@).len() > 100);
    }
}

/// A scan reports a known ship class (Interceptor, Cruiser, Freighter) under
/// its own name, and every other class as "Unknown" with no cargo and no
/// weapons; a known class always mounts at least one weapon system.
pub proof fn known_classes_keep_their_name(ship_class: Seq<char>)
    ensures
        (ship_class == "Interceptor"@ || ship_class == "Cruiser"@ || ship_class == "Freighter"@)
            ==> loadout_class_name(ship_class) == ship_class && loadout_weapons(ship_class).len() >= 1,
        !(ship_class == "Interceptor"@ || ship_class == "Cruiser"@ || ship_class == "Freighter"@)
            ==> loadout_class_name(ship_class) == "Unknown"@ && loadout_cargo(ship_class).len() == 0
                && loadout_weapons(ship_class).len() == 0,
        loadout_class_name("Interceptor"@) == "Interceptor"@,
{
    reveal_strlit("Interceptor");
    reveal_strlit("Cruiser");
    reveal_strlit("Freighter");
    assert("Interceptor"@[0] == 'I' && "Cruiser"@[0] == 'C' && "Freighter"@[0] == 'F');
}

} // verus!
