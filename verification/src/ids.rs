//! Identifiers of players and replicated objects, held as the 128-bit value
//! of their UUID, and the calls into the UUID and event-system crates that
//! produce or read them.

use vstd::prelude::*;

verus! {

/// Unique identifier of a player: the 128-bit value of its UUID.
#[derive(Clone, Copy, Debug, PartialEq, Eq, Structural, Hash)]
pub struct PlayerId(pub u128);

/// Unique identifier of a replicated (GORC) object instance: the 128-bit value of its UUID.
#[derive(Clone, Copy, Debug, PartialEq, Eq, Structural, Hash)]
pub struct GorcObjectId(pub u128);

/// The value of a hexadecimal digit (`0-9`, `a-f`, `A-F`).
pub open spec fn hex_digit_value(c: char) -> Option<nat> {
    if '0' <= c <= '9' {
        Some((c as int - '0' as int) as nat)
    } else if 'a' <= c <= 'f' {
        Some((c as int - 'a' as int + 10) as nat)
    } else if 'A' <= c <= 'F' {
        Some((c as int - 'A' as int + 10) as nat)
    } else {
        None
    }
}

/// The number that a sequence of hexadecimal digits denotes, most
/// significant digit first; `None` where a character is no hex digit.
pub open spec fn hex_value(digits: Seq<char>) -> Option<nat>
    decreases digits.len(),
{
    if digits.len() == 0 {
        Some(0)
    } else {
        match (hex_value(digits.drop_last()), hex_digit_value(digits.last())) {
            (Some(high), Some(low)) => Some(high * 16 + low),
            _ => None,
        }
    }
}

/// The 32 digits of a hyphenated UUID text (8-4-4-4-12 digits, hyphens at
/// positions 8, 13, 18 and 23); `None` where the text has not that shape.
pub open spec fn hyphenated_digits(s: Seq<char>) -> Option<Seq<char>> {
    if s.len() == 36 && s[8] == '-' && s[13] == '-' && s[18] == '-' && s[23] == '-' {
        Some(s.subrange(0, 8) + s.subrange(9, 13) + s.subrange(14, 18) + s.subrange(19, 23) + s.subrange(24, 36))
    } else {
        None
    }
}

/// Whether a text is `urn:uuid:` in any letter case.
pub open spec fn is_urn_prefix(p: Seq<char>) -> bool {
    &&& p.len() == 9
    &&& (p[0] == 'u' || p[0] == 'U') && (p[1] == 'r' || p[1] == 'R') && (p[2] == 'n' || p[2] == 'N')
    &&& p[3] == ':'
    &&& (p[4] == 'u' || p[4] == 'U') && (p[5] == 'u' || p[5] == 'U') && (p[6] == 'i' || p[6] == 'I')
    &&& (p[7] == 'd' || p[7] == 'D')
    &&& p[8] == ':'
}

/// The 32 digits of a UUID text in one of the forms `Uuid::parse_str`
/// accepts: 32 digits; hyphenated; hyphenated within braces; hyphenated
/// after `urn:uuid:`. `None` for any other shape.
pub open spec fn uuid_text_digits(text: Seq<char>) -> Option<Seq<char>> {
    if text.len() == 32 {
        Some(text)
    } else if text.len() == 36 {
        hyphenated_digits(text)
    } else if text.len() == 38 && text[0] == '{' && text[37] == '}' {
        hyphenated_digits(text.subrange(1, 37))
    } else if text.len() == 45 && is_urn_prefix(text.subrange(0, 9)) {
        hyphenated_digits(text.subrange(9, 45))
    } else {
        None
    }
}

/// The 128-bit value of a UUID text (its 32 digits read as one hexadecimal
/// number), or `None` where the text is no UUID in an accepted form.
pub open spec fn uuid_text_value(text: Seq<char>) -> Option<u128> {
    match uuid_text_digits(text) {
        Some(digits) => match hex_value(digits) {
            Some(v) => Some(v as u128),
            None => None,
        },
        None => None,
    }
}

/// Whether `s` is a UUID in its lower-case hyphenated form
/// (`xxxxxxxx-xxxx-xxxx-xxxx-xxxxxxxxxxxx`, hexadecimal digits `0-9a-f`).
pub open spec fn is_hyphenated_uuid_text(s: Seq<char>) -> bool {
    &&& s.len() == 36
    &&& forall|i: int|
        0 <= i < 36 ==> if i == 8 || i == 13 || i == 18 || i == 23 {
            s[i] == '-'
        } else {
            ('0' <= #[trigger] s[i] <= '9') || ('a' <= s[i] <= 'f')
        }
}

/// Calls `horizon_event_system::GorcObjectId::from_str` (which parses the
/// text with `uuid::Uuid::parse_str`) and keeps the UUID's 128-bit value
/// (`as_u128`, big-endian). The contract claims that the text is accepted
/// exactly in the forms `uuid_text_digits` lists, with any letter case for
/// the hex digits and the `urn:uuid:` prefix, and that the value is that of
/// its 32 digits.
#[verifier::external_body]
fn gorc_object_id_from_str(text: &str) -> (r: Option<u128>)
    ensures
        r == uuid_text_value(text@),
{
    horizon_event_system::GorcObjectId::from_str(text).ok().map(|id| id.0.as_u128())
}

/// Whether `s` is the lower-case hyphenated text of a random (version 4,
/// RFC 4122 variant) UUID: version digit `4`, variant digit `8`, `9`, `a` or `b`.
pub open spec fn is_v4_uuid_text(s: Seq<char>) -> bool {
    &&& is_hyphenated_uuid_text(s)
    &&& s[14] == '4'
    &&& (s[19] == '8' || s[19] == '9' || s[19] == 'a' || s[19] == 'b')
}

/// Calls `uuid::Uuid::new_v4` and renders the UUID with `to_string`.
/// The value is random; the contract claims only its text form: the
/// lower-case hyphenated rendering of a UUID whose version and variant bits
/// `new_v4` sets.
#[verifier::external_body]
pub(crate) fn new_uuid_v4_text() -> (r: String)
    ensures
        is_v4_uuid_text(r@),
{
    uuid::Uuid::new_v4().to_string()
}

/// The object a GORC event names, as the event system reads its object-id
/// text; `None` where the text is no object id (the handlers then log and
/// skip the broadcast).
pub open spec fn broadcast_target_of(text: Seq<char>) -> Option<GorcObjectId> {
    match uuid_text_value(text) {
        Some(v) => Some(GorcObjectId(v)),
        None => None,
    }
}

/// Reads the object-id text of a GORC event into the object to broadcast
/// from; `None` where the text is no valid object id.
pub fn resolve_broadcast_target(object_id: &str) -> (r: Option<GorcObjectId>)
    ensures
        r == broadcast_target_of(object_id@),
{
    match gorc_object_id_from_str(object_id) {
        Some(v) => Some(GorcObjectId(v)),
        None => None,
    }
}

/// Keeps a given UUID text, or generates a fresh random one where it is empty
/// (as the props' constructors do).
pub fn uuid_or_generate(uuid: String) -> (r: String)
    ensures
        uuid@.len() > 0 ==> r@ == uuid@,
        uuid@.len() == 0 ==> is_v4_uuid_text(r@),
        r@.len() > 0,
{
    if uuid.as_str().is_empty() {
        new_uuid_v4_text()
    } else {
        uuid
    }
}

} // verus!
