//! Identifiers and instants as plain values, and the calls that make fresh
//! ones: random UUIDs from `uuid`, the current instant from `chrono`.
use vstd::prelude::*;

use crate::text::{concat2, hex_digit_spec};

verus! {

/// A UUID as its 128-bit big-endian value (what `Uuid::as_u128` gives).
pub type EntityId = u128;

/// An instant as nanoseconds since 1970-01-01T00:00:00Z, the precision of a
/// `chrono::DateTime<Utc>`.
pub type Timestamp = i128;

/// Latest second that a `chrono::DateTime<Utc>` can hold, rounded up, in
/// seconds since the epoch.
pub const MAX_CLOCK_SECONDS: i64 = 8_300_000_000_000;

/// One second in the units of a `Timestamp`.
pub const NANOS_PER_SECOND: i128 = 1_000_000_000;

/// Latest instant that the clock can read, in the units of a `Timestamp`:
/// the last nanosecond of `MAX_CLOCK_SECONDS`.
pub const MAX_CLOCK_NANOS: i128 = 8_300_000_000_000_999_999_999;

/// The 32 lower-case hex digits of `id`, most significant first.
pub open spec fn uuid_hex(id: u128) -> Seq<char> {
    Seq::new(32, |i: int| hex_digit_spec(((id >> ((4 * (31 - i)) as u128)) & 0xf) as u8))
}

/// The hyphenated lower-case text of a UUID: `8-4-4-4-12` hex digits.
pub open spec fn uuid_text(id: u128) -> Seq<char> {
    let h = uuid_hex(id);
    h.subrange(0, 8) + seq!['-'] + h.subrange(8, 12) + seq!['-'] + h.subrange(12, 16) + seq!['-']
        + h.subrange(16, 20) + seq!['-'] + h.subrange(20, 32)
}

/// The hex digit of a nibble determines the nibble.
proof fn lemma_hex_digit_injective(x: u8, y: u8)
    requires
        x < 16,
        y < 16,
        hex_digit_spec(x) == hex_digit_spec(y),
    ensures
        x == y,
{
}

/// Two UUIDs whose hex texts agree at digit `i` agree on that nibble.
proof fn lemma_same_nibble(a: u128, b: u128, i: int)
    requires
        0 <= i < 32,
        uuid_hex(a)[i] == uuid_hex(b)[i],
    ensures
        (a >> ((4 * (31 - i)) as u128)) & 0xf == (b >> ((4 * (31 - i)) as u128)) & 0xf,
{
    let x = ((a >> ((4 * (31 - i)) as u128)) & 0xf) as u8;
    let y = ((b >> ((4 * (31 - i)) as u128)) & 0xf) as u8;
    let sa = a >> ((4 * (31 - i)) as u128);
    let sb = b >> ((4 * (31 - i)) as u128);
    assert(sa & 0xf < 16) by (bit_vector);
    assert(sb & 0xf < 16) by (bit_vector);
    lemma_hex_digit_injective(x, y);
}

/// Distinct UUIDs have distinct hyphenated texts.
pub proof fn lemma_uuid_text_injective(a: u128, b: u128)
    requires
        uuid_text(a) == uuid_text(b),
    ensures
        a == b,
{
    let ta = uuid_text(a);
    let tb = uuid_text(b);
    assert forall|i: int| 0 <= i < 32 implies #[trigger] uuid_hex(a)[i] == uuid_hex(b)[i] by {
        let p: int = if i < 8 {
            i
        } else if i < 12 {
            i + 1
        } else if i < 16 {
            i + 2
        } else if i < 20 {
            i + 3
        } else {
            i + 4
        };
        assert(ta[p] == uuid_hex(a)[i]);
        assert(tb[p] == uuid_hex(b)[i]);
    }
    lemma_same_nibble(a, b, 0);
    lemma_same_nibble(a, b, 1);
    lemma_same_nibble(a, b, 2);
    lemma_same_nibble(a, b, 3);
    lemma_same_nibble(a, b, 4);
    lemma_same_nibble(a, b, 5);
    lemma_same_nibble(a, b, 6);
    lemma_same_nibble(a, b, 7);
    lemma_same_nibble(a, b, 8);
    lemma_same_nibble(a, b, 9);
    lemma_same_nibble(a, b, 10);
    lemma_same_nibble(a, b, 11);
    lemma_same_nibble(a, b, 12);
    lemma_same_nibble(a, b, 13);
    lemma_same_nibble(a, b, 14);
    lemma_same_nibble(a, b, 15);
    lemma_same_nibble(a, b, 16);
    lemma_same_nibble(a, b, 17);
    lemma_same_nibble(a, b, 18);
    lemma_same_nibble(a, b, 19);
    lemma_same_nibble(a, b, 20);
    lemma_same_nibble(a, b, 21);
    lemma_same_nibble(a, b, 22);
    lemma_same_nibble(a, b, 23);
    lemma_same_nibble(a, b, 24);
    lemma_same_nibble(a, b, 25);
    lemma_same_nibble(a, b, 26);
    lemma_same_nibble(a, b, 27);
    lemma_same_nibble(a, b, 28);
    lemma_same_nibble(a, b, 29);
    lemma_same_nibble(a, b, 30);
    lemma_same_nibble(a, b, 31);
    assert(a == b) by (bit_vector)
        requires
            (a >> 124u128) & 0xfu128 == (b >> 124u128) & 0xfu128,
            (a >> 120u128) & 0xfu128 == (b >> 120u128) & 0xfu128,
            (a >> 116u128) & 0xfu128 == (b >> 116u128) & 0xfu128,
            (a >> 112u128) & 0xfu128 == (b >> 112u128) & 0xfu128,
            (a >> 108u128) & 0xfu128 == (b >> 108u128) & 0xfu128,
            (a >> 104u128) & 0xfu128 == (b >> 104u128) & 0xfu128,
            (a >> 100u128) & 0xfu128 == (b >> 100u128) & 0xfu128,
            (a >> 96u128) & 0xfu128 == (b >> 96u128) & 0xfu128,
            (a >> 92u128) & 0xfu128 == (b >> 92u128) & 0xfu128,
            (a >> 88u128) & 0xfu128 == (b >> 88u128) & 0xfu128,
            (a >> 84u128) & 0xfu128 == (b >> 84u128) & 0xfu128,
            (a >> 80u128) & 0xfu128 == (b >> 80u128) & 0xfu128,
            (a >> 76u128) & 0xfu128 == (b >> 76u128) & 0xfu128,
            (a >> 72u128) & 0xfu128 == (b >> 72u128) & 0xfu128,
            (a >> 68u128) & 0xfu128 == (b >> 68u128) & 0xfu128,
            (a >> 64u128) & 0xfu128 == (b >> 64u128) & 0xfu128,
            (a >> 60u128) & 0xfu128 == (b >> 60u128) & 0xfu128,
            (a >> 56u128) & 0xfu128 == (b >> 56u128) & 0xfu128,
            (a >> 52u128) & 0xfu128 == (b >> 52u128) & 0xfu128,
            (a >> 48u128) & 0xfu128 == (b >> 48u128) & 0xfu128,
            (a >> 44u128) & 0xfu128 == (b >> 44u128) & 0xfu128,
            (a >> 40u128) & 0xfu128 == (b >> 40u128) & 0xfu128,
            (a >> 36u128) & 0xfu128 == (b >> 36u128) & 0xfu128,
            (a >> 32u128) & 0xfu128 == (b >> 32u128) & 0xfu128,
            (a >> 28u128) & 0xfu128 == (b >> 28u128) & 0xfu128,
            (a >> 24u128) & 0xfu128 == (b >> 24u128) & 0xfu128,
            (a >> 20u128) & 0xfu128 == (b >> 20u128) & 0xfu128,
            (a >> 16u128) & 0xfu128 == (b >> 16u128) & 0xfu128,
            (a >> 12u128) & 0xfu128 == (b >> 12u128) & 0xfu128,
            (a >> 8u128) & 0xfu128 == (b >> 8u128) & 0xfu128,
            (a >> 4u128) & 0xfu128 == (b >> 4u128) & 0xfu128,
            (a >> 0u128) & 0xfu128 == (b >> 0u128) & 0xfu128,
    ;
}

/// A fresh random UUID.
///
/// Calls `uuid::Uuid::new_v4`. The value is random; the contract states only
/// what the source fixes for every outcome: the version nibble is 4 and the
/// two variant bits are `10`. It panics when the operating system's random
/// source fails.
#[verifier::external_body]
pub fn new_random_id() -> (r: EntityId)
    ensures
        (r >> 76u128) & 0xfu128 == 4u128,
        (r >> 62u128) & 0x3u128 == 2u128,
{
    uuid::Uuid::new_v4().as_u128()
}

/// The hyphenated text of a UUID.
///
/// Calls `uuid::Uuid::from_u128` and then `to_string`, whose `Display` writes
/// the hyphenated lower-case form; the contract states that form.
#[verifier::external_body]
pub fn uuid_string(id: EntityId) -> (r: String)
    ensures
        r@ == uuid_text(id),
{
    uuid::Uuid::from_u128(id).to_string()
}

/// The clock's reading: whole seconds since the epoch and the nanoseconds
/// past that second.
///
/// Calls `chrono::Utc::now` and reads `timestamp` and
/// `timestamp_subsec_nanos` of the one instant it returns. The reading
/// depends on the clock; the contract states what the source fixes for every
/// outcome that returns: `Utc::now` builds the instant from the system
/// time's seconds and sub-second nanoseconds since the epoch (it panics when
/// the clock reads before 1970), and refuses seconds beyond the range of
/// `DateTime<Utc>`.
#[verifier::external_body]
fn clock_reading() -> (r: (i64, u32))
    ensures
        0 <= r.0 <= MAX_CLOCK_SECONDS,
        r.1 < 1_000_000_000,
{
    let now = chrono::Utc::now();
    (now.timestamp(), now.timestamp_subsec_nanos())
}

/// The current instant, to the nanosecond.
pub fn current_time() -> (r: Timestamp)
    ensures
        0 <= r <= MAX_CLOCK_NANOS,
{
    let (secs, nanos) = clock_reading();
    (secs as i128) * NANOS_PER_SECOND + (nanos as i128)
}

/// A fresh time-ordered UUID.
///
/// Calls `uuid::Uuid::now_v7`. The value depends on the clock and on random
/// bits; the contract states only what the source fixes for every outcome:
/// the version nibble is 7 and the two variant bits are `10`. It panics when
/// the system clock reads before 1970 or the random source fails.
#[verifier::external_body]
pub fn new_time_ordered_id() -> (r: EntityId)
    ensures
        (r >> 76u128) & 0xfu128 == 7u128,
        (r >> 62u128) & 0x3u128 == 2u128,
{
    uuid::Uuid::now_v7().as_u128()
}

/// `text` is the hyphenated lower-case text of some UUID.
pub open spec fn is_uuid_text(text: Seq<char>) -> bool {
    exists|v: u128| text == #[trigger] uuid_text(v)
}

/// What `uuid::Uuid::parse_str` makes of `text`: the UUID's value, or, when
/// it refuses the text, the message of its error.
pub uninterp spec fn uuid_parse_spec(text: Seq<char>) -> Result<u128, Seq<char>>;

/// Parses a UUID text.
///
/// Calls `uuid::Uuid::parse_str`, whose result, and the text of its error on
/// a refused text, are named by `uuid_parse_spec`. The contract adds what the
/// parser's source shows for the hyphenated lower-case form that
/// `uuid_string` writes: it parses to the UUID it was written from.
#[verifier::external_body]
fn uuid_parse(text: &str) -> (r: Result<EntityId, String>)
    ensures
        r is Ok <==> uuid_parse_spec(text@) is Ok,
        r matches Ok(v) ==> uuid_parse_spec(text@)->Ok_0 == v,
        r matches Err(m) ==> uuid_parse_spec(text@)->Err_0 == m@,
        is_uuid_text(text@) ==> r is Ok,
        r matches Ok(v) ==> (is_uuid_text(text@) ==> uuid_text(v) == text@),
{
    match uuid::Uuid::parse_str(text) {
        Ok(u) => Ok(u.as_u128()),
        Err(e) => Err(e.to_string()),
    }
}

/// Reads an entity id from its text. The hyphenated text of an id (what
/// `uuid_string` writes) reads back as that id; a refused text gives
/// `Invalid UUID: ` followed by the message of `uuid`'s error.
pub fn parse_entity_id(text: &str) -> (r: Result<EntityId, String>)
    ensures
        r is Ok <==> uuid_parse_spec(text@) is Ok,
        r matches Ok(v) ==> uuid_parse_spec(text@) == Ok::<u128, Seq<char>>(v),
        forall|v: u128| text@ == #[trigger] uuid_text(v) ==> r == Ok::<EntityId, String>(v),
        r matches Err(m) ==> (uuid_parse_spec(text@) matches Err(why) && m@ == "Invalid UUID: "@
            + why),
{
    match uuid_parse(text) {
        Ok(v) => {
            assert forall|w: u128| text@ == #[trigger] uuid_text(w) implies v == w by {
                lemma_uuid_text_injective(v, w);
            }
            Ok(v)
        },
        Err(e) => {
            Err(concat2("Invalid UUID: ", e.as_str()))
        },
    }
}

} // verus!
