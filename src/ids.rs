//! User identifiers: 128-bit values, written and read as hyphenated UUID text.
use vstd::prelude::*;

verus! {

pub open spec fn hex_char(d: nat) -> char {
    seq!['0', '1', '2', '3', '4', '5', '6', '7', '8', '9', 'a', 'b', 'c', 'd', 'e', 'f'][d as int]
}

/// The last `n` hex digits of `x`, most significant first.
pub open spec fn hex_digits(x: nat, n: nat) -> Seq<char>
    decreases n,
{
    if n == 0 {
        Seq::empty()
    } else {
        hex_digits(x / 16, (n - 1) as nat).push(hex_char(x % 16))
    }
}

/// The lowercase hyphenated text of a UUID: its 32 hex digits, most significant
/// first, in groups of 8, 4, 4, 4 and 12.
pub open spec fn uuid_hyphenated(id: u128) -> Seq<char> {
    let d = hex_digits(id as nat, 32);
    d.subrange(0, 8) + seq!['-'] + d.subrange(8, 12) + seq!['-'] + d.subrange(12, 16) + seq!['-']
        + d.subrange(16, 20) + seq!['-'] + d.subrange(20, 32)
}

/// The UUID that a text denotes (hyphenated, simple, braced or URN form), or
/// `None` where it denotes none.
pub uninterp spec fn uuid_parsed(text: Seq<char>) -> Option<u128>;

/// Relies on uuid's `Uuid::from_u128` (big-endian) and its `Display`: the
/// hyphenated lowercase text, which `Uuid::parse_str` reads back.
#[verifier::external_body]
pub fn uuid_text(id: u128) -> (r: String)
    ensures
        r@ == uuid_hyphenated(id),
        uuid_parsed(r@) == Some(id),
{
    uuid::Uuid::from_u128(id).to_string()
}

/// Relies on uuid's `Uuid::parse_str`: the identifier that a text denotes.
#[verifier::external_body]
pub fn parse_uuid(text: &str) -> (r: Option<u128>)
    ensures
        r == uuid_parsed(text@),
{
    uuid::Uuid::parse_str(text).ok().map(|u| u.as_u128())
}

} // verus!
