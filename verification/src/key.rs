//! Keys as values: how a key is made, written and read.
//!
//! A key is a 128-bit number. Outside the table it travels as text, in the
//! hyphenated lower-case form of the `uuid` crate, which also draws the random
//! keys and reads key text back.

use uuid::Uuid;
use vstd::prelude::*;

verus! {

/// The bits that mark a key as randomly generated: the version and the
/// variant field.
pub const MARK_BITS: u128 = 0x0000_0000_0000_f000_c000_0000_0000_0000;

/// What those bits hold in a randomly generated key: version 4, variant `10`.
pub const RANDOM_MARK: u128 = 0x0000_0000_0000_4000_8000_0000_0000_0000;

/// Whether `key` carries the marks of a randomly generated key.
pub open spec fn is_random(key: u128) -> bool {
    key & MARK_BITS == RANDOM_MARK
}

/// The lower-case hexadecimal digit for `n`, for `0 <= n < 16`.
pub open spec fn hex_digit(n: int) -> char {
    seq!['0', '1', '2', '3', '4', '5', '6', '7', '8', '9', 'a', 'b', 'c', 'd', 'e', 'f'][n]
}

/// The `i`-th of the 32 hexadecimal digits of `key`, counted from the most
/// significant one.
pub open spec fn nibble(key: u128, i: int) -> int {
    (key as int / vstd::arithmetic::power::pow(16, (31 - i) as nat)) % 16
}

/// Which digit of the key stands at position `p` of its text, for a position
/// that holds no hyphen.
pub open spec fn digit_at(p: int) -> int {
    if p < 8 {
        p
    } else if p < 13 {
        p - 1
    } else if p < 18 {
        p - 2
    } else if p < 23 {
        p - 3
    } else {
        p - 4
    }
}

/// The text of `key`: its 32 hexadecimal digits in lower case, most
/// significant first, in groups of 8, 4, 4, 4 and 12 joined by hyphens.
pub open spec fn text(key: u128) -> Seq<char> {
    Seq::new(
        36,
        |p: int|
            if p == 8 || p == 13 || p == 18 || p == 23 {
                '-'
            } else {
                hex_digit(nibble(key, digit_at(p)))
            },
    )
}

/// The key that a text denotes, or `None` where the text denotes no key.
///
/// This is what `Uuid::parse_str` makes of the text. It accepts several
/// notations; the one fact used here is that it reads back what [`text`]
/// writes.
pub uninterp spec fn parsed(text: Seq<char>) -> Option<u128>;

/// Draws a random key with `Uuid::new_v4`.
///
/// Nothing is claimed of the value but the version and variant marks that
/// `new_v4` sets on every key it returns.
#[verifier::external_body]
pub(crate) fn random() -> (key: u128)
    ensures
        is_random(key),
{
    Uuid::new_v4().as_u128()
}

/// Writes `key` as text through the `Display` impl of `Uuid`.
///
/// The result is claimed to be the hyphenated lower-case form, and to be read
/// back as `key` by `Uuid::parse_str`.
#[verifier::external_body]
pub(crate) fn write(key: u128) -> (out: String)
    ensures
        out@ == text(key),
        parsed(out@) == Some(key),
{
    Uuid::from_u128(key).to_string()
}

/// Reads a key from text with `Uuid::parse_str`; `None` where it reports an
/// error.
#[verifier::external_body]
pub(crate) fn read(input: &str) -> (out: Option<u128>)
    ensures
        out == parsed(input@),
{
    match Uuid::parse_str(input) {
        Ok(id) => Some(id.as_u128()),
        Err(_) => None,
    }
}

} // verus!
