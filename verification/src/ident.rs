//! UUIDs as 128-bit values: making fresh ones, reading them from text and
//! writing them as text. The work itself is done by the `uuid` crate.

use std::str::FromStr;
use uuid::Uuid;
use vstd::arithmetic::div_mod::{lemma_mod_bound, lemma_mod_breakdown, lemma_small_mod};
use vstd::arithmetic::power::{lemma_pow_positive, pow};
use vstd::prelude::*;

verus! {

/// `uuid::Error`, taken as it is: why a text was not read as a UUID. Nothing
/// is known of what it holds.
#[verifier::external_type_specification]
#[verifier::external_body]
pub struct ExUuidError(uuid::Error);

/// The value that `Uuid::from_str` reads from a text, or `None` where it
/// rejects the text. It accepts the hyphenated, simple, URN and braced forms.
pub uninterp spec fn parsed_uuid(text: Seq<char>) -> Option<u128>;

/// The 16 lower-case hexadecimal digits.
pub open spec fn hex_digits() -> Seq<char> {
    seq!['0', '1', '2', '3', '4', '5', '6', '7', '8', '9', 'a', 'b', 'c', 'd', 'e', 'f']
}

/// The `index`-th hexadecimal digit of a 128-bit value, counted from the most
/// significant one.
pub open spec fn hex_digit_at(value: u128, index: int) -> char
    recommends
        0 <= index < 32,
{
    hex_digits()[(value as int / pow(16, (31 - index) as nat)) % 16]
}

/// How many hyphens stand before position `position` of a hyphenated UUID.
pub open spec fn hyphens_before(position: int) -> int {
    if position < 8 {
        0
    } else if position < 13 {
        1
    } else if position < 18 {
        2
    } else if position < 23 {
        3
    } else {
        4
    }
}

/// The hyphenated lower-case form of a UUID: 36 characters, the 32 digits in
/// groups of 8, 4, 4, 4 and 12.
pub open spec fn hyphenated(value: u128) -> Seq<char> {
    Seq::new(
        36,
        |i: int|
            if i == 8 || i == 13 || i == 18 || i == 23 {
                '-'
            } else {
                hex_digit_at(value, i - hyphens_before(i))
            },
    )
}

/// Two numbers that agree in their lowest `count` hexadecimal digits agree
/// modulo the `count`-th power of 16.
proof fn lemma_digits_fix_value(a: int, b: int, count: nat)
    requires
        0 <= a,
        0 <= b,
        forall|j: nat| j < count ==> (a / #[trigger] pow(16, j)) % 16 == (b / pow(16, j)) % 16,
    ensures
        a % pow(16, count) == b % pow(16, count),
    decreases count,
{
    reveal(pow);
    if count > 0 {
        let below = (count - 1) as nat;
        lemma_digits_fix_value(a, b, below);
        lemma_pow_positive(16, below);
        lemma_mod_breakdown(a, pow(16, below), 16);
        lemma_mod_breakdown(b, pow(16, below), 16);
        assert(pow(16, count) == pow(16, below) * 16) by (nonlinear_arith)
            requires
                pow(16, count) == 16 * pow(16, below),
        ;
        assert((a / pow(16, below)) % 16 == (b / pow(16, below)) % 16);
    }
}

/// No two of the 16 hexadecimal digits are the same character.
proof fn lemma_hex_digits_differ(x: int, y: int)
    requires
        0 <= x < 16,
        0 <= y < 16,
        hex_digits()[x] == hex_digits()[y],
    ensures
        x == y,
{
}

/// The position in the hyphenated form of the `index`-th hexadecimal digit
/// of a UUID, counted from the most significant one.
pub open spec fn position_of_digit(index: int) -> int {
    if index < 8 {
        index
    } else if index < 12 {
        index + 1
    } else if index < 16 {
        index + 2
    } else if index < 20 {
        index + 3
    } else {
        index + 4
    }
}

/// The hyphenated form tells the UUID: two UUIDs with the same form are the
/// same.
pub proof fn law_hyphenated_is_one_to_one(a: u128, b: u128)
    requires
        hyphenated(a) == hyphenated(b),
    ensures
        a == b,
{
    assert forall|j: nat| j < 32 implies (a as int / #[trigger] pow(16, j)) % 16 == (b as int
        / pow(16, j)) % 16 by {
        let index = 31 - j;
        let position = position_of_digit(index);
        assert(hyphenated(a)[position] == hex_digit_at(a, index));
        assert(hyphenated(b)[position] == hex_digit_at(b, index));
        lemma_pow_positive(16, j);
        lemma_mod_bound(a as int / pow(16, j), 16);
        lemma_mod_bound(b as int / pow(16, j), 16);
        lemma_hex_digits_differ((a as int / pow(16, j)) % 16, (b as int / pow(16, j)) % 16);
    }
    lemma_digits_fix_value(a as int, b as int, 32);
    assert(pow(16, 32) == 0x1_0000_0000_0000_0000_0000_0000_0000_0000) by {
        reveal_with_fuel(pow, 33);
    }
    lemma_small_mod(a as nat, pow(16, 32) as nat);
    lemma_small_mod(b as nat, pow(16, 32) as nat);
}

/// Whether a value carries the marks of a random (version 4) UUID: version
/// digit 4 and the two variant bits `10`.
pub open spec fn is_random_uuid(value: u128) -> bool {
    (value as int / pow(2, 76)) % 16 == 4 && (value as int / pow(2, 62)) % 4 == 2
}

/// Calls `Uuid::new_v4`. The value is random; the crate sets its version and
/// variant bits, and that is all that is claimed of it. The call panics where
/// the operating system hands out no random bytes, which no argument decides.
#[verifier::external_body]
pub(crate) fn random_uuid() -> (value: u128)
    ensures
        is_random_uuid(value),
{
    Uuid::new_v4().as_u128()
}

/// Calls `Uuid::from_str`: the result is the value that the crate reads from
/// the text, and its own error where it reads none.
#[verifier::external_body]
pub(crate) fn uuid_from_str(text: &str) -> (r: Result<u128, uuid::Error>)
    ensures
        r matches Ok(value) ==> parsed_uuid(text@) == Some(value),
        r is Err ==> parsed_uuid(text@) is None,
{
    Uuid::from_str(text).map(|u| u.as_u128())
}

/// Calls `Uuid::to_string`, which writes the hyphenated lower-case form.
#[verifier::external_body]
pub(crate) fn uuid_to_string(value: u128) -> (text: String)
    ensures
        text@ == hyphenated(value),
{
    Uuid::from_u128(value).to_string()
}

} // verus!
