//! The calls that leave this library: into the standard library where it
//! is not specified, and into the crates num-traits and itertools. Each is
//! a small function whose contract is taken on trust; everything else is
//! proved from these contracts.

use vstd::prelude::*;

verus! {

/// Trusted: `str::eq` of the standard library. Two string slices compare
/// equal exactly when they hold the same characters.
#[verifier::external_body]
pub(crate) fn str_eq(a: &str, b: &str) -> (r: bool)
    ensures
        r == (a@ == b@),
{
    a == b
}

/// Trusted: `String::push` of the standard library, which appends one
/// character to the end of the string.
#[verifier::external_body]
pub(crate) fn push_char(s: &mut String, c: char)
    ensures
        final(s)@ == old(s)@.push(c),
{
    s.push(c);
}

/// Trusted: `Signed::is_negative` of the crate num-traits, for `i64`: true
/// exactly for the numbers below zero.
#[verifier::external_body]
pub(crate) fn is_negative(x: i64) -> (r: bool)
    ensures
        r == (x < 0),
{
    num_traits::Signed::is_negative(&x)
}

/// Trusted: `Signed::abs` of the crate num-traits, for `i128`: the number
/// itself where it is not negative, else its negation. The least number,
/// whose negation does not fit, is left out.
#[verifier::external_body]
pub(crate) fn magnitude(x: i128) -> (r: i128)
    requires
        x > i128::MIN,
    ensures
        r == if x < 0 {
            -x
        } else {
            x as int
        },
{
    num_traits::Signed::abs(&x)
}

/// Trusted: `Zero::is_zero` of the crate num-traits, for `i32`: true
/// exactly for 0.
#[verifier::external_body]
pub(crate) fn is_zero(x: i32) -> (r: bool)
    ensures
        r == (x == 0),
{
    num_traits::Zero::is_zero(&x)
}

/// Trusted: `ToPrimitive::to_u32` of the crate num-traits, for `isize`: the
/// same number as a `u32` where it is one, else nothing.
#[verifier::external_body]
pub(crate) fn to_u32(x: isize) -> (r: Option<u32>)
    ensures
        r == if 0 <= x <= u32::MAX {
            Some(x as u32)
        } else {
            None
        },
{
    num_traits::ToPrimitive::to_u32(&x)
}

/// Trusted: `Itertools::exactly_one` of the crate itertools, on the
/// characters of a string: the one character of a string that has exactly
/// one, else nothing.
#[verifier::external_body]
pub(crate) fn only_char(s: &str) -> (r: Option<char>)
    ensures
        r == if s@.len() == 1 {
            Some(s@[0])
        } else {
            None
        },
{
    itertools::Itertools::exactly_one(s.chars()).ok()
}

/// Whether the first `n` bytes of `bytes` are its longest start that is
/// valid UTF-8.
pub open spec fn longest_valid_start(bytes: Seq<u8>, n: int) -> bool {
    &&& 0 <= n <= bytes.len()
    &&& vstd::utf8::valid_utf8(bytes.subrange(0, n))
    &&& forall|m: int|
        n < m <= bytes.len() ==> !vstd::utf8::valid_utf8(#[trigger] bytes.subrange(0, m))
}

/// The length of the longest start of `bytes` that is valid UTF-8.
pub open spec fn utf8_valid_up_to(bytes: Seq<u8>) -> usize {
    choose|n: usize| longest_valid_start(bytes, n as int)
}

/// There is one longest valid start: whatever length has the property is
/// the length that `utf8_valid_up_to` names, and it leaves a byte over
/// unless the bytes are valid as a whole.
pub proof fn lemma_valid_up_to(bytes: Seq<u8>, n: usize)
    requires
        longest_valid_start(bytes, n as int),
    ensures
        n == utf8_valid_up_to(bytes),
        !vstd::utf8::valid_utf8(bytes) ==> n < bytes.len(),
{
    let chosen = utf8_valid_up_to(bytes);
    assert(longest_valid_start(bytes, chosen as int));
    if chosen < n {
        assert(!vstd::utf8::valid_utf8(bytes.subrange(0, n as int)));
    }
    if n < chosen {
        assert(!vstd::utf8::valid_utf8(bytes.subrange(0, chosen as int)));
    }
    assert(bytes.subrange(0, bytes.len() as int) =~= bytes);
}

/// Trusted: `core::str::from_utf8` of the standard library. Valid UTF-8 is
/// decoded to its text. For anything else the error's `valid_up_to` is
/// returned: the greatest length at which the start of the bytes is valid
/// UTF-8.
#[verifier::external_body]
pub(crate) fn decode_text(bytes: &[u8]) -> (r: Result<String, usize>)
    ensures
        match r {
            Ok(s) => vstd::utf8::valid_utf8(bytes@) && s@ == vstd::utf8::decode_utf8(bytes@),
            Err(n) => !vstd::utf8::valid_utf8(bytes@) && longest_valid_start(bytes@, n as int),
        },
{
    match core::str::from_utf8(bytes) {
        Ok(s) => Ok(s.to_owned()),
        Err(e) => Err(e.valid_up_to()),
    }
}

/// The text `s` without the white space at its start, as `str::trim_start`
/// of the standard library returns it.
pub uninterp spec fn trimmed_start(s: Seq<char>) -> Seq<char>;

/// Trusted: `str::trim_start` of the standard library, which removes the
/// leading white space.
#[verifier::external_body]
pub(crate) fn trim_start(s: &str) -> (r: String)
    ensures
        r@ == trimmed_start(s@),
{
    s.trim_start().to_owned()
}

} // verus!
