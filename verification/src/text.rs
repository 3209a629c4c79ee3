//! Small operations on text that the runtime needs.

use vstd::prelude::*;
use vstd::string::*;

use crate::outside::{is_negative, magnitude, push_char};

verus! {

/// Where the last dot-separated segment of the first `end` characters of
/// `s` begins: behind the last dot, or at 0 where there is no dot.
pub open spec fn segment_start(s: Seq<char>, end: int) -> int
    decreases end,
{
    if end <= 0 || end > s.len() {
        0
    } else if s[end - 1] == '.' {
        end
    } else {
        segment_start(s, end - 1)
    }
}

/// The part of a dotted name behind its last dot: the whole name where it
/// has no dot, the empty text where it ends in one.
pub open spec fn spec_last_segment(s: Seq<char>) -> Seq<char> {
    s.subrange(segment_start(s, s.len() as int), s.len() as int)
}

/// The part of the dotted name `s` behind its last dot.
pub fn last_segment(s: &str) -> (r: String)
    ensures
        r@ == spec_last_segment(s@),
{
    let n = s.unicode_len();
    let mut i: usize = n;
    let mut found = false;
    while i > 0 && !found
        invariant
            i <= n,
            n == s@.len(),
            segment_start(s@, n as int) == segment_start(s@, i as int),
            found ==> i > 0 && s@[i - 1] == '.',
        decreases i + (if found { 0int } else { 1int }),
    {
        if s.get_char(i - 1) == '.' {
            found = true;
        } else {
            i -= 1;
        }
    }
    s.substring_char(i, n).to_owned()
}

/// The digit for `d` in bases up to 16, in lower case.
pub open spec fn spec_digit(d: int) -> char {
    if d == 0 {
        '0'
    } else if d == 1 {
        '1'
    } else if d == 2 {
        '2'
    } else if d == 3 {
        '3'
    } else if d == 4 {
        '4'
    } else if d == 5 {
        '5'
    } else if d == 6 {
        '6'
    } else if d == 7 {
        '7'
    } else if d == 8 {
        '8'
    } else if d == 9 {
        '9'
    } else if d == 10 {
        'a'
    } else if d == 11 {
        'b'
    } else if d == 12 {
        'c'
    } else if d == 13 {
        'd'
    } else if d == 14 {
        'e'
    } else {
        'f'
    }
}

#[verifier::when_used_as_spec(spec_digit_of)]
pub fn digit_of(d: u8) -> (c: char)
    ensures
        c == spec_digit(d as int),
{
    match d {
        0 => '0',
        1 => '1',
        2 => '2',
        3 => '3',
        4 => '4',
        5 => '5',
        6 => '6',
        7 => '7',
        8 => '8',
        9 => '9',
        10 => 'a',
        11 => 'b',
        12 => 'c',
        13 => 'd',
        14 => 'e',
        _ => 'f',
    }
}

pub open spec fn spec_digit_of(d: u8) -> char {
    spec_digit(d as int)
}

/// The digits of `n` in positional notation to the given base (2 to 16),
/// the most significant first, without leading zeros.
pub open spec fn numeral(n: nat, base: nat) -> Seq<char>
    decreases n,
{
    if base < 2 || n < base {
        seq![spec_digit(n as int)]
    } else {
        proof {
            lemma_quotient_smaller(n, base);
        }
        numeral(n / base, base).push(spec_digit((n % base) as int))
    }
}

/// Dividing by a base of at least 2 makes a number from the base on
/// smaller.
pub proof fn lemma_quotient_smaller(n: nat, base: nat)
    by (nonlinear_arith)
    requires
        base >= 2,
        n >= base,
    ensures
        n / base < n,
{
}

/// An integer in decimal notation, with a minus sign where it is negative.
pub open spec fn decimal(i: int) -> Seq<char> {
    if i < 0 {
        seq!['-'] + numeral((-i) as nat, 10)
    } else {
        numeral(i as nat, 10)
    }
}

/// Appends the digits of `n` to the given base to `out`.
pub fn put_numeral(out: &mut String, n: u128, base: u128)
    requires
        2 <= base <= 16,
    ensures
        final(out)@ == old(out)@ + numeral(n as nat, base as nat),
    decreases n,
{
    if n >= base {
        proof {
            lemma_quotient_smaller(n as nat, base as nat);
        }
        put_numeral(out, n / base, base);
    }
    let d = (n % base) as u8;
    push_char(out, digit_of(d));
    proof {
        if n < base {
            assert((n as nat) % (base as nat) == n as nat) by (nonlinear_arith)
                requires
                    (n as nat) < (base as nat),
            ;
        }
    }
}

/// Appends `i` in decimal notation to `out`.
pub fn put_decimal(out: &mut String, i: i128)
    requires
        i > i128::MIN,
    ensures
        final(out)@ == old(out)@ + decimal(i as int),
{
    if i < 0 {
        push_char(out, '-');
        put_numeral(out, (-i) as u128, 10);
    } else {
        put_numeral(out, i as u128, 10);
    }
}

/// The three texts one after the other.
pub fn join3(a: &str, b: &str, c: &str) -> (r: String)
    ensures
        r@ == a@ + b@ + c@,
{
    let mut r = String::new();
    r.append(a);
    r.append(b);
    r.append(c);
    r
}

/// The five texts one after the other.
pub fn join5(a: &str, b: &str, c: &str, d: &str, e: &str) -> (r: String)
    ensures
        r@ == a@ + b@ + c@ + d@ + e@,
{
    let mut r = String::new();
    r.append(a);
    r.append(b);
    r.append(c);
    r.append(d);
    r.append(e);
    r
}

/// `n` as exactly `width` hexadecimal digits in lower case: the low
/// `width` digits, with zeros in front where `n` has fewer.
pub open spec fn padded_hex(n: nat, width: nat) -> Seq<char>
    decreases width,
{
    if width == 0 {
        Seq::empty()
    } else {
        padded_hex(n / 16, (width - 1) as nat).push(spec_digit((n % 16) as int))
    }
}

/// Appends `n` as exactly `width` hexadecimal digits to `out`.
pub fn put_padded_hex(out: &mut String, n: u32, width: usize)
    ensures
        final(out)@ == old(out)@ + padded_hex(n as nat, width as nat),
    decreases width,
{
    if width > 0 {
        put_padded_hex(out, n / 16, width - 1);
        let d = (n % 16) as u8;
        push_char(out, digit_of(d));
    }
}

/// How one character stands in ASCII-only text: an ASCII character as
/// itself, any other as a backslash escape of its code: `\x` and two digits
/// below 0x100, `\u` and four digits below 0x10000, `\U` and eight digits
/// from there on.
pub open spec fn escaped(c: char) -> Seq<char> {
    let code = c as u32;
    if code < 0x80 {
        seq![c]
    } else if code < 0x100 {
        seq!['\\', 'x'] + padded_hex(code as nat, 2)
    } else if code < 0x10000 {
        seq!['\\', 'u'] + padded_hex(code as nat, 4)
    } else {
        seq!['\\', 'U'] + padded_hex(code as nat, 8)
    }
}

/// The characters of `s` from position `from` on, each as it stands in
/// ASCII-only text.
pub open spec fn spec_to_ascii(s: Seq<char>, from: int) -> Seq<char>
    decreases s.len() - from,
{
    if from < 0 || from >= s.len() {
        Seq::empty()
    } else {
        escaped(s[from]) + spec_to_ascii(s, from + 1)
    }
}

/// Appends one character as it stands in ASCII-only text.
pub fn put_escaped(out: &mut String, c: char)
    ensures
        final(out)@ == old(out)@ + escaped(c),
{
    let code = c as u32;
    if code < 0x80 {
        push_char(out, c);
    } else if code < 0x100 {
        push_char(out, '\\');
        push_char(out, 'x');
        put_padded_hex(out, code, 2);
    } else if code < 0x10000 {
        push_char(out, '\\');
        push_char(out, 'u');
        put_padded_hex(out, code, 4);
    } else {
        push_char(out, '\\');
        push_char(out, 'U');
        put_padded_hex(out, code, 8);
    }
}

/// The text `value` with every character outside ASCII replaced by its
/// backslash escape.
pub fn to_ascii(value: &str) -> (r: String)
    ensures
        r@ == spec_to_ascii(value@, 0),
{
    let n = value.unicode_len();
    let mut out = String::new();
    let mut i: usize = 0;
    while i < n
        invariant
            i <= n,
            n == value@.len(),
            out@ + spec_to_ascii(value@, i as int) == spec_to_ascii(value@, 0),
        decreases n - i,
    {
        put_escaped(&mut out, value.get_char(i));
        i += 1;
    }
    out
}

/// An integer in positional notation behind a prefix that names the base,
/// with a minus sign in front of the prefix where it is negative.
pub open spec fn prefixed(x: int, prefix: Seq<char>, base: nat) -> Seq<char> {
    if x < 0 {
        seq!['-'] + prefix + numeral((-x) as nat, base)
    } else {
        prefix + numeral(x as nat, base)
    }
}

/// `x` to the given base behind `prefix`.
pub fn with_prefix(x: i64, prefix: &str, base: u128) -> (r: String)
    requires
        2 <= base <= 16,
    ensures
        r@ == prefixed(x as int, prefix@, base as nat),
{
    let mut r = String::new();
    if is_negative(x) {
        push_char(&mut r, '-');
    }
    r.append(prefix);
    put_numeral(&mut r, magnitude(x as i128) as u128, base);
    r
}

} // verus!
