//! The built-in functions on numbers and on the way objects are shown:
//! `abs`, `divmod`, `format`, and the asynchronous `aiter`.

use vstd::prelude::*;

use crate::error::Error;
use crate::heap::{Heap, INT_TYPE, STR_TYPE, TUPLE_TYPE};
use crate::object::{ArgsView, FuncArgs, ObjRef, Payload, PayloadView};
use crate::vm::Vm;

verus! {

/// The method by which an object formats itself.
pub const FORMAT: &'static str = "__format__";

/// The method by which an object gives its asynchronous iterator.
pub const AITER: &'static str = "__aiter__";

/// The quotient of `x` by `y` rounded down, for `y` other than 0.
pub open spec fn floor_div(x: int, y: int) -> int {
    if y > 0 {
        x / y
    } else {
        (-x) / (-y)
    }
}

/// What is left of `x` when `floor_div(x, y)` times `y` is taken away. It
/// has the sign of `y`.
pub open spec fn floor_mod(x: int, y: int) -> int {
    if y > 0 {
        x % y
    } else {
        -((-x) % (-y))
    }
}

/// Division with remainder, rounded down: the quotient times the divisor
/// plus the remainder is the dividend, and the remainder lies between 0 and
/// the divisor, 0 included and the divisor not.
pub proof fn lemma_floor_division(x: int, y: int)
    requires
        y != 0,
    ensures
        x == floor_div(x, y) * y + floor_mod(x, y),
        y > 0 ==> 0 <= floor_mod(x, y) < y,
        y < 0 ==> y < floor_mod(x, y) <= 0,
{
    if y > 0 {
        assert(x == (x / y) * y + x % y && 0 <= x % y < y) by (nonlinear_arith)
            requires
                y > 0,
        ;
    } else {
        let a = -x;
        let b = -y;
        assert(a == (a / b) * b + a % b && 0 <= a % b < b) by (nonlinear_arith)
            requires
                b > 0,
        ;
        assert((a / b) * b == -((a / b) * y)) by (nonlinear_arith)
            requires
                b == -y,
        ;
    }
}

/// The distance of `x` from zero.
pub fn distance(x: i64) -> (r: u128)
    ensures
        r == if x < 0 {
            -(x as int)
        } else {
            x as int
        },
{
    if x < 0 {
        let wide: i128 = x as i128;
        (-wide) as u128
    } else {
        x as u128
    }
}

/// The quotient and the remainder of `x` by `y`, rounded down.
pub fn floor_divmod(x: i64, y: i64) -> (r: (i128, i128))
    requires
        y != 0,
    ensures
        r.0 == floor_div(x as int, y as int),
        r.1 == floor_mod(x as int, y as int),
{
    let a: u128 = distance(x);
    let b: u128 = distance(y);
    let quo = (a / b) as i128;
    let rem = (a % b) as i128;
    proof {
        let ai = a as int;
        let bi = b as int;
        assert(ai == (ai / bi) * bi + ai % bi && 0 <= ai % bi < bi && 0 <= ai / bi <= ai)
            by (nonlinear_arith)
            requires
                bi > 0,
                ai >= 0,
        ;
        lemma_floor_division(x as int, y as int);
    }
    let wide_y = y as i128;
    if (x >= 0) == (y > 0) {
        // Both point the same way: the quotient of the magnitudes is the
        // floor, and the remainder takes the sign of the divisor.
        let r = if y > 0 {
            rem
        } else {
            -rem
        };
        proof {
            lemma_unique_division(x as int, y as int, quo as int, r as int);
        }
        (quo, r)
    } else if rem == 0 {
        proof {
            let (xi, yi, qi, ai, bi) = (x as int, y as int, quo as int, a as int, b as int);
            assert(xi == (-qi) * yi + 0) by (nonlinear_arith)
                requires
                    ai == qi * bi,
                    (ai == xi && bi == -yi) || (ai == -xi && bi == yi),
            ;
            lemma_unique_division(xi, yi, -qi, 0);
        }
        (-quo, 0)
    } else {
        let r = if y > 0 {
            wide_y - rem
        } else {
            wide_y + rem
        };
        proof {
            let (xi, yi, qi, ai, bi) = (x as int, y as int, quo as int, a as int, b as int);
            let (mi, ri) = (rem as int, r as int);
            assert(xi == (-qi - 1) * yi + ri) by (nonlinear_arith)
                requires
                    ai == qi * bi + mi,
                    (ai == xi && bi == -yi && ri == yi + mi) || (ai == -xi && bi == yi && ri == yi
                        - mi),
            ;
            lemma_unique_division(xi, yi, -qi - 1, ri);
        }
        (-quo - 1, r)
    }
}

/// A quotient and a remainder that fit the dividend and the divisor are
/// those of the division rounded down.
pub proof fn lemma_unique_division(x: int, y: int, q: int, r: int)
    requires
        y != 0,
        x == q * y + r,
        y > 0 ==> 0 <= r < y,
        y < 0 ==> y < r <= 0,
    ensures
        q == floor_div(x, y),
        r == floor_mod(x, y),
{
    lemma_floor_division(x, y);
    let q2 = floor_div(x, y);
    let r2 = floor_mod(x, y);
    assert((q - q2) * y == r2 - r) by (nonlinear_arith)
        requires
            x == q * y + r,
            x == q2 * y + r2,
    ;
    assert(q == q2) by (nonlinear_arith)
        requires
            (q - q2) * y == r2 - r,
            y != 0,
            y > 0 ==> -y < r2 - r < y,
            y < 0 ==> y < r2 - r < -y,
    ;
}

impl Heap {
    /// The absolute value of the integer that `x` holds, as a new integer
    /// object. It must fit the integers of this runtime.
    pub open spec fn absolute(self, x: ObjRef) -> (Heap, Result<ObjRef, Error>) {
        match self.integer(x) {
            Ok(v) => if v == i64::MIN {
                (self, Err(Error::IntegerOverflow))
            } else {
                (
                    self.push(
                        Heap::plain(
                            INT_TYPE,
                            PayloadView::Int(
                                if v < 0 {
                                    (-v) as i64
                                } else {
                                    v
                                },
                            ),
                        ),
                    ),
                    Ok(self.next_ref()),
                )
            },
            Err(_) => (self, Err(Error::BadOperand { class: self.class_of(x) })),
        }
    }

    /// The quotient and the remainder of the integers that `a` and `b`
    /// hold, rounded down, as a new tuple of two new integer objects. The
    /// divisor must not be 0 and the quotient must fit the integers of this
    /// runtime.
    pub open spec fn divmod(self, a: ObjRef, b: ObjRef) -> (Heap, Result<ObjRef, Error>) {
        match (self.integer(a), self.integer(b)) {
            (Ok(x), Ok(y)) => if y == 0 {
                (self, Err(Error::DivisionByZero))
            } else if floor_div(x as int, y as int) > i64::MAX {
                (self, Err(Error::IntegerOverflow))
            } else {
                let q = self.next_ref();
                let h1 = self.push(
                    Heap::plain(
                        INT_TYPE,
                        PayloadView::Int(floor_div(x as int, y as int) as i64),
                    ),
                );
                let r = h1.next_ref();
                let h2 = h1.push(
                    Heap::plain(
                        INT_TYPE,
                        PayloadView::Int(floor_mod(x as int, y as int) as i64),
                    ),
                );
                (
                    h2.push(Heap::plain(TUPLE_TYPE, PayloadView::Tuple(seq![q, r]))),
                    Ok(h2.next_ref()),
                )
            },
            _ => (
                self,
                Err(Error::UnsupportedDivmod { left: self.class_of(a), right: self.class_of(b) }),
            ),
        }
    }
}

/// The absolute value of `x`.
pub fn abs(x: ObjRef, vm: &mut Vm) -> (r: Result<ObjRef, Error>)
    ensures
        (final(vm)@, r) == old(vm)@.absolute(x),
        old(vm)@.leads_to(final(vm)@),
        old(vm)@.intact() && old(vm)@.has(x) ==> final(vm)@.intact() && final(vm)@.has_ok(r),
{
    match vm.integer(x) {
        Ok(v) => if v == i64::MIN {
            Err(Error::IntegerOverflow)
        } else {
            let m: i64 = if v < 0 {
                -v
            } else {
                v
            };
            Ok(vm.new_int(m))
        },
        Err(_) => Err(Error::BadOperand { class: vm.class_of(x) }),
    }
}

/// The quotient and the remainder of `a` by `b`, rounded down.
pub fn divmod(a: ObjRef, b: ObjRef, vm: &mut Vm) -> (r: Result<ObjRef, Error>)
    ensures
        (final(vm)@, r) == old(vm)@.divmod(a, b),
        old(vm)@.leads_to(final(vm)@),
        old(vm)@.intact() && old(vm)@.has(a) && old(vm)@.has(b)
            ==> final(vm)@.intact() && final(vm)@.has_ok(r),
{
    match (vm.integer(a), vm.integer(b)) {
        (Ok(x), Ok(y)) => {
            if y == 0 {
                return Err(Error::DivisionByZero);
            }
            let (quo, rem) = floor_divmod(x, y);
            proof {
                lemma_floor_division(x as int, y as int);
                lemma_quotient_bounded(x as int, y as int);
            }
            if quo > i64::MAX as i128 {
                return Err(Error::IntegerOverflow);
            }
            let q = vm.new_int(quo as i64);
            let r = vm.new_int(rem as i64);
            let mut pair: Vec<ObjRef> = Vec::new();
            pair.push(q);
            pair.push(r);
            assert(pair@ =~= seq![q, r]);
            Ok(vm.new_tuple(pair))
        },
        _ => Err(Error::UnsupportedDivmod { left: vm.class_of(a), right: vm.class_of(b) }),
    }
}

/// The quotient of two integers of the runtime is never below its least
/// integer, and no remainder is out of its range.
pub proof fn lemma_quotient_bounded(x: int, y: int)
    requires
        y != 0,
        i64::MIN <= x <= i64::MAX,
        i64::MIN <= y <= i64::MAX,
    ensures
        i64::MIN <= floor_div(x, y),
        floor_div(x, y) <= i64::MAX + 1,
        i64::MIN <= floor_mod(x, y) <= i64::MAX,
{
    lemma_floor_division(x, y);
    let q = floor_div(x, y);
    let r = floor_mod(x, y);
    assert(i64::MIN <= q <= i64::MAX + 1) by (nonlinear_arith)
        requires
            x == q * y + r,
            y != 0,
            y > 0 ==> 0 <= r < y,
            y < 0 ==> y < r <= 0,
            i64::MIN <= x <= i64::MAX,
            i64::MIN <= y <= i64::MAX,
    ;
}

impl Heap {
    /// How an object without a `__format__` method of its own is formatted:
    /// with the empty format, or none, as a new string of how it is shown,
    /// and not at all with any other format.
    pub open spec fn format_plainly(self, value: ObjRef, format_spec: Option<ObjRef>) -> (
        Heap,
        Result<ObjRef, Error>,
    ) {
        let plain = match format_spec {
            None => true,
            Some(f) => self.payload(f) == PayloadView::Str(Seq::empty()),
        };
        if plain {
            (
                self.push(Heap::plain(STR_TYPE, PayloadView::Str(self.display(value)))),
                Ok(self.next_ref()),
            )
        } else {
            (self, Err(Error::UnsupportedFormat { class: self.class_of(value) }))
        }
    }

    /// What a `__format__` method made: it must be a string.
    pub open spec fn formatted(self, made: Result<ObjRef, Error>) -> Result<ObjRef, Error> {
        match made {
            Ok(text) => if self.payload(text) is Str {
                Ok(text)
            } else {
                Err(Error::FormatNotString { class: self.class_of(text) })
            },
            Err(e) => Err(e),
        }
    }

    /// How `value` is formatted. Where its type or an ancestor defines
    /// `__format__` and the format is a string or left out, that method is
    /// called on the value and the format (a new empty string where it is
    /// left out), and what it returns must be a string. Any other object is
    /// formatted plainly.
    pub open spec fn format(self, value: ObjRef, format_spec: Option<ObjRef>) -> (
        Heap,
        Result<ObjRef, Error>,
    ) {
        let textual = match format_spec {
            None => true,
            Some(f) => self.payload(f) is Str,
        };
        match self.class_attr(self.class_of(value), FORMAT@) {
            Some(method) => if textual {
                let (h0, given) = match format_spec {
                    Some(f) => (self, f),
                    None => (
                        self.push(Heap::plain(STR_TYPE, PayloadView::Str(Seq::empty()))),
                        self.next_ref(),
                    ),
                };
                let (h, made) = h0.call(method, ArgsView::positional(seq![value, given]));
                (h, h.formatted(made))
            } else {
                self.format_plainly(value, format_spec)
            },
            None => self.format_plainly(value, format_spec),
        }
    }

    /// The asynchronous iterator of `o`: what its `__aiter__` method
    /// returns when called on it.
    pub open spec fn aiter_of(self, o: ObjRef) -> (Heap, Result<ObjRef, Error>) {
        match self.class_attr(self.class_of(o), AITER@) {
            Some(method) => self.call(method, ArgsView::positional(seq![o])),
            None => (self, Err(Error::NotAsyncIterable { class: self.class_of(o) })),
        }
    }
}

fn format_plainly(value: ObjRef, format_spec: Option<ObjRef>, vm: &mut Vm) -> (r: Result<
    ObjRef,
    Error,
>)
    ensures
        (final(vm)@, r) == old(vm)@.format_plainly(value, format_spec),
        old(vm)@.leads_to(final(vm)@),
        old(vm)@.intact() ==> final(vm)@.intact() && final(vm)@.has_ok(r),
{
    let plain = match format_spec {
        None => true,
        Some(f) => match vm.payload(f) {
            Some(Payload::Str(s)) => {
                assert(s@.len() == 0 ==> s@ =~= Seq::<char>::empty());
                s.as_str().unicode_len() == 0
            },
            _ => false,
        },
    };
    if plain {
        let shown = vm.display(value);
        Ok(vm.new_str(shown.as_str()))
    } else {
        Err(Error::UnsupportedFormat { class: vm.class_of(value) })
    }
}

/// `value` formatted as `format_spec` says.
pub fn format(value: ObjRef, format_spec: Option<ObjRef>, vm: &mut Vm) -> (r: Result<
    ObjRef,
    Error,
>)
    ensures
        (final(vm)@, r) == old(vm)@.format(value, format_spec),
        old(vm)@.leads_to(final(vm)@),
        old(vm)@.intact() && old(vm)@.has(value) && old(vm)@.has_some(format_spec)
            ==> final(vm)@.intact() && final(vm)@.has_ok(r),
{
    let textual = match format_spec {
        None => true,
        Some(f) => match vm.payload(f) {
            Some(Payload::Str(_)) => true,
            _ => false,
        },
    };
    match vm.class_attr(vm.class_of(value), FORMAT) {
        Some(method) => if textual {
            proof {
                reveal_strlit("");
                assert(""@ =~= Seq::<char>::empty());
            }
            let given = match format_spec {
                Some(f) => f,
                None => vm.new_str(""),
            };
            let mut positional: Vec<ObjRef> = Vec::new();
            positional.push(value);
            positional.push(given);
            let args = FuncArgs { args: positional, kwargs: Vec::new() };
            assert(args@.args =~= seq![value, given]);
            assert(args@.kwargs =~= Seq::empty());
            match vm.call(method, &args) {
                Ok(text) => {
                    let is_text = match vm.payload(text) {
                        Some(Payload::Str(_)) => true,
                        _ => false,
                    };
                    if is_text {
                        Ok(text)
                    } else {
                        Err(Error::FormatNotString { class: vm.class_of(text) })
                    }
                },
                Err(e) => Err(e),
            }
        } else {
            format_plainly(value, format_spec, vm)
        },
        None => format_plainly(value, format_spec, vm),
    }
}

/// The asynchronous iterator of `iter_target`.
pub fn aiter(iter_target: ObjRef, vm: &mut Vm) -> (r: Result<ObjRef, Error>)
    ensures
        (final(vm)@, r) == old(vm)@.aiter_of(iter_target),
        old(vm)@.leads_to(final(vm)@),
        old(vm)@.intact() && old(vm)@.has(iter_target)
            ==> final(vm)@.intact() && final(vm)@.has_ok(r),
{
    match vm.class_attr(vm.class_of(iter_target), AITER) {
        Some(method) => {
            let mut positional: Vec<ObjRef> = Vec::new();
            positional.push(iter_target);
            let args = FuncArgs { args: positional, kwargs: Vec::new() };
            vm.call(method, &args)
        },
        None => Err(Error::NotAsyncIterable { class: vm.class_of(iter_target) }),
    }
}

} // verus!
