//! Powers of integers: `pow` with and without a modulus.

use vstd::arithmetic::div_mod::lemma_mul_mod_noop_general;
use vstd::arithmetic::power::{
    lemma0_pow, lemma1_pow, lemma_pow0, lemma_pow_mod_noop, lemma_pow_multiplies,
    lemma_square_is_pow2,
};
use vstd::prelude::*;

use crate::error::Error;
use crate::heap::{Heap, INT_TYPE};
use crate::numbers::{distance, floor_mod, lemma_floor_division, lemma_unique_division};
use crate::object::{ObjRef, Payload, PayloadView};
use crate::vm::Vm;

verus! {

/// `b` to the power of `e`: the product of `e` factors `b`.
pub open spec fn raised(b: int, e: nat) -> int {
    vstd::arithmetic::power::pow(b, e)
}

/// The absolute value of an integer.
pub open spec fn abs_of(x: int) -> int {
    if x < 0 {
        -x
    } else {
        x
    }
}

/// One more factor: `b` to the power of `e + 1` is `b` times `b` to the
/// power of `e`.
pub proof fn lemma_power_step(b: int, e: nat)
    ensures
        raised(b, e + 1) == b * raised(b, e),
{
    reveal(vstd::arithmetic::power::pow);
}

/// The powers of -1 are 1 and -1 in turn.
pub proof fn lemma_power_of_minus_one(e: nat)
    ensures
        raised(-1, e) == if e % 2 == 0 {
            1int
        } else {
            -1int
        },
    decreases e,
{
    if e == 0 {
        lemma_pow0(-1);
    } else {
        lemma_power_of_minus_one((e - 1) as nat);
        lemma_power_step(-1, (e - 1) as nat);
    }
}

/// A power of a number that is at least 2 in absolute value at least
/// doubles with every further factor; so once it has left a range around
/// zero it stays outside.
pub proof fn lemma_power_escapes(b: int, k: nat, e: nat, bound: int)
    requires
        abs_of(b) >= 2,
        k <= e,
        bound >= 1,
        abs_of(raised(b, k)) >= bound,
    ensures
        abs_of(raised(b, e)) >= bound,
        k < e ==> abs_of(raised(b, e)) >= 2 * bound,
    decreases e - k,
{
    if k < e {
        lemma_power_escapes(b, k, (e - 1) as nat, bound);
        lemma_power_step(b, (e - 1) as nat);
        let p = raised(b, (e - 1) as nat);
        assert(abs_of(b * p) >= 2 * abs_of(p)) by (nonlinear_arith)
            requires
                abs_of(b) >= 2,
        ;
    }
}

/// `b` to the power of `e`, where it fits the integers of the runtime.
pub fn int_power(b: i64, e: u64) -> (r: Option<i64>)
    ensures
        r == if i64::MIN <= raised(b as int, e as nat) <= i64::MAX {
            Some(raised(b as int, e as nat) as i64)
        } else {
            None
        },
{
    proof {
        lemma_pow0(b as int);
        lemma1_pow(e as nat);
        lemma_power_of_minus_one(e as nat);
        if e > 0 {
            lemma0_pow(e as nat);
        }
    }
    if e == 0 || b == 1 {
        return Some(1);
    }
    if b == 0 {
        return Some(0);
    }
    if b == -1 {
        return Some(
            if e % 2 == 0 {
                1
            } else {
                -1
            },
        );
    }
    let mut acc: i64 = 1;
    let mut i: u64 = 0;
    while i < e
        invariant
            i <= e,
            abs_of(b as int) >= 2,
            acc == raised(b as int, i as nat),
        decreases e - i,
    {
        proof {
            lemma_power_step(b as int, i as nat);
        }
        match acc.checked_mul(b) {
            Some(next) => {
                acc = next;
                i += 1;
            },
            None => {
                proof {
                    let bound = 0x8000_0000_0000_0000int;
                    lemma_power_escapes(b as int, (i + 1) as nat, e as nat, bound);
                }
                return None;
            },
        }
    }
    Some(acc)
}

/// What is left of `b` when it is divided by the positive `modulus`: a
/// number from 0 up to, but not including, the modulus.
pub fn residue(b: i64, modulus: u128) -> (r: u128)
    requires
        0 < modulus <= 0x8000_0000_0000_0000,
    ensures
        r == (b as int) % (modulus as int),
        r < modulus,
{
    let a: u128 = distance(b);
    let rem = a % modulus;
    let quo = a / modulus;
    proof {
        let (ai, mi) = (a as int, modulus as int);
        assert(ai == (ai / mi) * mi + ai % mi && 0 <= ai % mi < mi) by (nonlinear_arith)
            requires
                mi > 0,
        ;
        lemma_floor_division(b as int, mi);
    }
    if b >= 0 || rem == 0 {
        proof {
            let q = if b >= 0 {
                quo as int
            } else {
                -(quo as int)
            };
            assert(b as int == q * (modulus as int) + (if b >= 0 {
                rem as int
            } else {
                0
            })) by (nonlinear_arith)
                requires
                    a as int == (quo as int) * (modulus as int) + rem as int,
                    (b >= 0 && a as int == b as int && q == quo as int) || (b < 0 && rem == 0
                        && a as int == -(b as int) && q == -(quo as int)),
            ;
            lemma_unique_division(b as int, modulus as int, q, rem as int);
        }
        rem
    } else {
        proof {
            let q = -(quo as int) - 1;
            let r = modulus as int - rem as int;
            assert(b as int == q * (modulus as int) + r) by (nonlinear_arith)
                requires
                    a as int == (quo as int) * (modulus as int) + rem as int,
                    a as int == -(b as int),
                    q == -(quo as int) - 1,
                    r == modulus as int - rem as int,
            ;
            lemma_unique_division(b as int, modulus as int, q, r);
        }
        modulus - rem
    }
}

/// Factors that are congruent give congruent products.
pub proof fn lemma_congruent_products(x: int, y: int, z: int, m: int)
    requires
        m > 0,
        y % m == z % m,
    ensures
        (x * y) % m == (x * z) % m,
{
    lemma_mul_mod_noop_general(x, y, m);
    lemma_mul_mod_noop_general(x, z, m);
}

/// One round of squaring: with the base squared and the exponent halved,
/// and the result so far multiplied by the base where the exponent was odd,
/// the product of the result so far and the power that is left stays
/// congruent to what it was.
pub proof fn lemma_square_and_multiply(acc: int, base: int, k: nat, m: int)
    requires
        m > 0,
        k > 0,
    ensures
        ({
            let next = if k % 2 == 1 {
                (acc * base) % m
            } else {
                acc
            };
            (next * raised((base * base) % m, k / 2)) % m == (acc * raised(base, k)) % m
        }),
{
    let half = k / 2;
    let square = base * base;
    // The power of the squared base is the even part of the power.
    lemma_square_is_pow2(base);
    lemma_pow_multiplies(base, 2, half);
    lemma_pow_mod_noop(square, half, m);
    if k % 2 == 1 {
        lemma_power_step(base, 2 * half);
        let next = (acc * base) % m;
        lemma_congruent_products(next, raised(square % m, half), raised(square, half), m);
        lemma_mul_mod_noop_general(acc * base, raised(square, half), m);
        assert((acc * base) * raised(square, half) == acc * (base * raised(square, half)))
            by (nonlinear_arith);
    } else {
        lemma_congruent_products(acc, raised(square % m, half), raised(square, half), m);
    }
}

/// `b` to the power of `e`, reduced by the modulus `m`, which is not 0. The
/// result has the sign of the modulus.
pub fn mod_power(b: i64, e: u64, m: i64) -> (r: i64)
    requires
        m != 0,
    ensures
        r == floor_mod(raised(b as int, e as nat), m as int),
{
    let modulus: u128 = distance(m);
    let mut base: u128 = residue(b, modulus);
    let mut acc: u128 = 1 % modulus;
    let mut k: u64 = e;
    proof {
        lemma_pow_mod_noop(b as int, e as nat, modulus as int);
        lemma_mul_mod_noop_general(1, raised(base as int, e as nat), modulus as int);
    }
    while k > 0
        invariant
            0 < modulus <= 0x8000_0000_0000_0000,
            base < modulus,
            acc < modulus,
            (acc * raised(base as int, k as nat)) % (modulus as int) == raised(b as int, e as nat) % (
            modulus as int),
        decreases k,
    {
        proof {
            lemma_square_and_multiply(acc as int, base as int, k as nat, modulus as int);
            assert(acc * base < 0x4000_0000_0000_0000_0000_0000_0000_0000
                && base * base < 0x4000_0000_0000_0000_0000_0000_0000_0000) by (nonlinear_arith)
                requires
                    acc < 0x8000_0000_0000_0000,
                    base < 0x8000_0000_0000_0000,
            ;
        }
        if k % 2 == 1 {
            acc = acc * base % modulus;
        }
        base = base * base % modulus;
        k = k / 2;
    }
    proof {
        lemma_pow0(base as int);
        lemma_floor_division(raised(b as int, e as nat), m as int);
        let p = raised(b as int, e as nat);
        let mi = modulus as int;
        assert(acc as int == p % mi) by (nonlinear_arith)
            requires
                (acc * 1) % mi == p % mi,
                0 <= acc < mi,
        ;
        assert(p == (p / mi) * mi + p % mi) by (nonlinear_arith)
            requires
                mi > 0,
        ;
        if m < 0 {
            if acc == 0 {
                assert(p == (-(p / mi)) * (m as int) + 0) by (nonlinear_arith)
                    requires
                        p == (p / mi) * mi + 0,
                        mi == -(m as int),
                ;
                lemma_unique_division(p, m as int, -(p / mi), 0);
            } else {
                assert(p == (-(p / mi) - 1) * (m as int) + (acc as int - mi)) by (nonlinear_arith)
                    requires
                        p == (p / mi) * mi + acc as int,
                        mi == -(m as int),
                ;
                lemma_unique_division(p, m as int, -(p / mi) - 1, acc as int - mi);
            }
        }
    }
    if m > 0 {
        acc as i64
    } else if acc == 0 {
        0
    } else {
        (acc as i128 - modulus as i128) as i64
    }
}

impl Heap {
    /// The modulus that `pow` works with: the one given, unless it is the
    /// `None` object.
    pub open spec fn effective_modulus(self, modulus: Option<ObjRef>) -> Option<ObjRef> {
        match modulus {
            Some(m) => if self.payload(m) is NoneValue {
                None
            } else {
                Some(m)
            },
            None => None,
        }
    }

    /// The integer `base` to the power of the integer `exp`, as a new
    /// integer object. Without a modulus the power must fit the integers of
    /// this runtime; with one, which must be an integer other than 0, the
    /// power is reduced by it. The exponent must not be negative.
    pub open spec fn power(self, base: ObjRef, exp: ObjRef, modulus: Option<ObjRef>) -> (
        Heap,
        Result<ObjRef, Error>,
    ) {
        let reduced_by = self.effective_modulus(modulus);
        let unsupported = Error::UnsupportedPow {
            left: self.class_of(base),
            right: self.class_of(exp),
            modulus: match reduced_by {
                Some(m) => Some(self.class_of(m)),
                None => None,
            },
        };
        match (self.integer(base), self.integer(exp)) {
            (Ok(b), Ok(e)) => match reduced_by {
                None => if e < 0 {
                    (self, Err(Error::NegativeExponent))
                } else if i64::MIN <= raised(b as int, e as nat) <= i64::MAX {
                    (
                        self.push(
                            Heap::plain(
                                INT_TYPE,
                                PayloadView::Int(raised(b as int, e as nat) as i64),
                            ),
                        ),
                        Ok(self.next_ref()),
                    )
                } else {
                    (self, Err(Error::IntegerOverflow))
                },
                Some(m) => match self.integer(m) {
                    Err(_) => (self, Err(unsupported)),
                    Ok(by) => if e < 0 {
                        (self, Err(Error::NegativeExponent))
                    } else if by == 0 {
                        (self, Err(Error::ZeroModulus))
                    } else {
                        (
                            self.push(
                                Heap::plain(
                                    INT_TYPE,
                                    PayloadView::Int(
                                        floor_mod(raised(b as int, e as nat), by as int) as i64,
                                    ),
                                ),
                            ),
                            Ok(self.next_ref()),
                        )
                    },
                },
            },
            _ => (self, Err(unsupported)),
        }
    }
}

/// The arguments of `pow`.
#[derive(Clone, Copy, Debug)]
pub struct PowArgs {
    pub base: ObjRef,
    pub exp: ObjRef,
    pub modulus: Option<ObjRef>,
}

/// `base` to the power of `exp`, reduced by `modulus` where one is given.
pub fn pow(args: PowArgs, vm: &mut Vm) -> (r: Result<ObjRef, Error>)
    ensures
        (final(vm)@, r) == old(vm)@.power(args.base, args.exp, args.modulus),
        old(vm)@.leads_to(final(vm)@),
        old(vm)@.intact() && old(vm)@.has(args.base) && old(vm)@.has(args.exp)
            && old(vm)@.has_some(args.modulus)
            ==> final(vm)@.intact() && final(vm)@.has_ok(r),
{
    let PowArgs { base, exp, modulus } = args;
    let reduced_by = match modulus {
        Some(m) => match vm.payload(m) {
            Some(Payload::NoneValue) => None,
            _ => Some(m),
        },
        None => None,
    };
    let unsupported = Error::UnsupportedPow {
        left: vm.class_of(base),
        right: vm.class_of(exp),
        modulus: match reduced_by {
            Some(m) => Some(vm.class_of(m)),
            None => None,
        },
    };
    let (b, e) = match (vm.integer(base), vm.integer(exp)) {
        (Ok(b), Ok(e)) => (b, e),
        _ => {
            return Err(unsupported);
        },
    };
    match reduced_by {
        None => {
            if e < 0 {
                return Err(Error::NegativeExponent);
            }
            match int_power(b, e as u64) {
                Some(p) => Ok(vm.new_int(p)),
                None => Err(Error::IntegerOverflow),
            }
        },
        Some(m) => {
            let by = match vm.integer(m) {
                Ok(by) => by,
                Err(_) => {
                    return Err(unsupported);
                },
            };
            if e < 0 {
                return Err(Error::NegativeExponent);
            }
            if by == 0 {
                return Err(Error::ZeroModulus);
            }
            Ok(vm.new_int(mod_power(b, e as u64, by)))
        },
    }
}

} // verus!
