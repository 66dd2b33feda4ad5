//! Numbers as the calculator holds them: IEEE-754 binary64 values, each by its
//! bit pattern.

use vstd::prelude::*;
use vstd::arithmetic::div_mod::lemma_small_mod;
use vstd::arithmetic::power2::{
    lemma2_to64,
    lemma2_to64_rest,
    lemma_pow2_pos,
    lemma_pow2_strictly_increases,
    lemma_pow2_unfold,
    pow2,
};

verus! {

/// The bit that holds the sign of a binary64 value.
pub const SIGN_BIT: u64 = 0x8000_0000_0000_0000;

/// The bit pattern of positive infinity: every exponent bit set, no fraction bit.
pub const INFINITY_BITS: u64 = 0x7ff0_0000_0000_0000;

/// Two to the power of fifty-two: one more than the largest fraction field.
pub const FRACTION_SPAN: u64 = 0x10_0000_0000_0000;

/// An IEEE-754 binary64 value, held by its bit pattern: one sign bit, eleven
/// exponent bits and fifty-two fraction bits, from the highest bit down.
#[derive(Debug, Clone, Copy, PartialEq, Eq, Structural)]
pub struct Number {
    pub bits: u64,
}

impl Number {
    /// The bit pattern with its sign bit cleared.
    pub open spec fn magnitude_bits(self) -> u64 {
        if self.bits >= SIGN_BIT {
            (self.bits - SIGN_BIT) as u64
        } else {
            self.bits
        }
    }

    /// Positive or negative zero.
    pub open spec fn zero(self) -> bool {
        self.magnitude_bits() == 0
    }

    /// Positive or negative infinity.
    pub open spec fn infinite(self) -> bool {
        self.magnitude_bits() == INFINITY_BITS
    }

    /// Not a number: every exponent bit set and some fraction bit set.
    pub open spec fn nan(self) -> bool {
        self.magnitude_bits() > INFINITY_BITS
    }

    /// Neither infinite nor not-a-number.
    pub open spec fn finite(self) -> bool {
        self.magnitude_bits() < INFINITY_BITS
    }

    /// Whether the sign bit is set.
    pub open spec fn negative(self) -> bool {
        self.bits >= SIGN_BIT
    }

    /// The eleven exponent bits, as a number.
    pub open spec fn exponent_field(self) -> nat {
        (self.magnitude_bits() / FRACTION_SPAN) as nat
    }

    /// The fifty-two fraction bits, as a number.
    pub open spec fn fraction_field(self) -> nat {
        (self.magnitude_bits() % FRACTION_SPAN) as nat
    }

    /// The significand of a finite number: its fraction bits, below an
    /// implicit leading one unless the exponent field is zero.
    pub open spec fn significand(self) -> nat {
        if self.exponent_field() == 0 {
            self.fraction_field()
        } else {
            FRACTION_SPAN as nat + self.fraction_field()
        }
    }

    /// The power of two that scales the significand of a finite number: its
    /// magnitude is `significand() * 2^scale()`.
    pub open spec fn scale(self) -> int {
        if self.exponent_field() == 0 {
            -1074
        } else {
            self.exponent_field() - 1075
        }
    }

    /// The magnitude of a finite number without a fractional part; `None` for
    /// every other number.
    pub open spec fn whole_magnitude(self) -> Option<nat> {
        if !self.finite() {
            None
        } else if self.scale() >= 0 {
            Some(self.significand() * pow2(self.scale() as nat))
        } else if self.significand() % pow2((-self.scale()) as nat) == 0 {
            Some(self.significand() / pow2((-self.scale()) as nat))
        } else {
            None
        }
    }

    /// This number as a 64-bit signed integer: its value, where that is a whole
    /// number within the range of the type; the largest value of the type for
    /// two to the power of sixty-three, the one whole number beyond the range
    /// that the conversion to the type and back gives again; `None` for every
    /// other number. Either zero is the integer zero.
    pub open spec fn integer(self) -> Option<int> {
        match self.whole_magnitude() {
            Some(magnitude) if magnitude <= SIGN_BIT => Some(
                if self.negative() {
                    -(magnitude as int)
                } else if magnitude == SIGN_BIT {
                    i64::MAX as int
                } else {
                    magnitude as int
                },
            ),
            _ => None,
        }
    }

    /// The number with the given bit pattern.
    pub fn from_bits(bits: u64) -> (number: Self)
        ensures
            number.bits == bits,
    {
        Number { bits }
    }

    /// The bit pattern of this number.
    pub fn to_bits(self) -> (bits: u64)
        ensures
            bits == self.bits,
    {
        self.bits
    }

    /// Positive zero.
    pub fn positive_zero() -> (number: Self)
        ensures
            number.bits == 0,
            number.zero(),
    {
        Number { bits: 0 }
    }

    fn magnitude(self) -> (magnitude: u64)
        ensures
            magnitude == self.magnitude_bits(),
    {
        if self.bits >= SIGN_BIT {
            self.bits - SIGN_BIT
        } else {
            self.bits
        }
    }

    /// Whether this number is positive or negative zero.
    #[verifier::when_used_as_spec(zero)]
    pub fn is_zero(self) -> (yes: bool)
        ensures
            yes == self.zero(),
    {
        self.magnitude() == 0
    }

    /// Whether this number is positive or negative infinity.
    #[verifier::when_used_as_spec(infinite)]
    pub fn is_infinite(self) -> (yes: bool)
        ensures
            yes == self.infinite(),
    {
        self.magnitude() == INFINITY_BITS
    }

    /// Whether this number is not-a-number.
    #[verifier::when_used_as_spec(nan)]
    pub fn is_nan(self) -> (yes: bool)
        ensures
            yes == self.nan(),
    {
        self.magnitude() > INFINITY_BITS
    }

    /// Whether this number is neither infinite nor not-a-number.
    #[verifier::when_used_as_spec(finite)]
    pub fn is_finite(self) -> (yes: bool)
        ensures
            yes == self.finite(),
    {
        self.magnitude() < INFINITY_BITS
    }

    /// This number as a 64-bit signed integer, where it is a whole number that
    /// the conversion to that type and back gives again.
    pub fn to_integer(self) -> (whole: Option<i64>)
        ensures
            match whole {
                Some(k) => self.integer() == Some(k as int),
                None => self.integer() is None,
            },
    {
        let magnitude: u64 = self.magnitude();
        if magnitude >= INFINITY_BITS {
            return None;
        }
        let exponent: u64 = magnitude / FRACTION_SPAN;
        let fraction: u64 = magnitude % FRACTION_SPAN;
        let significand: u64 = if exponent == 0 {
            fraction
        } else {
            FRACTION_SPAN + fraction
        };
        proof {
            lemma2_to64();
            lemma2_to64_rest();
            assert(exponent == self.exponent_field());
            assert(significand == self.significand());
            assert(exponent < 2047);
        }
        let whole: u64 = if exponent >= 1075 {
            let shift: u64 = exponent - 1075;
            if shift > 11 {
                proof {
                    if shift > 12 {
                        lemma_pow2_strictly_increases(12, shift as nat);
                    }
                    assert(significand * pow2(shift as nat) > SIGN_BIT) by (nonlinear_arith)
                        requires
                            significand >= 0x10_0000_0000_0000,
                            pow2(shift as nat) >= 0x1000,
                    ;
                }
                return None;
            }
            if shift == 11 {
                proof {
                    assert(pow2(11) == 0x800);
                    assert(significand * 0x800 == SIGN_BIT <==> significand == FRACTION_SPAN)
                        by (nonlinear_arith)
                        requires
                            significand >= 0x10_0000_0000_0000,
                    ;
                    assert(significand * 0x800 >= SIGN_BIT) by (nonlinear_arith)
                        requires
                            significand >= 0x10_0000_0000_0000,
                    ;
                }
                if significand != FRACTION_SPAN {
                    return None;
                }
                return if self.bits >= SIGN_BIT {
                    Some(i64::MIN)
                } else {
                    Some(i64::MAX)
                };
            }
            let power: u64 = power_of_two(shift);
            proof {
                if shift < 10 {
                    lemma_pow2_strictly_increases(shift as nat, 10);
                }
                assert(significand * power < SIGN_BIT) by (nonlinear_arith)
                    requires
                        significand < 0x20_0000_0000_0000,
                        power <= 0x400,
                ;
            }
            significand * power
        } else {
            let shift: u64 = if exponent == 0 {
                1074
            } else {
                1075 - exponent
            };
            if shift > 52 {
                proof {
                    if shift > 53 {
                        lemma_pow2_strictly_increases(53, shift as nat);
                    }
                    lemma_small_mod(significand as nat, pow2(shift as nat));
                }
                if significand != 0 {
                    return None;
                }
                0
            } else {
                let power: u64 = power_of_two(shift);
                if significand % power != 0 {
                    return None;
                }
                significand / power
            }
        };
        if self.bits >= SIGN_BIT {
            Some(-(whole as i64))
        } else {
            Some(whole as i64)
        }
    }
}

/// Two to the power of `exponent`.
fn power_of_two(exponent: u64) -> (power: u64)
    requires
        exponent <= 63,
    ensures
        power == pow2(exponent as nat),
{
    let mut power: u64 = 1;
    let mut done: u64 = 0;
    proof {
        lemma2_to64();
    }
    while done < exponent
        invariant
            done <= exponent <= 63,
            power == pow2(done as nat),
        decreases exponent - done,
    {
        proof {
            lemma2_to64();
            lemma2_to64_rest();
            lemma_pow2_unfold((done + 1) as nat);
            lemma_pow2_strictly_increases((done + 1) as nat, 64);
        }
        power = power * 2;
        done += 1;
    }
    power
}

/// Every number is exactly one of finite, infinite and not-a-number, and a
/// zero is finite.
pub proof fn classes_partition(number: Number)
    ensures
        number.finite() || number.infinite() || number.nan(),
        !(number.finite() && number.infinite()),
        !(number.finite() && number.nan()),
        !(number.infinite() && number.nan()),
        number.zero() ==> number.finite(),
{
}

/// Either zero is the integer zero, and a number that is an integer is finite.
pub proof fn zero_is_an_integer(number: Number)
    ensures
        number.zero() ==> number.integer() == Some(0int),
        number.integer() is Some ==> number.finite(),
{
    lemma_pow2_pos(1074);
}

} // verus!
