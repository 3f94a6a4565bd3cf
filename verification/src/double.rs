//! Double precision numbers as bit patterns.
//!
//! Parameter values are IEEE 754 binary64 numbers. They are held here by their bit pattern, and
//! what the rules on parameters ask of them (which of two is the larger one, whether one is a
//! whole number) is computed on that pattern.
use vstd::prelude::*;

verus! {

/// The number of values that the fraction field of a pattern can take.
pub const FRACTION_SPAN: u64 = 0x0010_0000_0000_0000;

/// The number of patterns without a sign.
pub const MAGNITUDE_SPAN: u64 = 0x8000_0000_0000_0000;

/// The exponent field of the infinities and of everything that is not a number.
pub const SPECIAL_EXPONENT: u64 = 0x7ff;

/// A binary64 number, given by its bit pattern.
#[derive(Debug, Clone, Copy, PartialEq, Eq, Structural)]
pub struct Double {
    /// The sign bit, eleven exponent bits and 52 fraction bits, the sign being the highest bit.
    pub bits: u64,
}

/// The absolute value that a pattern without a sign stands for, in units of two to the power of
/// -1074. Every finite number is a whole number of these units. The pattern of infinity comes out
/// above every finite one.
pub open spec fn unsigned_units(magnitude: int) -> int {
    let exponent = magnitude / (FRACTION_SPAN as int);
    let fraction = magnitude % (FRACTION_SPAN as int);
    if exponent == 0 {
        fraction
    } else {
        (FRACTION_SPAN + fraction) * vstd::arithmetic::power2::pow2((exponent - 1) as nat)
    }
}

impl Double {
    /// Whether the sign bit is set.
    pub open spec fn negative(self) -> bool {
        self.bits >= MAGNITUDE_SPAN
    }

    /// The pattern without its sign bit.
    pub open spec fn magnitude(self) -> int {
        self.bits as int % MAGNITUDE_SPAN as int
    }

    /// Whether this is no number at all.
    pub open spec fn is_nan(self) -> bool {
        self.magnitude() > SPECIAL_EXPONENT * FRACTION_SPAN
    }

    /// Whether this is one of the two infinities.
    pub open spec fn is_infinite(self) -> bool {
        self.magnitude() == SPECIAL_EXPONENT * FRACTION_SPAN
    }

    /// The value in units of two to the power of -1074.
    pub open spec fn units(self) -> int {
        if self.negative() {
            -unsigned_units(self.magnitude())
        } else {
            unsigned_units(self.magnitude())
        }
    }

    /// Whether this number is strictly larger than the other one. What is not a number is neither
    /// larger nor smaller than anything.
    pub open spec fn is_above(self, other: Double) -> bool {
        !self.is_nan() && !other.is_nan() && self.units() > other.units()
    }

    /// Whether this number is smaller than the other one or equal to it.
    pub open spec fn is_at_most(self, other: Double) -> bool {
        !self.is_nan() && !other.is_nan() && self.units() <= other.units()
    }

    /// Whether cutting off the digits behind the point changes nothing: the whole numbers, and the
    /// infinities.
    pub open spec fn is_whole(self) -> bool {
        !self.is_nan() && (self.is_infinite() || self.units()
            % vstd::arithmetic::power2::pow2(1074) as int == 0)
    }

    /// Computes the pattern without its sign bit.
    fn clear_sign(self) -> (magnitude: u64)
        ensures
            magnitude == self.magnitude(),
            magnitude < MAGNITUDE_SPAN,
    {
        self.bits % MAGNITUDE_SPAN
    }

    /// Whether this number is strictly larger than the other one.
    pub fn above(self, other: Double) -> (result: bool)
        ensures
            result == self.is_above(other),
    {
        let mine: u64 = self.clear_sign();
        let theirs: u64 = other.clear_sign();
        let limit: u64 = SPECIAL_EXPONENT * FRACTION_SPAN;
        proof {
            law_pattern_order(mine as int, theirs as int);
            law_pattern_order(theirs as int, mine as int);
            law_pattern_order(0, mine as int);
            law_pattern_order(0, theirs as int);
        }
        if mine > limit || theirs > limit {
            false
        } else if mine == 0 && theirs == 0 {
            false
        } else if self.bits >= MAGNITUDE_SPAN {
            other.bits >= MAGNITUDE_SPAN && mine < theirs
        } else {
            other.bits >= MAGNITUDE_SPAN || mine > theirs
        }
    }

    /// Whether this number is smaller than the other one or equal to it.
    pub fn at_most(self, other: Double) -> (result: bool)
        ensures
            result == self.is_at_most(other),
    {
        let limit: u64 = SPECIAL_EXPONENT * FRACTION_SPAN;
        if self.clear_sign() > limit || other.clear_sign() > limit {
            false
        } else {
            !self.above(other)
        }
    }

    /// Whether cutting off the digits behind the point changes nothing.
    pub fn whole(self) -> (result: bool)
        ensures
            result == self.is_whole(),
    {
        let magnitude: u64 = self.clear_sign();
        let exponent: u64 = magnitude / FRACTION_SPAN;
        let fraction: u64 = magnitude % FRACTION_SPAN;
        proof {
            law_whole_patterns(magnitude as int);
            vstd::arithmetic::power2::lemma_pow2_pos(1074);
            lemma_negated_multiple(
                unsigned_units(magnitude as int),
                vstd::arithmetic::power2::pow2(1074) as int,
            );
        }
        if magnitude == 0 {
            true
        } else if exponent < 1023 {
            false
        } else if exponent >= 1075 {
            exponent < SPECIAL_EXPONENT || fraction == 0
        } else {
            let shift: u64 = 1075 - exponent;
            proof {
                vstd::arithmetic::power2::lemma_pow2_pos(shift as nat);
                vstd::arithmetic::power2::lemma2_to64();
                vstd::arithmetic::power2::lemma2_to64_rest();
                if shift < 52 {
                    vstd::arithmetic::power2::lemma_pow2_strictly_increases(shift as nat, 52);
                }
                vstd::bits::lemma_u64_shl_is_mul(1, shift);
            }
            let divisor: u64 = 1u64 << shift;
            (FRACTION_SPAN + fraction) % divisor == 0
        }
    }
}

/// A larger pattern without a sign stands for a larger absolute value.
pub proof fn law_pattern_order(smaller: int, larger: int)
    requires
        0 <= smaller,
        0 <= larger,
    ensures
        smaller < larger ==> unsigned_units(smaller) < unsigned_units(larger),
        0 <= unsigned_units(smaller),
        unsigned_units(0) == 0,
{
    let span = FRACTION_SPAN as int;
    let e1 = smaller / span;
    let f1 = smaller % span;
    let e2 = larger / span;
    let f2 = larger % span;
    vstd::arithmetic::power2::lemma2_to64();
    assert(vstd::arithmetic::power2::pow2(0) == 1);
    if e1 > 0 {
        vstd::arithmetic::power2::lemma_pow2_pos((e1 - 1) as nat);
        let p1 = vstd::arithmetic::power2::pow2((e1 - 1) as nat) as int;
        assert(0 <= (span + f1) * p1) by (nonlinear_arith)
            requires
                span > 0,
                f1 >= 0,
                p1 > 0,
        ;
    }
    if smaller < larger {
        assert(e1 <= e2) by (nonlinear_arith)
            requires
                smaller < larger,
                span > 0,
                e1 == smaller / span,
                e2 == larger / span,
        ;
        if e1 == e2 {
            assert(f1 < f2) by (nonlinear_arith)
                requires
                    smaller < larger,
                    span > 0,
                    e1 == smaller / span,
                    e2 == larger / span,
                    f1 == smaller % span,
                    f2 == larger % span,
                    e1 == e2,
            ;
            if e1 > 0 {
                let p1 = vstd::arithmetic::power2::pow2((e1 - 1) as nat) as int;
                assert((span + f1) * p1 < (span + f2) * p1) by (nonlinear_arith)
                    requires
                        f1 < f2,
                        p1 > 0,
                ;
            }
        } else {
            let p2 = vstd::arithmetic::power2::pow2((e2 - 1) as nat) as int;
            vstd::arithmetic::power2::lemma_pow2_pos((e2 - 1) as nat);
            assert(span * p2 <= (span + f2) * p2) by (nonlinear_arith)
                requires
                    f2 >= 0,
                    p2 > 0,
            ;
            if e1 == 0 {
                assert(f1 < span * p2) by (nonlinear_arith)
                    requires
                        f1 < span,
                        p2 >= 1,
                        span > 0,
                ;
            } else {
                let p1 = vstd::arithmetic::power2::pow2((e1 - 1) as nat) as int;
                vstd::arithmetic::power2::lemma_pow2_unfold(e1 as nat);
                if e1 < e2 - 1 {
                    vstd::arithmetic::power2::lemma_pow2_strictly_increases(
                        e1 as nat,
                        (e2 - 1) as nat,
                    );
                }
                assert((span + f1) * p1 < span * p2) by (nonlinear_arith)
                    requires
                        f1 < span,
                        p1 > 0,
                        2 * p1 <= p2,
                        span > 0,
                ;
            }
        }
    }
}

/// Which patterns without a sign stand for whole numbers: zero, everything from two to the power of
/// 52 on, and what lies between one and there if its lowest fraction bits are zero.
pub proof fn law_whole_patterns(magnitude: int)
    requires
        0 <= magnitude < MAGNITUDE_SPAN,
    ensures
        ({
            let exponent = magnitude / (FRACTION_SPAN as int);
            let fraction = magnitude % (FRACTION_SPAN as int);
            let whole = unsigned_units(magnitude) % (vstd::arithmetic::power2::pow2(1074) as int)
                == 0;
            &&& magnitude == 0 ==> whole
            &&& magnitude > 0 && exponent < 1023 ==> !whole
            &&& exponent >= 1075 ==> whole
            &&& 1023 <= exponent < 1075 ==> (whole <==> (FRACTION_SPAN + fraction)
                % vstd::arithmetic::power2::pow2((1075 - exponent) as nat) as int == 0)
        }),
{
    let span = FRACTION_SPAN as int;
    let exponent = magnitude / span;
    let fraction = magnitude % span;
    let one = vstd::arithmetic::power2::pow2(1074) as int;
    let units = unsigned_units(magnitude);
    vstd::arithmetic::power2::lemma_pow2_pos(1074);
    vstd::arithmetic::power2::lemma2_to64();
    vstd::arithmetic::power2::lemma2_to64_rest();
    if magnitude == 0 {
        vstd::arithmetic::div_mod::lemma_small_mod(0, one as nat);
    } else if exponent < 1023 {
        law_pattern_order(0, magnitude);
        let first = 1023 * span;
        law_pattern_order(magnitude, first);
        assert(magnitude < first) by (nonlinear_arith)
            requires
                exponent == magnitude / span,
                exponent < 1023,
                first == 1023 * span,
                span > 0,
        ;
        assert(first / span == 1023 && first % span == 0) by (nonlinear_arith)
            requires
                first == 1023 * span,
                span > 0,
        ;
        vstd::arithmetic::power2::lemma_pow2_adds(52, 1022);
        assert(unsigned_units(first) == one);
        vstd::arithmetic::div_mod::lemma_small_mod(units as nat, one as nat);
    } else if exponent >= 1075 {
        let rest = vstd::arithmetic::power2::pow2((exponent - 1075) as nat) as int;
        vstd::arithmetic::power2::lemma_pow2_adds(1074, (exponent - 1075) as nat);
        assert(units == ((span + fraction) * rest) * one) by (nonlinear_arith)
            requires
                units == (span + fraction) * (one * rest),
        ;
        vstd::arithmetic::div_mod::lemma_mod_multiples_basic((span + fraction) * rest, one);
    } else if 1023 <= exponent {
        let below = vstd::arithmetic::power2::pow2((exponent - 1) as nat) as int;
        let divisor = vstd::arithmetic::power2::pow2((1075 - exponent) as nat) as int;
        vstd::arithmetic::power2::lemma_pow2_adds((exponent - 1) as nat, (1075 - exponent) as nat);
        vstd::arithmetic::power2::lemma_pow2_pos((exponent - 1) as nat);
        vstd::arithmetic::power2::lemma_pow2_pos((1075 - exponent) as nat);
        vstd::arithmetic::div_mod::lemma_truncate_middle(span + fraction, below, divisor);
        let remainder = (span + fraction) % divisor;
        assert(units == below * (span + fraction)) by (nonlinear_arith)
            requires
                units == (span + fraction) * below,
        ;
        assert(below * remainder == 0 <==> remainder == 0) by (nonlinear_arith)
            requires
                below > 0,
        ;
    }
}

/// A number is a multiple of another one exactly when its negative is.
proof fn lemma_negated_multiple(number: int, divisor: int)
    requires
        divisor > 0,
    ensures
        number % divisor == 0 <==> (-number) % divisor == 0,
{
    vstd::arithmetic::div_mod::lemma_fundamental_div_mod(number, divisor);
    vstd::arithmetic::div_mod::lemma_fundamental_div_mod(-number, divisor);
    if number % divisor == 0 {
        assert(-number == (-(number / divisor)) * divisor) by (nonlinear_arith)
            requires
                number == divisor * (number / divisor),
        ;
        vstd::arithmetic::div_mod::lemma_mod_multiples_basic(-(number / divisor), divisor);
    }
    if (-number) % divisor == 0 {
        assert(number == (-((-number) / divisor)) * divisor) by (nonlinear_arith)
            requires
                -number == divisor * ((-number) / divisor),
        ;
        vstd::arithmetic::div_mod::lemma_mod_multiples_basic(-((-number) / divisor), divisor);
    }
}

/// What the units are: the patterns below twice the fraction span stand for themselves, one step of
/// the exponent doubles the value, and the sign bit negates it.
pub proof fn law_units_of_patterns(number: Double)
    ensures
        number.bits < 0x0020_0000_0000_0000 ==> number.units() == number.bits,
        0x0010_0000_0000_0000 <= number.bits < 0x7ff0_0000_0000_0000 ==> (Double {
            bits: (number.bits + 0x0010_0000_0000_0000) as u64,
        }).units() == 2 * number.units(),
        number.bits < 0x8000_0000_0000_0000 ==> (Double {
            bits: (number.bits + 0x8000_0000_0000_0000) as u64,
        }).units() == -number.units(),
{
    vstd::arithmetic::power2::lemma2_to64();
    let bits = number.bits as int;
    if bits < 0x0020_0000_0000_0000 {
        if bits >= 0x0010_0000_0000_0000 {
            assert(unsigned_units(bits) == (FRACTION_SPAN + (bits - FRACTION_SPAN)) * 1);
        }
    }
    if 0x0010_0000_0000_0000 <= bits < 0x7ff0_0000_0000_0000 {
        let span = FRACTION_SPAN as int;
        let exponent = bits / span;
        let fraction = bits % span;
        let next = bits + span;
        assert(next / span == exponent + 1 && next % span == fraction) by {
            vstd::arithmetic::div_mod::lemma_div_plus_one(bits, span);
            vstd::arithmetic::div_mod::lemma_mod_add_multiples_vanish(bits, span);
        }
        let below = vstd::arithmetic::power2::pow2((exponent - 1) as nat) as int;
        vstd::arithmetic::power2::lemma_pow2_unfold(exponent as nat);
        assert((span + fraction) * (2 * below) == 2 * ((span + fraction) * below))
            by (nonlinear_arith);
    }
}

/// What comparing means: both have to be numbers, and then their values decide. What is not a
/// number has an exponent of all ones and a fraction that is not zero.
pub proof fn law_comparisons(left: Double, right: Double)
    ensures
        left.is_nan() <==> (0x7ff0_0000_0000_0000 < left.bits < 0x8000_0000_0000_0000
            || 0xfff0_0000_0000_0000 < left.bits),
        left.is_above(right) <==> !left.is_nan() && !right.is_nan() && left.units()
            > right.units(),
        left.is_at_most(right) <==> !left.is_nan() && !right.is_nan() && left.units()
            <= right.units(),
        !left.is_nan() && !right.is_nan() ==> (left.is_above(right) <==> !left.is_at_most(right)),
        left.is_above(right) ==> !right.is_above(left),
{
}

/// What whole means: the value is a multiple of one, which is two to the power of 1074 units, or it
/// is infinite.
pub proof fn law_whole_numbers(number: Double)
    ensures
        number.is_whole() <==> !number.is_nan() && (number.bits == 0x7ff0_0000_0000_0000
            || number.bits == 0xfff0_0000_0000_0000 || exists|multiple: int|
            number.units() == #[trigger] (multiple * vstd::arithmetic::power2::pow2(1074))),
{
    let one = vstd::arithmetic::power2::pow2(1074) as int;
    vstd::arithmetic::power2::lemma_pow2_pos(1074);
    let units = number.units();
    vstd::arithmetic::div_mod::lemma_fundamental_div_mod(units, one);
    if units % one == 0 {
        let multiple = units / one;
        assert(one * multiple == multiple * one) by (nonlinear_arith);
        assert(units == multiple * vstd::arithmetic::power2::pow2(1074));
    }
    if exists|multiple: int| units == #[trigger] (multiple * vstd::arithmetic::power2::pow2(1074)) {
        let multiple = choose|multiple: int|
            units == #[trigger] (multiple * vstd::arithmetic::power2::pow2(1074));
        vstd::arithmetic::div_mod::lemma_mod_multiples_basic(multiple, one);
    }
}

} // verus!
