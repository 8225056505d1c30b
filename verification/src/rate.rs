//! Sampling rates. A rate is a double-precision number, held by its bits and
//! compared exactly by its value.

use vstd::arithmetic::power2::*;
use vstd::prelude::*;

verus! {

/// The bit that carries the sign of a rate.
pub const SIGN: u64 = 0x8000_0000_0000_0000;

/// The size bits of an infinite rate; greater ones belong to no number.
pub const INFINITE: u64 = 0x7ff0_0000_0000_0000;

/// The size bits of the rate 1.
pub const ONE: u64 = 0x3ff0_0000_0000_0000;

/// How many sizes share one exponent.
pub const BINADE: u64 = 0x10_0000_0000_0000;

/// The bits of the rate -1, which asks for the default rate.
pub const AUTO_BITS: u64 = 0xbff0_0000_0000_0000;

/// The bits of the rate 0.10.
pub const DEFAULT_BITS: u64 = 0x3fb9_9999_9999_999a;

/// A double-precision number in its IEEE 754 binary64 encoding.
#[derive(Debug, Clone, Copy)]
pub struct Rate {
    pub bits: u64,
}

/// The size that the exponent and fraction bits `m` write, in units of
/// 2<sup>-1074</sup>.
pub open spec fn size_units(m: nat) -> nat {
    let exponent = m / BINADE as nat;
    let fraction = m % BINADE as nat;
    if exponent == 0 {
        fraction
    } else {
        (BINADE + fraction) as nat * pow2((exponent - 1) as nat)
    }
}

/// The number 1 in units of 2<sup>-1074</sup>.
pub open spec fn one_units() -> nat {
    pow2(1074)
}

/// The fraction that a random word stands for, in units of
/// 2<sup>-1074</sup>: its upper 53 bits over 2<sup>53</sup>.
pub open spec fn draw_units(draw: u64) -> nat {
    (draw / 2048) as nat * pow2(1021)
}

impl Rate {
    /// The bits without the sign.
    pub open spec fn size_bits(self) -> nat {
        (self.bits % SIGN) as nat
    }

    /// The bits belong to no number.
    pub open spec fn not_a_number(self) -> bool {
        self.size_bits() > INFINITE
    }

    /// The exact value of the rate in units of 2<sup>-1074</sup>.
    pub open spec fn units(self) -> int {
        if self.bits >= SIGN {
            -size_units(self.size_bits())
        } else {
            size_units(self.size_bits()) as int
        }
    }

    /// The rate is below zero, so it asks for the default rate.
    pub open spec fn below_zero(self) -> bool {
        !self.not_a_number() && self.units() < 0
    }

    /// The rate is a number from -1 to 1.
    pub open spec fn in_range(self) -> bool {
        !self.not_a_number() && -one_units() <= self.units() <= one_units()
    }

    /// The rate is greater than the fraction that `draw` stands for.
    pub open spec fn exceeds(self, draw: u64) -> bool {
        !self.not_a_number() && draw_units(draw) < self.units()
    }

    /// The rate is at least 1.
    pub open spec fn at_least_one(self) -> bool {
        !self.not_a_number() && self.units() >= one_units()
    }

    /// The rate is at most 0.
    pub open spec fn at_most_zero(self) -> bool {
        !self.not_a_number() && self.units() <= 0
    }
}

/// Greater bits write a greater size.
pub proof fn size_grows_with_its_bits(a: nat, b: nat)
    requires
        a < b,
    ensures
        size_units(a) < size_units(b),
{
    let n = BINADE as nat;
    let (ea, fa) = (a / n, a % n);
    let (eb, fb) = (b / n, b % n);
    if ea == eb {
        if ea > 0 {
            lemma_pow2_pos((ea - 1) as nat);
            vstd::arithmetic::mul::lemma_mul_strict_inequality(
                (n + fa) as int,
                (n + fb) as int,
                pow2((ea - 1) as nat) as int,
            );
        }
    } else {
        assert(ea < eb);
        let pb = pow2((eb - 1) as nat);
        lemma_pow2_pos((eb - 1) as nat);
        assert(size_units(b) >= n * pb) by (nonlinear_arith)
            requires
                size_units(b) == (n + fb) as nat * pb,
                fb >= 0,
        ;
        if ea == 0 {
            assert(n * pb >= n) by (nonlinear_arith)
                requires
                    pb >= 1,
            ;
        } else {
            let pa = pow2((ea - 1) as nat);
            lemma_pow2_pos((ea - 1) as nat);
            lemma_pow2_unfold(ea);
            if ea < eb - 1 {
                lemma_pow2_strictly_increases(ea, (eb - 1) as nat);
            }
            assert(2 * pa <= pb);
            assert(size_units(a) < n * pb) by (nonlinear_arith)
                requires
                    size_units(a) == (n + fa) as nat * pa,
                    fa < n,
                    2 * pa <= pb,
                    pa > 0,
                    n > 0,
            ;
        }
    }
}

proof fn lemma_one()
    ensures
        size_units(ONE as nat) == one_units(),
        size_units(0) == 0,
{
    assert(ONE as nat / BINADE as nat == 1023);
    assert(ONE as nat % BINADE as nat == 0);
    lemma_pow2_adds(52, 1022);
    lemma2_to64();
    assert(pow2(52) == BINADE) by {
        lemma2_to64_rest();
    }
}

impl Rate {
    /// A rate of at least 1 exceeds every draw.
    pub proof fn full_rate_exceeds_every_draw(self, draw: u64)
        requires
            self.at_least_one(),
        ensures
            self.exceeds(draw),
    {
        lemma_draw_below_one(draw);
    }

    /// A rate of at most 0 exceeds no draw, and neither do bits that belong to
    /// no number.
    pub proof fn empty_rate_exceeds_no_draw(self, draw: u64)
        requires
            self.at_most_zero() || self.not_a_number(),
        ensures
            !self.exceeds(draw),
    {
    }

    /// What a rate exceeds, a greater rate exceeds.
    pub proof fn greater_rate_exceeds_more(self, other: Rate, draw: u64)
        requires
            self.exceeds(draw),
            !other.not_a_number(),
            self.units() <= other.units(),
        ensures
            other.exceeds(draw),
    {
    }

    /// A rate that exceeds a draw exceeds every smaller one.
    pub proof fn smaller_draw_is_exceeded(self, draw: u64, smaller: u64)
        requires
            self.exceeds(draw),
            smaller <= draw,
        ensures
            self.exceeds(smaller),
    {
        let (a, b) = ((smaller / 2048) as nat, (draw / 2048) as nat);
        vstd::arithmetic::mul::lemma_mul_inequality(a as int, b as int, pow2(1021) as int);
    }

    /// Whether the rate is below zero.
    pub fn is_below_zero(&self) -> (yes: bool)
        ensures
            yes == self.below_zero(),
    {
        let size: u64 = self.bits % SIGN;
        proof {
            lemma_one();
            if size > 0 {
                size_grows_with_its_bits(0, size as nat);
            }
        }
        size <= INFINITE && self.bits >= SIGN && size > 0
    }

    /// Whether the rate is at least 1.
    pub fn is_at_least_one(&self) -> (yes: bool)
        ensures
            yes == self.at_least_one(),
    {
        let size: u64 = self.bits % SIGN;
        proof {
            lemma_one();
            lemma_pow2_pos(1074);
            size_compares_with_one_as_its_bits(size as nat);
        }
        size <= INFINITE && self.bits < SIGN && size >= ONE
    }

    /// Whether the rate is at most 0.
    pub fn is_at_most_zero(&self) -> (yes: bool)
        ensures
            yes == self.at_most_zero(),
    {
        let size: u64 = self.bits % SIGN;
        proof {
            lemma_one();
            if size > 0 {
                size_grows_with_its_bits(0, size as nat);
            }
        }
        size <= INFINITE && (self.bits >= SIGN || size == 0)
    }

    /// Whether the rate is a number from -1 to 1.
    pub fn is_in_range(&self) -> (yes: bool)
        ensures
            yes == self.in_range(),
    {
        let size: u64 = self.bits % SIGN;
        proof {
            lemma_one();
            size_compares_with_one_as_its_bits(size as nat);
        }
        size <= ONE
    }

    /// Whether the rate is greater than the fraction that `draw` stands for.
    pub fn is_above(&self, draw: u64) -> (yes: bool)
        ensures
            yes == self.exceeds(draw),
    {
        if self.is_at_least_one() {
            proof {
                self.full_rate_exceeds_every_draw(draw);
            }
            return true;
        }
        let size: u64 = self.bits % SIGN;
        if size > INFINITE || self.is_at_most_zero() {
            return false;
        }
        let exponent: u64 = size / BINADE;
        let fraction: u64 = size % BINADE;
        let significand: u64 = if exponent == 0 {
            fraction
        } else {
            BINADE + fraction
        };
        let scale: u64 = if exponent == 0 {
            0
        } else {
            exponent - 1
        };
        let word: u64 = draw / 2048;
        proof {
            lemma_one();
            size_compares_with_one_as_its_bits(size as nat);
            lemma2_to64();
            assert(self.units() == significand as nat * pow2(scale as nat)) by {
                assert(fraction as nat * 1 == fraction);
            }
            assert(scale <= 1021);
            lemma_scaled_comparison(
                word as nat,
                significand as nat,
                scale as nat,
                (1021 - scale) as nat,
            );
        }
        let gap: u64 = 1021 - scale;
        if word == 0 {
            assert(0 * pow2(gap as nat) == 0);
            return true;
        }
        if gap >= 53 {
            proof {
                lemma_wide_gap(word as nat, gap as nat);
            }
            return false;
        }
        let factor: u128 = power_of_two(gap);
        assert(word * factor <= 0x20_0000_0000_0000 * 0x20_0000_0000_0000) by (nonlinear_arith)
            requires
                word < 0x20_0000_0000_0000,
                factor < 0x20_0000_0000_0000,
        ;
        (word as u128) * factor < significand as u128
    }
}

/// `2` to the power of `n`.
fn power_of_two(n: u64) -> (p: u128)
    requires
        n < 53,
    ensures
        p == pow2(n as nat),
        p < 0x20_0000_0000_0000,
{
    let mut p: u128 = 1;
    let mut i: u64 = 0;
    proof {
        lemma2_to64();
    }
    while i < n
        invariant
            i <= n < 53,
            p == pow2(i as nat),
            p < 0x20_0000_0000_0000,
        decreases n - i,
    {
        proof {
            lemma_pow2_unfold((i + 1) as nat);
            lemma2_to64_rest();
            if i + 1 < 53 {
                lemma_pow2_strictly_increases((i + 1) as nat, 53);
            }
        }
        p = p * 2;
        i = i + 1;
    }
    p
}

/// A size is at least 1, or greater than 1, where its bits are against those of 1.
pub proof fn size_compares_with_one_as_its_bits(size: nat)
    ensures
        size >= ONE <==> size_units(size) >= one_units(),
        size > ONE <==> size_units(size) > one_units(),
{
    lemma_one();
    if size < ONE {
        size_grows_with_its_bits(size, ONE as nat);
    }
    if size > ONE {
        size_grows_with_its_bits(ONE as nat, size);
    }
}

proof fn lemma_draw_below_one(draw: u64)
    ensures
        draw_units(draw) < one_units(),
{
    lemma2_to64_rest();
    lemma_pow2_adds(53, 1021);
    lemma_pow2_pos(1021);
    let word = (draw / 2048) as nat;
    assert(word < pow2(53));
    assert(word * pow2(1021) < pow2(53) * pow2(1021)) by (nonlinear_arith)
        requires
            word < pow2(53),
            pow2(1021) > 0,
    ;
}

proof fn lemma_scaled_comparison(word: nat, significand: nat, scale: nat, gap: nat)
    requires
        scale + gap == 1021,
    ensures
        word * pow2(1021) < significand * pow2(scale) <==> word * pow2(gap) < significand,
{
    lemma_pow2_adds(gap, scale);
    lemma_pow2_pos(scale);
    let (p, q) = (pow2(gap), pow2(scale));
    assert(word * (p * q) == (word * p) * q) by (nonlinear_arith);
    assert((word * p) * q < significand * q <==> word * p < significand) by (nonlinear_arith)
        requires
            q > 0,
    ;
}

proof fn lemma_wide_gap(word: nat, gap: nat)
    requires
        word >= 1,
        gap >= 53,
    ensures
        word * pow2(gap) >= 0x20_0000_0000_0000,
{
    lemma2_to64_rest();
    if gap > 53 {
        lemma_pow2_strictly_increases(53, gap);
    }
    assert(word * pow2(gap) >= pow2(gap)) by (nonlinear_arith)
        requires
            word >= 1,
    ;
}

} // verus!
