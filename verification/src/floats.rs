//! Reading floating-point quantities from their bit patterns.

use vstd::prelude::*;
use vstd::arithmetic::power2::{
    lemma2_to64, lemma_pow2_strictly_increases, lemma_pow2_unfold, pow2,
};
use crate::packets::Real32;

verus! {

/// The bit pattern of 1.
pub const ONE: u32 = 0x3f80_0000;

/// The bit pattern of 20.
pub const TWENTY: u32 = 0x41a0_0000;

/// The bit pattern of 5.
pub const FIVE: u32 = 0x40a0_0000;

/// The bit pattern of a tenth.
pub const TENTH: u32 = 0x3dcc_cccd;

impl Real32 {
    /// The sign bit is set.
    pub open spec fn negative(self) -> bool {
        self.bits >= 0x8000_0000
    }

    /// The exponent field.
    pub open spec fn exponent(self) -> int {
        self.bits as int / 0x80_0000 % 0x100
    }

    /// The fraction field.
    pub open spec fn fraction(self) -> int {
        self.bits as int % 0x80_0000
    }

    /// Not a number.
    pub open spec fn nan(self) -> bool {
        self.exponent() == 255 && self.fraction() != 0
    }

    /// An infinity.
    pub open spec fn infinite(self) -> bool {
        self.exponent() == 255 && self.fraction() == 0
    }

    /// The whole-number significand.
    pub open spec fn significand(self) -> int {
        if self.exponent() == 0 {
            self.fraction()
        } else {
            self.fraction() + 0x80_0000
        }
    }

    /// The power of two that the significand is multiplied with.
    pub open spec fn scale(self) -> int {
        (if self.exponent() == 0 {
            1
        } else {
            self.exponent()
        }) - 150
    }

    /// The least whole number that is not below a finite number.
    pub open spec fn ceiling(self) -> int {
        if self.scale() >= 0 {
            let size = self.significand() * pow2(self.scale() as nat);
            if self.negative() {
                -size
            } else {
                size
            }
        } else {
            let unit = pow2((-self.scale()) as nat) as int;
            if self.negative() {
                -(self.significand() / unit)
            } else {
                (self.significand() + unit - 1) / unit
            }
        }
    }

    /// The ceiling as a 32-bit number: the nearest one where it does not fit, and
    /// zero for what is not a number.
    pub open spec fn spec_ceil(self) -> int {
        if self.nan() {
            0
        } else if self.infinite() {
            if self.negative() {
                i32::MIN as int
            } else {
                i32::MAX as int
            }
        } else if self.ceiling() > i32::MAX {
            i32::MAX as int
        } else if self.ceiling() < i32::MIN {
            i32::MIN as int
        } else {
            self.ceiling()
        }
    }

    /// Zero or below; nothing that is not a number is.
    pub open spec fn spec_not_positive(self) -> bool {
        !self.nan() && (self.negative() || self.bits == 0)
    }

    /// The number brought into the range from 0 to 1. A negative zero and what is
    /// not a number stay as they are.
    pub open spec fn spec_clamped(self) -> Real32 {
        if self.nan() {
            self
        } else if self.negative() {
            if self.bits == 0x8000_0000 {
                self
            } else {
                Real32 { bits: 0 }
            }
        } else if self.bits > ONE {
            Real32 { bits: ONE }
        } else {
            self
        }
    }

    /// Not a number.
    pub fn is_nan(self) -> (yes: bool)
        ensures
            yes == self.nan(),
    {
        let exponent: u32 = self.bits / 0x80_0000 % 0x100;
        let fraction: u32 = self.bits % 0x80_0000;
        exponent == 255 && fraction != 0
    }

    /// Zero or below.
    pub fn not_positive(self) -> (yes: bool)
        ensures
            yes == self.spec_not_positive(),
    {
        let exponent: u32 = self.bits / 0x80_0000 % 0x100;
        let fraction: u32 = self.bits % 0x80_0000;
        !(exponent == 255 && fraction != 0) && (self.bits >= 0x8000_0000 || self.bits == 0)
    }

    /// The number brought into the range from 0 to 1.
    pub fn clamped(self) -> (r: Real32)
        ensures
            r == self.spec_clamped(),
    {
        let exponent: u32 = self.bits / 0x80_0000 % 0x100;
        let fraction: u32 = self.bits % 0x80_0000;
        if exponent == 255 && fraction != 0 {
            self
        } else if self.bits >= 0x8000_0000 {
            if self.bits == 0x8000_0000 {
                self
            } else {
                Real32 { bits: 0 }
            }
        } else if self.bits > ONE {
            Real32 { bits: ONE }
        } else {
            self
        }
    }

    /// The ceiling as a 32-bit number.
    pub fn ceil(self) -> (n: i32)
        ensures
            n == self.spec_ceil(),
    {
        let negative = self.bits >= 0x8000_0000;
        let exponent: u32 = self.bits / 0x80_0000 % 0x100;
        let fraction: u32 = self.bits % 0x80_0000;
        if exponent == 255 {
            return if fraction != 0 {
                0
            } else if negative {
                i32::MIN
            } else {
                i32::MAX
            };
        }
        let m: i64 = if exponent == 0 {
            fraction as i64
        } else {
            fraction as i64 + 0x80_0000
        };
        let scale: i64 = (if exponent == 0 {
            1
        } else {
            exponent as i64
        }) - 150;
        if scale >= 8 {
            assert(m * pow2(scale as nat) >= 0x8000_0000) by {
                lemma2_to64();
                if scale > 8 {
                    lemma_pow2_strictly_increases(8, scale as nat);
                }
                assert(m * pow2(scale as nat) >= 0x80_0000 * 256) by (nonlinear_arith)
                    requires
                        m >= 0x80_0000,
                        pow2(scale as nat) >= 256,
                ;
            }
            return if negative {
                i32::MIN
            } else {
                i32::MAX
            };
        }
        if scale >= 0 {
            let unit = power_of_two(scale as u32);
            assert(0 <= m * unit <= 0x100_0000 * 256) by (nonlinear_arith)
                requires
                    0 <= m <= 0x100_0000,
                    0 < unit <= 256,
            ;
            let size: i64 = m * unit;
            let value: i64 = if negative {
                -size
            } else {
                size
            };
            return saturate(value);
        }
        let down: u32 = (-scale) as u32;
        if down >= 25 {
            proof {
                lemma2_to64();
                if down > 25 {
                    lemma_pow2_strictly_increases(25, down as nat);
                }
                lemma_small_quotient(m as int, pow2(down as nat) as int);
            }
            return if negative || m == 0 {
                0
            } else {
                1
            };
        }
        let unit = power_of_two(down);
        assert(0 <= m as int / unit as int <= m) by (nonlinear_arith)
            requires
                0 <= m,
                0 < unit,
        ;
        assert(0 <= (m + unit - 1) / unit as int <= m + unit - 1) by (nonlinear_arith)
            requires
                0 <= m,
                0 < unit,
        ;
        if negative {
            saturate(-(m / unit))
        } else {
            saturate((m + unit - 1) / unit)
        }
    }
}

proof fn lemma_small_quotient(m: int, unit: int)
    requires
        0 <= m < unit,
    ensures
        m / unit == 0,
        (m + unit - 1) / unit == if m == 0 {
            0
        } else {
            1int
        },
{
    assert(m / unit == 0) by (nonlinear_arith)
        requires
            0 <= m < unit,
    ;
    if m == 0 {
        assert((m + unit - 1) / unit == 0) by (nonlinear_arith)
            requires
                m == 0,
                0 < unit,
        ;
    } else {
        assert((m + unit - 1) / unit == 1) by (nonlinear_arith)
            requires
                0 < m < unit,
        ;
    }
}

/// A power of two.
fn power_of_two(n: u32) -> (p: i64)
    requires
        n <= 32,
    ensures
        p == pow2(n as nat),
        0 < p <= 0x1_0000_0000,
        n <= 8 ==> p <= 256,
{
    let mut p: i64 = 1;
    let mut k: u32 = 0;
    proof {
        lemma2_to64();
    }
    while k < n
        invariant
            k <= n <= 32,
            p == pow2(k as nat),
            0 < p <= 0x1_0000_0000,
        decreases n - k,
    {
        proof {
            lemma2_to64();
            lemma_pow2_unfold((k + 1) as nat);
            if k + 1 < 32 {
                lemma_pow2_strictly_increases((k + 1) as nat, 32);
            }
        }
        p = p * 2;
        k += 1;
    }
    proof {
        if n < 8 {
            lemma_pow2_strictly_increases(n as nat, 8);
        }
    }
    p
}

/// The nearest 32-bit number.
fn saturate(n: i64) -> (r: i32)
    ensures
        r == if n > i32::MAX {
            i32::MAX as int
        } else if n < i32::MIN {
            i32::MIN as int
        } else {
            n as int
        },
{
    if n > i32::MAX as i64 {
        i32::MAX
    } else if n < i32::MIN as i64 {
        i32::MIN
    } else {
        n as i32
    }
}

} // verus!
