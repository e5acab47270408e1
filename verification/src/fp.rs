//! Signed Q16.16 fixed-point numbers.
//!
//! A value is a 32-bit signed integer `repr` read as 16 integer bits and 16
//! fractional bits, so it represents `repr / 65536` in [-32768, 32768).
//! Equality and ordering are those of `repr`.  Addition, subtraction and the
//! raw-integer multiplications wrap on overflow (two's complement), which is
//! the documented overflow policy of this crate; the Q16.16 product is the
//! 64-bit product arithmetically shifted right by 16 bits, i.e. it rounds
//! toward negative infinity.

use vstd::prelude::*;

verus! {

use vstd::arithmetic::div_mod::{
    lemma_fundamental_div_mod,
    lemma_fundamental_div_mod_converse_div,
    lemma_fundamental_div_mod_converse_mod,
};
use vstd::arithmetic::power2::pow2;
use vstd::wrapping::i32_specs;

pub const FP_ONE_REPR: i32 = 0x1_0000;

#[derive(Debug, Clone, Copy, PartialEq, Eq, Structural, PartialOrd, Ord)]
pub struct FP {
    pub repr: i32,
}

/// The two's-complement 32-bit value congruent to `x` modulo 2^32.
pub open spec fn wrap32(x: int) -> int {
    if x % 0x1_0000_0000 >= 0x8000_0000 {
        x % 0x1_0000_0000 - 0x1_0000_0000
    } else {
        x % 0x1_0000_0000
    }
}

pub open spec fn fp_add(a: FP, b: FP) -> FP {
    FP { repr: i32_specs::wrapping_add(a.repr, b.repr) }
}

pub open spec fn fp_sub(a: FP, b: FP) -> FP {
    FP { repr: i32_specs::wrapping_sub(a.repr, b.repr) }
}

pub open spec fn fp_neg(a: FP) -> FP {
    FP { repr: i32_specs::wrapping_sub(0i32, a.repr) }
}

/// Q16.16 product: 64-bit product shifted right arithmetically by 16 bits
/// (floor), then wrapped to 32 bits.
pub open spec fn fp_mul(a: FP, b: FP) -> FP {
    FP { repr: wrap32((a.repr * b.repr) / 0x1_0000) as i32 }
}

/// Raw multiplication by a plain integer: no rescaling.
pub open spec fn fp_muli(a: FP, k: i32) -> FP {
    FP { repr: i32_specs::wrapping_mul(a.repr, k) }
}

/// The fractional 16 bits, as a value in [0, 1).
pub open spec fn fp_frac(a: FP) -> FP {
    FP { repr: (a.repr as int % 0x1_0000) as i32 }
}

/// Arithmetic right shift: floor division by 2^n.
pub open spec fn fp_shr(a: FP, n: nat) -> FP {
    FP { repr: (a.repr as int / pow2(n) as int) as i32 }
}

/// Left shift of the raw representation, wrapping to 32 bits.
pub open spec fn fp_shl(a: FP, n: nat) -> FP {
    FP { repr: wrap32(a.repr * pow2(n)) as i32 }
}

pub open spec fn fp_from_i32(v: i32) -> FP {
    FP { repr: i32_specs::wrapping_mul(v, 0x1_0000) }
}

pub open spec fn fp_from_u8(v: u8) -> FP {
    FP { repr: (v as int * 0x1_0000) as i32 }
}

pub open spec fn fp_from_u16(v: u16) -> FP {
    FP { repr: i32_specs::wrapping_mul(v as i32, 0x1_0000) }
}

/// 2^n as an `i64`, computed by repeated doubling.
pub(crate) fn pow2_i64(n: usize) -> (r: i64)
    requires
        n < 33,
    ensures
        r == pow2(n as nat),
        r >= 1,
{
    proof {
        vstd::arithmetic::power2::lemma2_to64();
    }
    let mut pow: i64 = 1;
    let mut i: usize = 0;
    while i < n
        invariant
            i <= n < 33,
            pow == pow2(i as nat),
            1 <= pow,
        decreases n - i,
    {
        proof {
            vstd::arithmetic::power2::lemma2_to64();
            vstd::arithmetic::power2::lemma_pow2_strictly_increases((i + 1) as nat, 33nat);
            vstd::arithmetic::power2::lemma_pow2_unfold(33nat);
            vstd::arithmetic::power2::lemma_pow2_unfold((i + 1) as nat);
        }
        pow = pow * 2;
        i = i + 1;
    }
    pow
}

/// Floor division of a 64-bit value by a positive divisor.
fn floor_div_i64(p: i64, d: i64) -> (q: i64)
    requires
        p > i64::MIN,
        d >= 1,
    ensures
        q == p as int / d as int,
{
    if p >= 0 {
        p / d
    } else {
        let m: i64 = -p;
        let k: i64 = m / d;
        let s: i64 = m % d;
        proof {
            lemma_fundamental_div_mod(m as int, d as int);
            assert(k * d <= m) by (nonlinear_arith)
                requires
                    m == d * k + s,
                    s >= 0,
                    d * k == k * d,
            ;
            if s == 0 {
                assert(p == (-k) * d + 0) by (nonlinear_arith)
                    requires
                        p == -m,
                        m == d * k + s,
                        s == 0,
                ;
                lemma_fundamental_div_mod_converse_div(p as int, d as int, -k as int, 0);
            } else {
                assert(p == (-k - 1) * d + (d - s)) by (nonlinear_arith)
                    requires
                        p == -m,
                        m == d * k + s,
                ;
                lemma_fundamental_div_mod_converse_div(
                    p as int,
                    d as int,
                    (-k - 1) as int,
                    (d - s) as int,
                );
            }
        }
        if s == 0 {
            -k
        } else {
            -k - 1
        }
    }
}

/// Wrap a 64-bit value to the 32-bit two's-complement range.
fn wrap_to_i32(q: i64) -> (r: i32)
    requires
        q > i64::MIN,
    ensures
        r as int == wrap32(q as int),
{
    let w: u64 = if q >= 0 {
        let w0: u64 = (q as u64) % 0x1_0000_0000;
        proof {
            assert(w0 == q as int % 0x1_0000_0000);
        }
        w0
    } else {
        let m: u64 = (-q) as u64;
        let k: u64 = m / 0x1_0000_0000;
        let s: u64 = m % 0x1_0000_0000;
        proof {
            lemma_fundamental_div_mod(m as int, 0x1_0000_0000);
            if s == 0 {
                lemma_fundamental_div_mod_converse_mod(
                    q as int,
                    0x1_0000_0000,
                    -(k as int),
                    0,
                );
            } else {
                lemma_fundamental_div_mod_converse_mod(
                    q as int,
                    0x1_0000_0000,
                    -(k as int) - 1,
                    0x1_0000_0000 - s as int,
                );
            }
        }
        if s == 0 {
            0u64
        } else {
            0x1_0000_0000 - s
        }
    };
    if w >= 0x8000_0000 {
        let t: u64 = 0x1_0000_0000 - w;
        -(t as i64) as i32
    } else {
        w as i32
    }
}

impl FP {
    pub fn raw(item: i32) -> (r: Self)
        ensures
            r == (FP { repr: item }),
    {
        FP { repr: item }
    }

    /// The fractional bits as a value in [0, 1).
    pub fn frac(self) -> (r: FP)
        ensures
            r == fp_frac(self),
    {
        FP { repr: self.fraq() as i32 }
    }

    /// The fractional bits as a plain 16-bit integer.
    pub fn fraq(self) -> (r: u16)
        ensures
            r as int == self.repr as int % 0x1_0000,
    {
        if self.repr >= 0 {
            (self.repr % 0x1_0000) as u16
        } else {
            let m: i64 = -(self.repr as i64);
            let k: i64 = m / 0x1_0000;
            let s: i64 = m % 0x1_0000;
            proof {
                lemma_fundamental_div_mod(m as int, 0x1_0000);
                if s == 0 {
                    lemma_fundamental_div_mod_converse_mod(
                        self.repr as int,
                        0x1_0000,
                        -k as int,
                        0,
                    );
                } else {
                    lemma_fundamental_div_mod_converse_mod(
                        self.repr as int,
                        0x1_0000,
                        (-k - 1) as int,
                        0x1_0000 - s as int,
                    );
                }
            }
            if s == 0 {
                0u16
            } else {
                (0x1_0000 - s) as u16
            }
        }
    }

    /// The integer part: floor of the represented value.
    pub fn int_part(self) -> (r: i32)
        ensures
            r as int == self.repr as int / 0x1_0000,
    {
        let q: i64 = floor_div_i64(self.repr as i64, 0x1_0000);
        q as i32
    }

    pub fn add(self, rhs: FP) -> (r: FP)
        ensures
            r == fp_add(self, rhs),
    {
        FP { repr: self.repr.wrapping_add(rhs.repr) }
    }

    pub fn sub(self, rhs: FP) -> (r: FP)
        ensures
            r == fp_sub(self, rhs),
    {
        FP { repr: self.repr.wrapping_sub(rhs.repr) }
    }

    pub fn neg(self) -> (r: FP)
        ensures
            r == fp_neg(self),
    {
        FP { repr: (0i32).wrapping_sub(self.repr) }
    }

    /// Q16.16 product, rounding toward negative infinity.
    pub fn mul(self, rhs: FP) -> (r: FP)
        ensures
            r == fp_mul(self, rhs),
    {
        let a: i64 = self.repr as i64;
        let b: i64 = rhs.repr as i64;
        proof {
            assert(-0x4000_0000_0000_0000 <= a * b <= 0x4000_0000_0000_0000) by (nonlinear_arith)
                requires
                    -0x8000_0000 <= a <= 0x7FFF_FFFF,
                    -0x8000_0000 <= b <= 0x7FFF_FFFF,
            ;
        }
        let p: i64 = a * b;
        let q: i64 = floor_div_i64(p, 0x1_0000);
        proof {
            assert(q > i64::MIN) by {
                assert(p as int / 0x1_0000 >= -0x4000_0000_0000_0000);
            };
        }
        FP { repr: wrap_to_i32(q) }
    }

    /// Raw multiplication by a plain integer (no rescaling).
    pub fn muli(self, rhs: i32) -> (r: FP)
        ensures
            r == fp_muli(self, rhs),
    {
        FP { repr: self.repr.wrapping_mul(rhs) }
    }

    /// Arithmetic right shift of the raw representation.
    pub fn shr(self, rhs: usize) -> (r: FP)
        requires
            rhs < 32,
        ensures
            r == fp_shr(self, rhs as nat),
    {
        let pow: i64 = pow2_i64(rhs);
        let q: i64 = floor_div_i64(self.repr as i64, pow);
        proof {
            let x = self.repr as int;
            let d = pow as int;
            assert(x >= 0 ==> 0 <= x / d <= x) by (nonlinear_arith)
                requires
                    d >= 1,
            ;
            assert(x < 0 ==> x <= x / d <= 0) by (nonlinear_arith)
                requires
                    d >= 1,
            ;
        }
        FP { repr: q as i32 }
    }

    /// Left shift of the raw representation, wrapping to 32 bits.
    pub fn shl(self, rhs: usize) -> (r: FP)
        requires
            rhs < 32,
        ensures
            r == fp_shl(self, rhs as nat),
    {
        let pow: i64 = pow2_i64(rhs);
        proof {
            vstd::arithmetic::power2::lemma2_to64();
            if rhs < 31 {
                vstd::arithmetic::power2::lemma_pow2_strictly_increases(rhs as nat, 31);
            }
            assert(-0x4000_0000_0000_0000 <= (self.repr as i64) * pow <= 0x4000_0000_0000_0000)
                by (nonlinear_arith)
                requires
                    -0x8000_0000 <= self.repr as i64 <= 0x7FFF_FFFF,
                    1 <= pow <= 0x8000_0000,
            ;
        }
        let p: i64 = (self.repr as i64) * pow;
        FP { repr: wrap_to_i32(p) }
    }

    /// Bitwise AND of the raw representation with a mask.
    pub fn bitand(self, rhs: i32) -> (r: FP)
        ensures
            r.repr == self.repr & rhs,
    {
        FP { repr: self.repr & rhs }
    }
}

impl From<i32> for FP {
    /// `From<i32>` scales by 65536, wrapping on overflow.
    fn from(item: i32) -> (r: FP) {
        FP { repr: item.wrapping_mul(0x1_0000) }
    }
}

impl vstd::std_specs::convert::FromSpecImpl<i32> for FP {
    open spec fn obeys_from_spec() -> bool {
        true
    }

    open spec fn from_spec(v: i32) -> FP {
        fp_from_i32(v)
    }
}

impl From<u8> for FP {
    fn from(item: u8) -> (r: FP) {
        FP { repr: (item as i32) * 0x1_0000 }
    }
}

impl vstd::std_specs::convert::FromSpecImpl<u8> for FP {
    open spec fn obeys_from_spec() -> bool {
        true
    }

    open spec fn from_spec(v: u8) -> FP {
        fp_from_u8(v)
    }
}

impl From<u16> for FP {
    fn from(item: u16) -> (r: FP) {
        FP { repr: (item as i32).wrapping_mul(0x1_0000) }
    }
}

impl vstd::std_specs::convert::FromSpecImpl<u16> for FP {
    open spec fn obeys_from_spec() -> bool {
        true
    }

    open spec fn from_spec(v: u16) -> FP {
        fp_from_u16(v)
    }
}

/// Whenever the exact quotient fits in 32 bits, the Q16.16 product is exactly
/// the floor of the mathematical product scaled by 65536: multiplication by a
/// negative operand rounds toward negative infinity.
pub proof fn lemma_fp_mul_exact(a: FP, b: FP)
    requires
        -0x8000_0000 <= (a.repr * b.repr) / 0x1_0000 < 0x8000_0000,
    ensures
        fp_mul(a, b).repr == (a.repr * b.repr) / 0x1_0000,
{
    let x = (a.repr * b.repr) / 0x1_0000;
    if x >= 0 {
        lemma_fundamental_div_mod_converse_mod(x, 0x1_0000_0000, 0, x);
    } else {
        lemma_fundamental_div_mod_converse_mod(x, 0x1_0000_0000, -1, x + 0x1_0000_0000);
    }
}

} // verus!

