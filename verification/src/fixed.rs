use vstd::prelude::*;

verus! {

/// Number of fractional bits of the fixed-point representation.
pub const FRAC_BITS: i32 = 16;

/// The raw value of `1.0`.
pub const SCALE: i32 = 65536;

/// Fixed-point number with 16 fractional bits, stored as its raw `i32`.
/// Guarantees deterministic arithmetic across platforms (no floating point).
#[derive(Debug, Clone, Copy, PartialEq, Eq, PartialOrd, Ord, Hash, Structural)]
pub struct Fp(pub i32);

/// The fixed-point value of the integer `n`, wrapped into 32 bits as the
/// shift in `Fp::from_int` does.
pub open spec fn fp_int(n: int) -> Fp {
    Fp((n * 65536) as i32)
}

/// The fixed-point value with the given raw representation (truncated to
/// 32 bits).
pub open spec fn fp_raw(x: int) -> Fp {
    Fp(x as i32)
}

/// Whether an integer fits in an `i32`.
pub open spec fn in_i32(x: int) -> bool {
    i32::MIN <= x <= i32::MAX
}

/// Rust's signed division, which rounds toward zero.
pub open spec fn trunc_div(a: int, b: int) -> int {
    let q = (if a < 0 { -a } else { a }) / (if b < 0 { -b } else { b });
    if (a < 0) != (b < 0) { -q } else { q }
}

/// Sum of two fixed-point values (defined when it does not overflow).
pub open spec fn fp_add(a: Fp, b: Fp) -> Fp {
    Fp((a.0 + b.0) as i32)
}

/// Difference of two fixed-point values (defined when it does not overflow).
pub open spec fn fp_sub(a: Fp, b: Fp) -> Fp {
    Fp((a.0 - b.0) as i32)
}

/// Negation (defined when it does not overflow).
pub open spec fn fp_neg(a: Fp) -> Fp {
    Fp((-a.0) as i32)
}

/// Product: the 64-bit product shifted right by 16 bits (rounding toward
/// negative infinity), then truncated to 32 bits.
pub open spec fn fp_mul(a: Fp, b: Fp) -> Fp {
    Fp(((a.0 * b.0) / 65536) as i32)
}

/// Quotient: the dividend shifted left by 16 bits in 64 bits, divided with
/// rounding toward zero, then truncated to 32 bits.
pub open spec fn fp_div(a: Fp, b: Fp) -> Fp {
    Fp(trunc_div(a.0 * 65536, b.0 as int) as i32)
}

/// Integer part, rounding toward negative infinity.
pub open spec fn fp_to_int(a: Fp) -> int {
    a.0 / 65536
}

pub proof fn lemma_trunc_div_bound(a: int, b: int)
    requires
        b != 0,
    ensures
        b > 0 && a >= 0 ==> 0 <= trunc_div(a, b) <= a,
        b > 0 && a < 0 ==> a <= trunc_div(a, b) <= 0,
        b < 0 && a >= 0 ==> -a <= trunc_div(a, b) <= 0,
        b < 0 && a < 0 ==> 0 <= trunc_div(a, b) <= -a,
        b >= 2 ==> -(if a >= 0 { a } else { -a }) / 2 <= trunc_div(a, b) <= (if a >= 0 { a } else { -a }) / 2,
{
    if b >= 2 {
        if a >= 0 {
            vstd::arithmetic::div_mod::lemma_div_is_ordered_by_denominator(a, 2, b);
        } else {
            vstd::arithmetic::div_mod::lemma_div_is_ordered_by_denominator(-a, 2, b);
        }
    }
    if b > 0 {
        if a >= 0 {
            vstd::arithmetic::div_mod::lemma_div_is_ordered_by_denominator(a, 1, b);
        } else {
            vstd::arithmetic::div_mod::lemma_div_is_ordered_by_denominator(-a, 1, b);
        }
    } else {
        if a >= 0 {
            vstd::arithmetic::div_mod::lemma_div_is_ordered_by_denominator(a, 1, -b);
        } else {
            vstd::arithmetic::div_mod::lemma_div_is_ordered_by_denominator(-a, 1, -b);
        }
    }
}

/// A whole number converted to fixed point and back is itself.
pub proof fn lemma_int_roundtrip(n: int)
    requires
        -32768 <= n < 32768,
    ensures
        fp_int(n).0 == n * 65536,
        fp_to_int(fp_int(n)) == n,
{
    vstd::arithmetic::div_mod::lemma_div_multiples_vanish(n, 65536);
}

impl Fp {
    /// The value `0`.
    pub fn zero() -> (r: Fp)
        ensures
            r == Fp(0),
    {
        Fp(0)
    }

    /// The value `1`.
    pub fn one() -> (r: Fp)
        ensures
            r == Fp(SCALE),
    {
        Fp(SCALE)
    }

    /// The fixed-point value of the integer `n`: `n` shifted left by 16 bits.
    /// Integers outside `-32768..32768` wrap, as the shift does.
    pub fn from_int(n: i32) -> (r: Fp)
        ensures
            r == fp_int(n as int),
            -32768 <= n < 32768 ==> r.0 == n * 65536,
    {
        assert(n << 16 == (n * 65536) as i32) by (bit_vector);
        assert(-32768 <= n < 32768 ==> n << 16 == n * 65536) by (bit_vector);
        Fp(n << 16)
    }

    /// The fixed-point value whose raw representation is `raw`.
    pub fn from_raw(raw: i32) -> (r: Fp)
        ensures
            r.0 == raw,
    {
        Fp(raw)
    }

    /// The raw representation.
    pub fn raw(self) -> (r: i32)
        ensures
            r == self.0,
    {
        self.0
    }

    /// The integer part, rounding toward negative infinity.
    pub fn to_int(self) -> (r: i32)
        ensures
            r == fp_to_int(self),
            r as int == self.0 / 65536,
    {
        let x = self.0;
        assert(x >> 16 == x / 65536) by (bit_vector);
        x >> 16
    }

    /// Sum, as the `+` operator computes it; the caller shows that it does
    /// not overflow.
    pub fn plus(self, rhs: Fp) -> (r: Fp)
        requires
            in_i32(self.0 + rhs.0),
        ensures
            r == fp_add(self, rhs),
            r.0 == self.0 + rhs.0,
    {
        Fp(self.0 + rhs.0)
    }

    /// Difference, as the `-` operator computes it.
    pub fn minus(self, rhs: Fp) -> (r: Fp)
        requires
            in_i32(self.0 - rhs.0),
        ensures
            r == fp_sub(self, rhs),
            r.0 == self.0 - rhs.0,
    {
        Fp(self.0 - rhs.0)
    }

    /// Negation, as the unary `-` operator computes it.
    pub fn negated(self) -> (r: Fp)
        requires
            self.0 != i32::MIN,
        ensures
            r == fp_neg(self),
            r.0 == -self.0,
    {
        Fp(-self.0)
    }

    /// Product, as the `*` operator computes it.
    pub fn times(self, rhs: Fp) -> (r: Fp)
        ensures
            r == fp_mul(self, rhs),
    {
        let a = self.0 as i64;
        let b = rhs.0 as i64;
        assert(-0x8000_0000 <= a < 0x8000_0000);
        assert(-0x8000_0000 <= b < 0x8000_0000);
        assert(-0x4000_0000_0000_0000 <= a * b <= 0x4000_0000_0000_0000) by (nonlinear_arith)
            requires
                -0x8000_0000 <= a < 0x8000_0000,
                -0x8000_0000 <= b < 0x8000_0000,
        ;
        let p: i64 = a * b;
        assert(p >> 16 == p / 65536) by (bit_vector);
        let result: i64 = p >> 16;
        Fp(#[verifier::truncate] (result as i32))
    }

    /// Quotient, as the `/` operator computes it; the divisor is not zero.
    pub fn divided_by(self, rhs: Fp) -> (r: Fp)
        requires
            rhs.0 != 0,
        ensures
            r == fp_div(self, rhs),
    {
        let a = self.0 as i64;
        assert(-0x8000_0000 <= a < 0x8000_0000);
        assert(a << 16 == a * 65536) by (bit_vector)
            requires
                -0x8000_0000 <= a < 0x8000_0000,
        ;
        let shifted: i64 = a << 16;
        let d: i64 = rhs.0 as i64;
        // Rust's signed division rounds toward zero; it is computed here on
        // magnitudes, which gives the same quotient.
        let ua: i64 = if shifted < 0 { -shifted } else { shifted };
        let ub: i64 = if d < 0 { -d } else { d };
        let q: i64 = ua / ub;
        let result: i64 = if (shifted < 0) != (d < 0) { -q } else { q };
        assert(result == trunc_div(a * 65536, d as int));
        Fp(#[verifier::truncate] (result as i32))
    }
}

impl core::ops::Add for Fp {
    type Output = Fp;

    fn add(self, rhs: Fp) -> (r: Fp) {
        Fp(self.0 + rhs.0)
    }
}

impl vstd::std_specs::ops::AddSpecImpl for Fp {
    open spec fn obeys_add_spec() -> bool {
        true
    }

    open spec fn add_req(self, rhs: Fp) -> bool {
        in_i32(self.0 + rhs.0)
    }

    open spec fn add_spec(self, rhs: Fp) -> Fp {
        fp_add(self, rhs)
    }
}

impl core::ops::Sub for Fp {
    type Output = Fp;

    fn sub(self, rhs: Fp) -> (r: Fp) {
        Fp(self.0 - rhs.0)
    }
}

impl vstd::std_specs::ops::SubSpecImpl for Fp {
    open spec fn obeys_sub_spec() -> bool {
        true
    }

    open spec fn sub_req(self, rhs: Fp) -> bool {
        in_i32(self.0 - rhs.0)
    }

    open spec fn sub_spec(self, rhs: Fp) -> Fp {
        fp_sub(self, rhs)
    }
}

impl core::ops::Mul for Fp {
    type Output = Fp;

    fn mul(self, rhs: Fp) -> (r: Fp) {
        self.times(rhs)
    }
}

impl vstd::std_specs::ops::MulSpecImpl for Fp {
    open spec fn obeys_mul_spec() -> bool {
        true
    }

    open spec fn mul_req(self, rhs: Fp) -> bool {
        true
    }

    open spec fn mul_spec(self, rhs: Fp) -> Fp {
        fp_mul(self, rhs)
    }
}

impl core::ops::Div for Fp {
    type Output = Fp;

    fn div(self, rhs: Fp) -> (r: Fp) {
        self.divided_by(rhs)
    }
}

impl vstd::std_specs::ops::DivSpecImpl for Fp {
    open spec fn obeys_div_spec() -> bool {
        true
    }

    open spec fn div_req(self, rhs: Fp) -> bool {
        rhs.0 != 0
    }

    open spec fn div_spec(self, rhs: Fp) -> Fp {
        fp_div(self, rhs)
    }
}

impl core::ops::Neg for Fp {
    type Output = Fp;

    fn neg(self) -> (r: Fp) {
        Fp(-self.0)
    }
}

impl vstd::std_specs::ops::NegSpecImpl for Fp {
    open spec fn obeys_neg_spec() -> bool {
        true
    }

    open spec fn neg_req(self) -> bool {
        self.0 != i32::MIN
    }

    open spec fn neg_spec(self) -> Fp {
        fp_neg(self)
    }
}

} // verus!
