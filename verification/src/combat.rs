use vstd::prelude::*;

use crate::fixed::{Fp, fp_add, fp_div, fp_int, fp_mul, in_i32, trunc_div};

verus! {

/// Axis-aligned bounding box for hitboxes and hurtboxes.
/// (x, y) is the top-left corner.
#[derive(Debug, Clone, Copy, PartialEq, Eq, Structural)]
pub struct Rect {
    pub x: Fp,
    pub y: Fp,
    pub w: Fp,
    pub h: Fp,
}

/// Whether two boxes overlap (strictly: touching edges do not count).
pub open spec fn spec_overlaps(a: Rect, b: Rect) -> bool {
    &&& a.x.0 < b.x.0 + b.w.0
    &&& a.x.0 + a.w.0 > b.x.0
    &&& a.y.0 < b.y.0 + b.h.0
    &&& a.y.0 + a.h.0 > b.y.0
}

/// The sums that `overlaps` evaluates, in its order and with its
/// short-circuiting, fit in 32 bits.
pub open spec fn overlap_sums_fit(a: Rect, b: Rect) -> bool {
    &&& in_i32(b.x.0 + b.w.0)
    &&& a.x.0 < b.x.0 + b.w.0 ==> {
        &&& in_i32(a.x.0 + a.w.0)
        &&& a.x.0 + a.w.0 > b.x.0 ==> {
            &&& in_i32(b.y.0 + b.h.0)
            &&& a.y.0 < b.y.0 + b.h.0 ==> in_i32(a.y.0 + a.h.0)
        }
    }
}

impl Rect {
    pub fn overlaps(&self, other: &Rect) -> (r: bool)
        requires
            overlap_sums_fit(*self, *other),
        ensures
            r == spec_overlaps(*self, *other),
    {
        self.x.0 < other.x.0 + other.w.0
            && self.x.0 + self.w.0 > other.x.0
            && self.y.0 < other.y.0 + other.h.0
            && self.y.0 + self.h.0 > other.y.0
    }
}

/// Data describing a single hit (from a hitbox or projectile).
#[derive(Debug, Clone, Copy)]
pub struct HitData {
    pub base_knockback: Fp,
    pub knockback_scaling: Fp,
    pub knockback_angle: i32,  // degrees, 0 = right, 90 = up
    pub damage: Fp,
}

/// Damage after the hit, as a fixed-point value.
pub open spec fn kb_total_damage(hit: HitData, damage_percent: u32) -> Fp {
    fp_add(fp_int((damage_percent as i32) as int), hit.damage)
}

/// `knockback_scaling * total_damage / 100`.
pub open spec fn kb_scaling_term(hit: HitData, damage_percent: u32) -> Fp {
    fp_div(fp_mul(hit.knockback_scaling, kb_total_damage(hit, damage_percent)), fp_int(100))
}

/// `200 / (weight + 100)`.
pub open spec fn kb_weight_factor(weight: Fp) -> Fp {
    fp_div(fp_int(200), fp_add(weight, fp_int(100)))
}

/// Knockback magnitude:
///   kb = base_kb + ((damage_percent + hit_damage) * kb_scaling / 100) * (200 / (weight + 100)),
/// all in fixed point.
pub open spec fn spec_knockback(hit: HitData, damage_percent: u32, weight: Fp) -> Fp {
    fp_add(
        hit.base_knockback,
        fp_mul(kb_scaling_term(hit, damage_percent), kb_weight_factor(weight)),
    )
}

/// The conditions under which the knockback computation neither overflows
/// nor divides by zero.
pub open spec fn knockback_defined(hit: HitData, damage_percent: u32, weight: Fp) -> bool {
    &&& in_i32(fp_int((damage_percent as i32) as int).0 + hit.damage.0)
    &&& in_i32(weight.0 + fp_int(100).0)
    &&& weight.0 + fp_int(100).0 != 0
    &&& in_i32(
        hit.base_knockback.0 + fp_mul(
            kb_scaling_term(hit, damage_percent),
            kb_weight_factor(weight),
        ).0,
    )
}

/// A quotient by a positive constant is at most the dividend over it.
pub proof fn lemma_trunc_div_pos(a: int, b: int)
    requires
        b > 0,
    ensures
        trunc_div(a, b) == (if a < 0 { -((-a) / b) } else { a / b }),
        a >= 0 ==> 0 <= trunc_div(a, b) <= a / b,
        a < 0 ==> -((-a) / b) <= trunc_div(a, b) <= 0,
{
}

/// Calculate knockback magnitude.
///
/// Simplified Smash formula:
///   kb = base_kb + ((damage_percent + hit_damage) * kb_scaling / 100) * (200 / (weight + 100))
///
/// - `damage_percent`: victim's current damage (before this hit)
/// - `weight`: victim's weight (100 = standard)
pub fn calculate_knockback(hit: &HitData, damage_percent: u32, weight: Fp) -> (r: Fp)
    requires
        knockback_defined(*hit, damage_percent, weight),
    ensures
        r == spec_knockback(*hit, damage_percent, weight),
{
    let total_damage = Fp::from_int(damage_percent as i32).plus(hit.damage);
    let scaling = hit.knockback_scaling.times(total_damage).divided_by(Fp::from_int(100));
    let weight_factor = Fp::from_int(200).divided_by(weight.plus(Fp::from_int(100)));
    hit.base_knockback.plus(scaling.times(weight_factor))
}

pub const MAX_DI_SHIFT: i32 = 9;  // degrees

/// Integer sine table: `sin(d) * 100` for `d` in `0..360`.
pub open spec fn sin_table(d: int) -> int {
    if d == 0 { 0 }
    else if d == 30 { 50 }
    else if d == 45 { 71 }
    else if d == 60 { 87 }
    else if d == 90 { 100 }
    else if d == 120 { 87 }
    else if d == 135 { 71 }
    else if d == 150 { 50 }
    else if d == 180 { 0 }
    else if d == 210 { -50 }
    else if d == 225 { -71 }
    else if d == 240 { -87 }
    else if d == 270 { -100 }
    else if d == 300 { -87 }
    else if d == 315 { -71 }
    else if d == 330 { -50 }
    else {
        let quadrant = d / 90;
        let base = (d % 90) * 100 / 90;
        if quadrant == 0 {
            base
        } else if quadrant == 1 {
            100 - base + (if base * 100 / 100 - base < 0 { base * 100 / 100 - base } else { 0 })
        } else if quadrant == 2 {
            -base
        } else if quadrant == 3 {
            -(100 - base)
        } else {
            0
        }
    }
}

/// `sin(deg) * 100`, with the angle taken modulo 360.
pub open spec fn spec_sin(deg: int) -> int {
    sin_table(deg % 360)
}

/// `cos(deg) * 100`.
pub open spec fn spec_cos(deg: int) -> int {
    spec_sin(deg + 90)
}

/// Integer sin approximation: returns sin(degrees) * 100.
/// Deterministic, no floating point.
pub fn sin_deg(deg: i32) -> (r: i32)
    ensures
        r == spec_sin(deg as int),
{
    // Normalize to 0-359
    let d = ((deg % 360) + 360) % 360;
    assert(d == deg % 360);
    sin_of_normalized(d)
}

/// Sine of an angle already in `0..360`: the lookup for key angles, and a
/// linear ramp per quadrant between them.
fn sin_of_normalized(d: i32) -> (r: i32)
    requires
        0 <= d < 360,
    ensures
        r == sin_table(d as int),
{
    // Use symmetry and a small lookup for key angles
    match d {
        0 => 0,
        30 => 50,
        45 => 71,
        60 => 87,
        90 => 100,
        120 => 87,
        135 => 71,
        150 => 50,
        180 => 0,
        210 => -50,
        225 => -71,
        240 => -87,
        270 => -100,
        300 => -87,
        315 => -71,
        330 => -50,
        // Linear interpolation between known points for other angles
        _ => sin_ramp(d),
    }
}

/// Rough approximation using quadrant math, for angles off the table.
fn sin_ramp(d: i32) -> (r: i32)
    requires
        0 <= d < 360,
    ensures
        r == ({
            let quadrant = d / 90;
            let base = (d % 90) * 100 / 90;
            if quadrant == 0 {
                base
            } else if quadrant == 1 {
                100 - base + (if base * 100 / 100 - base < 0 { base * 100 / 100 - base } else { 0 })
            } else if quadrant == 2 {
                -base
            } else if quadrant == 3 {
                -(100 - base)
            } else {
                0
            }
        }),
{
    let quadrant = d / 90;
    let remainder = d % 90;
    let base = remainder * 100 / 90;  // 0-100 linear ramp
    match quadrant {
        0 => base,
        1 => 100 - base + (base * 100 / 100 - base).min(0),  // descend
        2 => -base,
        3 => -(100 - base),
        _ => 0,
    }
}

/// Integer cos approximation: returns cos(degrees) * 100.
pub fn cos_deg(deg: i32) -> (r: i32)
    requires
        deg <= i32::MAX - 90,
    ensures
        r == spec_cos(deg as int),
{
    sin_deg(deg + 90)
}

/// The DI shift in degrees: the held direction's component along the
/// perpendicular of the launch angle, scaled to `MAX_DI_SHIFT` per 100.
pub open spec fn di_dot(angle: int, di_x: int, di_y: int) -> int {
    di_x * spec_cos(angle + 90) + di_y * spec_sin(angle + 90)
}

/// Angle after Directional Influence.
pub open spec fn spec_apply_di(angle: int, di_x: int, di_y: int) -> int {
    if di_x == 0 && di_y == 0 {
        angle
    } else {
        angle + trunc_div(di_dot(angle, di_x, di_y) * MAX_DI_SHIFT, 100)
    }
}

/// The arithmetic of `apply_di` stays within 32 bits.
pub open spec fn di_defined(angle: int, di_x: int, di_y: int) -> bool {
    !(di_x == 0 && di_y == 0) ==> {
        &&& in_i32(angle + 180)
        &&& in_i32(di_x * spec_cos(angle + 90))
        &&& in_i32(di_y * spec_sin(angle + 90))
        &&& in_i32(di_dot(angle, di_x, di_y))
        &&& in_i32(di_dot(angle, di_x, di_y) * MAX_DI_SHIFT)
        &&& in_i32(spec_apply_di(angle, di_x, di_y))
    }
}

/// Apply Directional Influence to a knockback angle.
///
/// `di_x` and `di_y` are the held direction (-1, 0, or 1).
/// DI perpendicular to the launch angle has maximum effect.
/// Returns the adjusted angle in degrees.
pub fn apply_di(angle: i32, di_x: i32, di_y: i32) -> (r: i32)
    requires
        di_defined(angle as int, di_x as int, di_y as int),
    ensures
        r == spec_apply_di(angle as int, di_x as int, di_y as int),
{
    if di_x == 0 && di_y == 0 {
        return angle;
    }
    // DI is most effective perpendicular to launch angle: the effect is the
    // dot product of the DI direction with the perpendicular (angle + 90),
    // using the integer sin/cos approximation for determinism.

    let perp_angle = angle + 90;
    let perp_x = cos_deg(perp_angle);
    let perp_y = sin_deg(perp_angle);

    // Dot product of DI direction with perpendicular
    let dot = di_x * perp_x + di_y * perp_y;

    // Normalize: dot can range from roughly -100 to 100 (since our sin/cos
    // return -100..100). Scale to max shift.
    let shift = dot * MAX_DI_SHIFT / 100;

    angle + shift
}

/// The sine and cosine approximations stay within `-100..=100`.
pub proof fn lemma_sin_range(deg: int)
    ensures
        -100 <= spec_sin(deg) <= 100,
        -100 <= spec_cos(deg) <= 100,
{
    let d = deg % 360;
    let d2 = (deg + 90) % 360;
    assert(0 <= d < 360);
    assert(0 <= d2 < 360);
    assert(0 <= (d % 90) * 100 / 90 <= 100);
    assert(0 <= (d2 % 90) * 100 / 90 <= 100);
}

// ---------------------------------------------------------------------------
// Properties of knockback and DI
// ---------------------------------------------------------------------------

/// A hit with knockback, scaling and damage between 0 and 100 units, at
/// most 200% damage, against a weight between 1 and 1000 units: a range in
/// which no step of the knockback formula wraps.
pub open spec fn knockback_in_range(hit: HitData, damage_percent: u32, weight: Fp) -> bool {
    &&& 0 <= hit.base_knockback.0 <= 100 * 65536
    &&& 0 <= hit.knockback_scaling.0 <= 100 * 65536
    &&& 0 <= hit.damage.0 <= 100 * 65536
    &&& damage_percent <= 200
    &&& 65536 <= weight.0 <= 1000 * 65536
}

/// Product then shift, for non-negative factors that do not overflow, is
/// monotone in each factor.
proof fn lemma_mul_monotone(a1: int, a2: int, b1: int, b2: int)
    requires
        0 <= a1 <= a2,
        0 <= b1 <= b2,
    ensures
        0 <= (a1 * b1) / 65536 <= (a2 * b2) / 65536,
{
    vstd::arithmetic::mul::lemma_mul_upper_bound(a1, a2, b1, b2);
    assert(0 <= a1 * b1) by (nonlinear_arith)
        requires
            0 <= a1,
            0 <= b1,
    ;
    vstd::arithmetic::div_mod::lemma_div_is_ordered(a1 * b1, a2 * b2, 65536);
    vstd::arithmetic::div_mod::lemma_div_is_ordered(0, a1 * b1, 65536);
}

/// The pieces of the knockback formula, in range.
proof fn lemma_knockback_pieces(hit: HitData, d: u32, weight: Fp)
    requires
        knockback_in_range(hit, d, weight),
    ensures
        kb_total_damage(hit, d).0 == d * 65536 + hit.damage.0,
        ({
            let m = hit.knockback_scaling.0 * kb_total_damage(hit, d).0;
            &&& 0 <= m <= 100 * 65536 * (300 * 65536)
            &&& kb_scaling_term(hit, d).0 == (m / 65536) / 100
            &&& 0 <= kb_scaling_term(hit, d).0 <= 300 * 65536
        }),
        kb_weight_factor(weight).0 == 13107200int * 65536 / (weight.0 + 6553600),
        11915 <= kb_weight_factor(weight).0 <= 129774,
{
    let total = kb_total_damage(hit, d);
    assert(fp_int((d as i32) as int).0 == d * 65536);
    let m = hit.knockback_scaling.0 * total.0;
    assert(0 <= m <= 100 * 65536 * (300 * 65536)) by (nonlinear_arith)
        requires
            m == hit.knockback_scaling.0 * total.0,
            0 <= hit.knockback_scaling.0 <= 100 * 65536,
            0 <= total.0 <= 300 * 65536,
    ;
    vstd::arithmetic::div_mod::lemma_div_is_ordered(m, 100int * 65536 * (300 * 65536), 65536);
    assert(100 * 65536 * (300 * 65536) / 65536 == 100 * 300 * 65536);
    let mm = fp_mul(hit.knockback_scaling, total);
    assert(mm.0 == m / 65536);
    assert(fp_int(100).0 == 6553600);
    lemma_trunc_div_pos(mm.0 * 65536, 6553600);
    vstd::arithmetic::div_mod::lemma_div_multiples_vanish_quotient(65536, mm.0 as int, 100);
    assert((mm.0 * 65536) / 6553600 == mm.0 / 100);
    vstd::arithmetic::div_mod::lemma_div_is_ordered(mm.0 as int, 100int * 300 * 65536, 100);
    // The weight factor 200 / (weight + 100).
    let den = weight.0 + 6553600;
    assert(fp_add(weight, fp_int(100)).0 == den);
    assert(fp_int(200).0 == 13107200);
    lemma_trunc_div_pos(13107200int * 65536, den);
    vstd::arithmetic::div_mod::lemma_div_is_ordered_by_denominator(13107200int * 65536, den, 1100int * 65536);
    vstd::arithmetic::div_mod::lemma_div_is_ordered_by_denominator(13107200int * 65536, 101int * 65536, den);
    assert(13107200 * 65536 / (1100 * 65536) == 11915);
    assert(13107200 * 65536 / (101 * 65536) == 129774);
}

/// Knockback is monotone in the damage percent and in the weight factor.
proof fn lemma_knockback_monotone(hit: HitData, d1: u32, d2: u32, w1: Fp, w2: Fp)
    requires
        knockback_in_range(hit, d1, w1),
        knockback_in_range(hit, d2, w2),
        d1 <= d2,
        kb_weight_factor(w1).0 <= kb_weight_factor(w2).0,
    ensures
        0 <= spec_knockback(hit, d1, w1).0 <= spec_knockback(hit, d2, w2).0,
{
    lemma_knockback_pieces(hit, d1, w1);
    lemma_knockback_pieces(hit, d2, w2);
    let s1 = kb_scaling_term(hit, d1).0 as int;
    let s2 = kb_scaling_term(hit, d2).0 as int;
    let m1 = hit.knockback_scaling.0 * kb_total_damage(hit, d1).0;
    let m2 = hit.knockback_scaling.0 * kb_total_damage(hit, d2).0;
    let t1 = kb_total_damage(hit, d1).0 as int;
    let t2 = kb_total_damage(hit, d2).0 as int;
    let sc = hit.knockback_scaling.0 as int;
    assert(sc * t1 <= sc * t2) by (nonlinear_arith)
        requires
            t1 <= t2,
            0 <= sc,
    ;
    assert(m1 <= m2);
    vstd::arithmetic::div_mod::lemma_div_is_ordered(m1, m2, 65536);
    vstd::arithmetic::div_mod::lemma_div_is_ordered(m1 / 65536, m2 / 65536, 100);
    let f1 = kb_weight_factor(w1).0 as int;
    let f2 = kb_weight_factor(w2).0 as int;
    lemma_mul_monotone(s1, s2, f1, f2);
    lemma_mul_monotone(s2, 300int * 65536, f2, 129774);
    assert(300 * 65536 * 129774 / 65536 == 300 * 129774);
}

/// Higher damage percent never means less knockback; with full scaling
/// against a standard weight, strictly more.
pub proof fn lemma_knockback_grows_with_damage(hit: HitData, d1: u32, d2: u32, weight: Fp)
    requires
        knockback_in_range(hit, d1, weight),
        knockback_in_range(hit, d2, weight),
        d1 <= d2,
    ensures
        spec_knockback(hit, d1, weight).0 <= spec_knockback(hit, d2, weight).0,
        d1 < d2 && hit.knockback_scaling.0 == 100 * 65536 && weight.0 == 100 * 65536
            ==> spec_knockback(hit, d1, weight).0 < spec_knockback(hit, d2, weight).0,
{
    lemma_knockback_monotone(hit, d1, d2, weight, weight);
    if d1 < d2 && hit.knockback_scaling.0 == 100 * 65536 && weight.0 == 100 * 65536 {
        lemma_knockback_exact(hit, d1);
        lemma_knockback_exact(hit, d2);
    }
}

/// With full scaling against a standard weight, the knockback is the base
/// plus the damage after the hit, exactly.
proof fn lemma_knockback_exact(hit: HitData, d: u32)
    requires
        knockback_in_range(hit, d, Fp(6553600i32)),
        hit.knockback_scaling.0 == 100 * 65536,
    ensures
        spec_knockback(hit, d, Fp(6553600i32)).0 == hit.base_knockback.0 + d * 65536 + hit.damage.0,
{
    let w = Fp(6553600i32);
    lemma_knockback_pieces(hit, d, w);
    let t = kb_total_damage(hit, d).0 as int;
    let m = hit.knockback_scaling.0 * t;
    assert(m == 100 * 65536 * t);
    assert(m / 65536 == 100 * t) by {
        vstd::arithmetic::div_mod::lemma_div_multiples_vanish(100 * t, 65536);
    }
    assert((100 * t) / 100 == t) by {
        vstd::arithmetic::div_mod::lemma_div_multiples_vanish(t, 100);
    }
    assert(13107200int * 65536 / 13107200int == 65536);
    assert(kb_weight_factor(w).0 == 65536);
    assert((t * 65536) / 65536 == t) by {
        vstd::arithmetic::div_mod::lemma_div_multiples_vanish(t, 65536);
    }
}

/// A lighter character (smaller weight) takes at least as much knockback
/// from the same hit at the same damage.
pub proof fn lemma_lighter_flies_further(hit: HitData, d: u32, light: Fp, heavy: Fp)
    requires
        knockback_in_range(hit, d, light),
        knockback_in_range(hit, d, heavy),
        light.0 <= heavy.0,
    ensures
        spec_knockback(hit, d, heavy).0 <= spec_knockback(hit, d, light).0,
{
    lemma_knockback_pieces(hit, d, light);
    lemma_knockback_pieces(hit, d, heavy);
    vstd::arithmetic::div_mod::lemma_div_is_ordered_by_denominator(
        13107200int * 65536,
        light.0 + 6553600,
        heavy.0 + 6553600,
    );
    lemma_knockback_monotone(hit, d, d, heavy, light);
}

/// Holding no direction leaves the launch angle unchanged.
pub proof fn lemma_no_di_no_shift(angle: int)
    ensures
        spec_apply_di(angle, 0, 0) == angle,
{
}

pub open spec fn abs(x: int) -> int {
    if x < 0 {
        -x
    } else {
        x
    }
}

/// The angles of the sine table.
pub open spec fn table_angle(d: int) -> bool {
    d == 0 || d == 30 || d == 45 || d == 60 || d == 90 || d == 120 || d == 135 || d == 150 || d
        == 180 || d == 210 || d == 225 || d == 240 || d == 270 || d == 300 || d == 315 || d == 330
}

/// The approximate sine and cosine of an angle never add up (in size) to
/// more than 142, as at 45 degrees.
pub proof fn lemma_sin_cos_sum(deg: int)
    ensures
        abs(spec_sin(deg)) + abs(spec_cos(deg)) <= 142,
{
    let d = deg % 360;
    let e = (deg + 90) % 360;
    assert(e == (if d < 270 { d + 90 } else { d - 270 }));
    assert(spec_cos(deg) == sin_table(e));
    if table_angle(d) {
        assert(table_angle(e));
    } else {
        assert(!table_angle(e));
        let b = (d % 90) * 100 / 90;
        assert(e % 90 == d % 90);
        assert(0 <= b <= 100);
        assert(b * 100 / 100 == b);
        assert(e / 90 == (if d / 90 == 3 { 0 } else { d / 90 + 1 }));
    }
}

/// Holding a direction shifts the launch angle by at most 12 degrees
/// (within the 15 degrees the game promises).
pub proof fn lemma_di_shift_bounded(angle: int, di_x: int, di_y: int)
    requires
        -1 <= di_x <= 1,
        -1 <= di_y <= 1,
    ensures
        abs(spec_apply_di(angle, di_x, di_y) - angle) <= 12,
{
    lemma_sin_cos_sum(angle + 90);
    let c = spec_cos(angle + 90);
    let s = spec_sin(angle + 90);
    assert(abs(di_x * c) <= abs(c)) by (nonlinear_arith)
        requires
            -1 <= di_x <= 1,
    ;
    assert(abs(di_y * s) <= abs(s)) by (nonlinear_arith)
        requires
            -1 <= di_y <= 1,
    ;
    let dot = di_dot(angle, di_x, di_y);
    assert(-1278 <= dot * MAX_DI_SHIFT <= 1278);
    let q = trunc_div(dot * MAX_DI_SHIFT, 100);
    let a = abs(dot * MAX_DI_SHIFT);
    vstd::arithmetic::div_mod::lemma_div_is_ordered(a, 1278, 100);
    assert(1278int / 100 == 12);
}

} // verus!
