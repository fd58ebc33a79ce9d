//! What a landed hit does to its target: damage, knockback, DI, launch
//! velocity and hitstun.
use vstd::prelude::*;

use crate::combat::{
    HitData, apply_di, calculate_knockback, cos_deg, di_defined, knockback_defined,
    lemma_di_shift_bounded, lemma_sin_range, sin_deg, sin_table, spec_apply_di, spec_cos,
    spec_knockback, spec_sin, table_angle,
};
use crate::fixed::{Fp, fp_div, fp_int, fp_mul, fp_to_int, in_i32, trunc_div};
use crate::state::{
    ActionState, CharacterId, PlayerInput, PlayerState, character_stats, spec_character_stats,
    KB_VELOCITY_SCALE,
};

verus! {

/// The damage percent a player may carry into a frame.
pub const DAMAGE_LIMIT: u32 = 32448;

/// The most damage (whole percent) a single hit adds.
pub const MAX_HIT_DAMAGE: u32 = 28;

/// A hit of the game's own: non-negative damage of at most
/// `MAX_HIT_DAMAGE` whole percent, moderate base knockback and angle.
pub open spec fn hit_ok(hit: HitData) -> bool {
    &&& 0 <= hit.damage.0
    &&& fp_to_int(hit.damage) <= MAX_HIT_DAMAGE
    &&& -100 * 65536 <= hit.base_knockback.0 <= 100 * 65536
    &&& -1000 <= hit.knockback_angle <= 1000
}

/// Launch speed along one axis: `kb * c / 100 / KB_VELOCITY_SCALE`, where
/// `c` is a cosine or sine times 100.
pub open spec fn knock_velocity(kb: Fp, c: int) -> Fp {
    fp_div(fp_div(fp_mul(kb, fp_int(c)), fp_int(100)), Fp(KB_VELOCITY_SCALE))
}

/// Hitstun frames for a knockback: a fifth of it in whole units, clamped to
/// `1..=60`.
pub open spec fn hitstun_frames(kb: Fp) -> int {
    let x = trunc_div(fp_to_int(kb) * 2, 10);
    if x > 60 {
        60
    } else if x < 1 {
        1
    } else {
        x
    }
}

/// Hitstun grows with knockback: a harder hit never stuns for less.
pub proof fn lemma_hitstun_grows_with_knockback(a: Fp, b: Fp)
    requires
        a.0 <= b.0,
    ensures
        hitstun_frames(a) <= hitstun_frames(b),
{
    vstd::arithmetic::div_mod::lemma_div_is_ordered(a.0 as int, b.0 as int, 65536);
    let x = fp_to_int(a) * 2;
    let y = fp_to_int(b) * 2;
    assert(x <= y);
    if x >= 0 {
        vstd::arithmetic::div_mod::lemma_div_is_ordered(x, y, 10);
    } else if y < 0 {
        vstd::arithmetic::div_mod::lemma_div_is_ordered(-y, -x, 10);
    } else {
        assert(trunc_div(x, 10) <= 0);
        assert(trunc_div(y, 10) >= 0);
    }
}

/// Launch angle of a hit: its angle when the attacker faces right,
/// mirrored otherwise, then shifted by the defender's DI (angles count up
/// as 90 degrees, so holding up counts as +1 on the vertical axis).
pub open spec fn launch_angle(hit: HitData, input: PlayerInput, attacker_facing_right: bool) -> int {
    let base = if attacker_facing_right {
        hit.knockback_angle as int
    } else {
        180 - hit.knockback_angle
    };
    spec_apply_di(base, input.spec_di_x(), -input.spec_di_y())
}

/// The defender after a hit: damage added, launched (with the knockback of
/// the damage held before the hit) along the DI-adjusted
/// angle, airborne and in hitstun, with the ledge grab restored.
#[verifier::opaque]
pub open spec fn spec_apply_hit(
    d: PlayerState,
    hit: HitData,
    input: PlayerInput,
    attacker_facing_right: bool,
) -> PlayerState {
    let damage = (d.damage_percent + fp_to_int(hit.damage)) as u32;
    let weight = spec_character_stats(d.character).weight;
    let kb = spec_knockback(hit, d.damage_percent, weight);
    let angle = launch_angle(hit, input, attacker_facing_right);
    PlayerState {
        damage_percent: damage,
        velocity_x: knock_velocity(kb, spec_cos(angle)),
        velocity_y: knock_velocity(kb, -spec_sin(angle)),
        grounded: false,
        has_ledge_grab: false,
        action: ActionState::Hitstun { frames_left: hitstun_frames(kb) as u8 },
        ..d
    }
}

/// Dividing by a whole number of units divides the raw value, rounding
/// toward zero.
pub proof fn lemma_fp_div_units(x: int, n: int)
    requires
        in_i32(x),
        1 <= n <= 32767,
    ensures
        fp_div(Fp(x as i32), Fp((n * 65536) as i32)).0 == trunc_div(x, n),
        -((if x < 0 { -x } else { x }) / n) <= trunc_div(x, n) <= (if x < 0 { -x } else { x }) / n,
{
    let a = if x < 0 { -x } else { x };
    assert((n * 65536) as i32 == n * 65536);
    if a > 0 {
        vstd::arithmetic::div_mod::lemma_div_multiples_vanish_quotient(65536, a, n);
    }
    assert((a * 65536) / (n * 65536) == a / n);
    vstd::arithmetic::div_mod::lemma_div_is_ordered(a, 0x8000_0000, n);
    vstd::arithmetic::div_mod::lemma_div_is_ordered(0, a, n);
}

/// Whatever the knockback, a launch speed stays within 41 units per frame.
pub proof fn lemma_knock_velocity_bound(kb: Fp, c: int)
    requires
        -100 <= c <= 100,
    ensures
        -41 * 65536 <= knock_velocity(kb, c).0 <= 41 * 65536,
{
    let m = fp_mul(kb, fp_int(c)).0 as int;
    assert(fp_int(100) == Fp((100 * 65536) as i32));
    lemma_fp_div_units(m, 100);
    let q = trunc_div(m, 100);
    let am = if m < 0 { -m } else { m };
    vstd::arithmetic::div_mod::lemma_div_is_ordered(am, 0x8000_0000, 100);
    assert(-21474837 <= q <= 21474837);
    assert(Fp(KB_VELOCITY_SCALE) == Fp((8 * 65536) as i32));
    lemma_fp_div_units(q, 8);
}

/// The weight factor `200 / (weight + 100)` of each character.
proof fn lemma_weight_factor(c: CharacterId)
    ensures
        ({
            let w = spec_character_stats(c).weight;
            &&& in_i32(w.0 + fp_int(100).0)
            &&& w.0 + fp_int(100).0 > 0
            &&& 65536 <= crate::combat::kb_weight_factor(w).0 <= 72018
        }),
{
    let w = spec_character_stats(c).weight;
    assert(fp_int(100).0 == 6553600);
    assert(fp_int(200).0 == 13107200);
    match c {
        CharacterId::Balanced => {
            assert(w.0 == 6553600);
            assert(crate::fixed::fp_add(w, fp_int(100)).0 == 13107200);
            assert(13107200 * 65536 / 13107200 == 65536);
        },
        CharacterId::Ranged => {
            assert(w.0 == 6225920);
            assert(crate::fixed::fp_add(w, fp_int(100)).0 == 12779520);
            assert(13107200 * 65536 / 12779520 == 67216);
        },
        CharacterId::Rushdown => {
            assert(w.0 == 5373952);
            assert(crate::fixed::fp_add(w, fp_int(100)).0 == 11927552);
            assert(13107200 * 65536 / 11927552 == 72017);
        },
    }
}

/// With a game hit and damage up to 32700%, computing knockback neither
/// overflows nor divides by zero.
pub proof fn lemma_knockback_defined(hit: HitData, damage_percent: u32, c: CharacterId)
    requires
        hit_ok(hit),
        damage_percent <= 32700,
    ensures
        knockback_defined(hit, damage_percent, spec_character_stats(c).weight),
{
    let w = spec_character_stats(c).weight;
    lemma_weight_factor(c);
    assert(fp_int((damage_percent as i32) as int).0 == damage_percent * 65536);
    assert(fp_to_int(hit.damage) == hit.damage.0 / 65536);
    assert(hit.damage.0 < 29 * 65536);
    let st = crate::combat::kb_scaling_term(hit, damage_percent);
    let x = fp_mul(hit.knockback_scaling, crate::combat::kb_total_damage(hit, damage_percent)).0
        as int;
    lemma_fp_div_units(x, 100);
    let ax = if x < 0 { -x } else { x };
    vstd::arithmetic::div_mod::lemma_div_is_ordered(ax, 0x8000_0000, 100);
    assert(fp_int(100) == Fp((100 * 65536) as i32));
    assert(-21474837 <= st.0 <= 21474837);
    let wf = crate::combat::kb_weight_factor(w).0 as int;
    let s = st.0 as int;
    let as_ = if s < 0 { -s } else { s };
    vstd::arithmetic::mul::lemma_mul_upper_bound(as_, 21474837, wf, 72018);
    assert(0 <= as_ * wf) by (nonlinear_arith)
        requires
            0 <= as_,
            0 <= wf,
    ;
    assert(s * wf == (if s < 0 { -(as_ * wf) } else { as_ * wf })) by (nonlinear_arith)
        requires
            as_ == (if s < 0 { -s } else { s }),
    ;
    let p = s * wf;
    vstd::arithmetic::div_mod::lemma_div_is_ordered(p, 21474837int * 72018, 65536);
    vstd::arithmetic::div_mod::lemma_div_is_ordered(-(21474837int * 72018), p, 65536);
    assert(-(21474837 * 72018) / 65536 >= -23600000);
    assert(21474837 * 72018 / 65536 <= 23600000);
}

fn knock_velocity_of(kb: Fp, c: i32) -> (r: Fp)
    requires
        -100 <= c <= 100,
    ensures
        r == knock_velocity(kb, c as int),
        -41 * 65536 <= r.0 <= 41 * 65536,
{
    proof {
        lemma_knock_velocity_bound(kb, c as int);
    }
    kb.times(Fp::from_int(c)).divided_by(Fp::from_int(100)).divided_by(Fp(KB_VELOCITY_SCALE))
}

/// Apply a hit to its defender.
pub fn apply_hit(
    defender: PlayerState,
    hit: &HitData,
    defender_input: PlayerInput,
    attacker_facing_right: bool,
) -> (r: PlayerState)
    requires
        hit_ok(*hit),
        defender.damage_percent <= 32700 - MAX_HIT_DAMAGE,
    ensures
        r == spec_apply_hit(defender, *hit, defender_input, attacker_facing_right),
        r.damage_percent <= defender.damage_percent + MAX_HIT_DAMAGE,
        r.position_x == defender.position_x && r.position_y == defender.position_y,
        -41 * 65536 <= r.velocity_x.0 <= 41 * 65536,
        -41 * 65536 <= r.velocity_y.0 <= 41 * 65536,
        r.stocks == defender.stocks && r.character == defender.character,
        r.drop_through_frames == defender.drop_through_frames,
        r.invincibility_frames == defender.invincibility_frames,
{
    reveal(spec_apply_hit);
    let gained = hit.damage.to_int();
    let damage_percent = defender.damage_percent + gained as u32;

    let weight = character_stats(defender.character).weight;
    proof {
        lemma_knockback_defined(*hit, defender.damage_percent, defender.character);
    }
    // Knockback from the damage the defender had before this hit
    let kb_magnitude = calculate_knockback(hit, defender.damage_percent, weight);

    // Apply DI
    let base_angle = if attacker_facing_right {
        hit.knockback_angle
    } else {
        180 - hit.knockback_angle
    };
    proof {
        lemma_di_small(base_angle as int, defender_input.spec_di_x(), -defender_input.spec_di_y());
    }
    // Screen axes count up as -1; launch angles count up as positive.
    let angle = apply_di(base_angle, defender_input.di_x(), -defender_input.di_y());

    // Convert angle + magnitude to velocity. cos_deg/sin_deg return the
    // value times 100, so divide by 100 to normalize; scale down by
    // KB_VELOCITY_SCALE so knockback is a nudge at low %, a launch at high %.
    proof {
        lemma_sin_range(angle as int);
    }
    let vx = knock_velocity_of(kb_magnitude, cos_deg(angle));
    let vy = knock_velocity_of(kb_magnitude, -sin_deg(angle));

    // Hitstun proportional to knockback (scaled down too)
    let twice = kb_magnitude.to_int() * 2;
    // Integer division rounds toward zero.
    let fifth = if twice < 0 { -((-twice) / 10) } else { twice / 10 };
    let hitstun = fifth.min(60).max(1) as u8;
    PlayerState {
        damage_percent,
        velocity_x: vx,
        velocity_y: vy,
        grounded: false,
        // Getting hit lets the defender grab the ledge again
        has_ledge_grab: false,
        action: ActionState::Hitstun { frames_left: hitstun },
        ..defender
    }
}

/// DI on a small angle with a held direction of at most one step per axis
/// stays within 32 bits.
pub proof fn lemma_di_small(angle: int, di_x: int, di_y: int)
    requires
        -1200 <= angle <= 1200,
        -1 <= di_x <= 1,
        -1 <= di_y <= 1,
    ensures
        di_defined(angle, di_x, di_y),
        -1300 <= spec_apply_di(angle, di_x, di_y) <= 1300,
{
    lemma_sin_range(angle + 90);
    let c = spec_cos(angle + 90);
    let s = spec_sin(angle + 90);
    assert(-100 <= di_x * c <= 100) by (nonlinear_arith)
        requires
            -1 <= di_x <= 1,
            -100 <= c <= 100,
    ;
    assert(-100 <= di_y * s <= 100) by (nonlinear_arith)
        requires
            -1 <= di_y <= 1,
            -100 <= s <= 100,
    ;
    let dot = crate::combat::di_dot(angle, di_x, di_y);
    assert(-1800 <= dot * 9 <= 1800);
    crate::fixed::lemma_trunc_div_bound(dot * 9, 100);
}


// ---------------------------------------------------------------------------
// Which way a hit sends its target
// ---------------------------------------------------------------------------

/// The sine of an angle strictly between 0 and 180 degrees is positive, and
/// strictly between 180 and 360 degrees negative.
pub proof fn lemma_sin_sign(d: int)
    requires
        0 <= d < 360,
    ensures
        0 < d < 180 ==> sin_table(d) > 0,
        180 < d < 360 ==> sin_table(d) < 0,
        d == 0 || d == 180 ==> sin_table(d) == 0,
{
    if !table_angle(d) {
        let r = d % 90;
        let b = r * 100 / 90;
        assert(d == 90 * (d / 90) + r);
        assert(0 <= d / 90 <= 3);
        assert(r != 0);
        assert(1 <= b <= 98);
        assert(b * 100 / 100 == b);
    }
}

/// The cosine of an angle within 90 degrees of straight right is positive,
/// and of one within 90 degrees of straight left negative.
pub proof fn lemma_cos_sign(e: int)
    ensures
        -90 < e < 90 ==> spec_cos(e) > 0,
        90 < e < 270 ==> spec_cos(e) < 0,
{
    if -90 < e < 270 {
        assert((e + 90) % 360 == e + 90);
        lemma_sin_sign(e + 90);
    }
}

/// A launch speed has the sign of knockback times the cosine (or sine) it
/// is taken along, is nonzero once that product reaches 800, and flips with
/// the direction: for knockback up to `i32::MAX / 100`, where no step of
/// the computation wraps.
pub proof fn lemma_knock_velocity_sign(kb: Fp, c: int)
    requires
        -100 <= c <= 100,
        -21474836 <= kb.0 <= 21474836,
    ensures
        kb.0 * c >= 0 ==> knock_velocity(kb, c).0 >= 0,
        kb.0 * c <= 0 ==> knock_velocity(kb, c).0 <= 0,
        kb.0 * c >= 800 ==> knock_velocity(kb, c).0 >= 1,
        kb.0 * c <= -800 ==> knock_velocity(kb, c).0 <= -1,
        knock_velocity(kb, -c).0 == -knock_velocity(kb, c).0,
{
    lemma_knock_velocity_raw(kb, c);
    lemma_knock_velocity_raw(kb, -c);
    let m = kb.0 * c;
    assert(kb.0 * (-c) == -m) by (nonlinear_arith)
        requires
            m == kb.0 * c,
    ;
    let q = trunc_div(m, 100);
    crate::fixed::lemma_trunc_div_bound(m, 100);
    crate::fixed::lemma_trunc_div_bound(q, 8);
    if m >= 800 {
        vstd::arithmetic::div_mod::lemma_div_is_ordered(800, m, 100);
        vstd::arithmetic::div_mod::lemma_div_is_ordered(8, q, 8);
    }
    if m <= -800 {
        vstd::arithmetic::div_mod::lemma_div_is_ordered(800, -m, 100);
        vstd::arithmetic::div_mod::lemma_div_is_ordered(8, -q, 8);
    }
}

/// The launch speed along a cosine or sine `c`, computed without wrapping:
/// the product, then two divisions rounding toward zero.
proof fn lemma_knock_velocity_raw(kb: Fp, c: int)
    requires
        -100 <= c <= 100,
        -21474836 <= kb.0 <= 21474836,
    ensures
        knock_velocity(kb, c).0 == trunc_div(trunc_div(kb.0 * c, 100), 8),
        -21474836 <= trunc_div(kb.0 * c, 100) <= 21474836,
{
    let m = kb.0 * c;
    assert(-2147483600 <= m <= 2147483600) by (nonlinear_arith)
        requires
            -100 <= c <= 100,
            -21474836 <= kb.0 <= 21474836,
            m == kb.0 * c,
    ;
    assert(fp_int(c).0 == c * 65536);
    assert(kb.0 * (c * 65536) == 65536 * m) by (nonlinear_arith)
        requires
            m == kb.0 * c,
    ;
    vstd::arithmetic::div_mod::lemma_div_multiples_vanish(m, 65536);
    assert(fp_mul(kb, fp_int(c)).0 == m);
    lemma_fp_div_units(m, 100);
    assert(fp_int(100) == Fp((100 * 65536) as i32));
    let q = trunc_div(m, 100);
    let am = if m < 0 { -m } else { m };
    vstd::arithmetic::div_mod::lemma_div_is_ordered(am, 2147483600, 100);
    assert(Fp(KB_VELOCITY_SCALE) == Fp((8 * 65536) as i32));
    lemma_fp_div_units(q, 8);
}

/// Which way a hit launches its target: along an angle within 90 degrees
/// of straight right the target flies right (`velocity_x` not negative),
/// and along one within 90 degrees of straight left it flies left; with
/// knockback of at least 800 raw (about a hundredth of a unit) it does
/// move that way. This holds for knockback between 0 and `i32::MAX / 100`.
pub proof fn lemma_launch_direction(
    d: PlayerState,
    hit: HitData,
    input: PlayerInput,
    attacker_facing_right: bool,
)
    requires
        0 <= spec_knockback(hit, d.damage_percent, spec_character_stats(d.character).weight).0
            <= 21474836,
    ensures
        ({
            let kb = spec_knockback(hit, d.damage_percent, spec_character_stats(d.character).weight);
            let e = launch_angle(hit, input, attacker_facing_right);
            let v = spec_apply_hit(d, hit, input, attacker_facing_right).velocity_x.0;
            let w = spec_apply_hit(d, hit, input, attacker_facing_right).velocity_y.0;
            &&& -90 < e < 90 ==> v >= 0 && (kb.0 >= 800 ==> v > 0)
            &&& 90 < e < 270 ==> v <= 0 && (kb.0 >= 800 ==> v < 0)
            &&& 0 < e < 180 ==> w <= 0 && (kb.0 >= 800 ==> w < 0)
            &&& 180 < e < 360 ==> w >= 0 && (kb.0 >= 800 ==> w > 0)
        }),
{
    reveal(spec_apply_hit);
    lemma_launch_height(d, hit, input, attacker_facing_right);
    let kb = spec_knockback(hit, d.damage_percent, spec_character_stats(d.character).weight);
    let e = launch_angle(hit, input, attacker_facing_right);
    let c = spec_cos(e);
    lemma_sin_range(e);
    lemma_cos_sign(e);
    lemma_knock_velocity_sign(kb, c);
    if -90 < e < 90 {
        assert(kb.0 * c >= 0) by (nonlinear_arith)
            requires
                kb.0 >= 0,
                c > 0,
        ;
        if kb.0 >= 800 {
            assert(kb.0 * c >= 800) by (nonlinear_arith)
                requires
                    kb.0 >= 800,
                    c >= 1,
            ;
        }
    }
    if 90 < e < 270 {
        assert(kb.0 * c <= 0) by (nonlinear_arith)
            requires
                kb.0 >= 0,
                c < 0,
        ;
        if kb.0 >= 800 {
            assert(kb.0 * c <= -800) by (nonlinear_arith)
                requires
                    kb.0 >= 800,
                    c <= -1,
            ;
        }
    }
}

/// The vertical half of `lemma_launch_direction`: above the horizontal the
/// target flies up (screen `y` decreasing), below it down.
proof fn lemma_launch_height(
    d: PlayerState,
    hit: HitData,
    input: PlayerInput,
    attacker_facing_right: bool,
)
    requires
        0 <= spec_knockback(hit, d.damage_percent, spec_character_stats(d.character).weight).0
            <= 21474836,
    ensures
        ({
            let kb = spec_knockback(hit, d.damage_percent, spec_character_stats(d.character).weight);
            let e = launch_angle(hit, input, attacker_facing_right);
            let w = spec_apply_hit(d, hit, input, attacker_facing_right).velocity_y.0;
            &&& 0 < e < 180 ==> w <= 0 && (kb.0 >= 800 ==> w < 0)
            &&& 180 < e < 360 ==> w >= 0 && (kb.0 >= 800 ==> w > 0)
        }),
{
    reveal(spec_apply_hit);
    let kb = spec_knockback(hit, d.damage_percent, spec_character_stats(d.character).weight);
    let e = launch_angle(hit, input, attacker_facing_right);
    let sn = spec_sin(e);
    lemma_sin_range(e);
    lemma_knock_velocity_sign(kb, -sn);
    if 0 < e < 360 {
        assert(e % 360 == e);
        lemma_sin_sign(e);
    }
    if 0 < e < 180 {
        assert(kb.0 * -sn <= 0) by (nonlinear_arith)
            requires
                kb.0 >= 0,
                sn > 0,
        ;
        if kb.0 >= 800 {
            assert(kb.0 * -sn <= -800) by (nonlinear_arith)
                requires
                    kb.0 >= 800,
                    sn >= 1,
            ;
        }
    }
    if 180 < e < 360 {
        assert(kb.0 * -sn >= 0) by (nonlinear_arith)
            requires
                kb.0 >= 0,
                sn < 0,
        ;
        if kb.0 >= 800 {
            assert(kb.0 * -sn >= 800) by (nonlinear_arith)
                requires
                    kb.0 >= 800,
                    sn <= -1,
            ;
        }
    }
}

/// A hit sends its target away from the attacker's front: for a hit angle
/// within 77 degrees of horizontal (so that no DI can turn it past
/// vertical), the target flies the way the attacker faces, whatever
/// direction it holds; for knockback between 0 and `i32::MAX / 100`, and
/// moving for certain once the knockback reaches 800 raw.
pub proof fn lemma_hit_follows_facing(
    d: PlayerState,
    hit: HitData,
    input: PlayerInput,
    attacker_facing_right: bool,
)
    requires
        -77 <= hit.knockback_angle <= 77,
        0 <= spec_knockback(hit, d.damage_percent, spec_character_stats(d.character).weight).0
            <= 21474836,
    ensures
        ({
            let kb = spec_knockback(hit, d.damage_percent, spec_character_stats(d.character).weight);
            let v = spec_apply_hit(d, hit, input, attacker_facing_right).velocity_x.0;
            &&& attacker_facing_right ==> v >= 0 && (kb.0 >= 800 ==> v > 0)
            &&& !attacker_facing_right ==> v <= 0 && (kb.0 >= 800 ==> v < 0)
        }),
{
    let base = if attacker_facing_right {
        hit.knockback_angle as int
    } else {
        180 - hit.knockback_angle
    };
    lemma_di_shift_bounded(base, input.spec_di_x(), -input.spec_di_y());
    lemma_launch_direction(d, hit, input, attacker_facing_right);
}

/// Facing mirrors a launch. With no direction held, a hit from a
/// left-facing attacker changes everything a hit from a right-facing one
/// does except the launch velocity; the two launches go opposite ways
/// horizontally and the same way vertically; for an angle within 90
/// degrees of horizontal the right-facing attacker sends the target right
/// and the left-facing one left; and for an angle of the sine table (such
/// as 30, 45 or 60 degrees) the launch is the exact mirror image.
/// For knockback within `i32::MAX / 100` in size, where nothing wraps.
pub proof fn lemma_hit_facing_mirror(d: PlayerState, hit: HitData, input: PlayerInput)
    requires
        input.spec_di_x() == 0,
        input.spec_di_y() == 0,
        -21474836 <= spec_knockback(hit, d.damage_percent, spec_character_stats(d.character).weight).0
            <= 21474836,
    ensures
        ({
            let kb = spec_knockback(hit, d.damage_percent, spec_character_stats(d.character).weight);
            let r = spec_apply_hit(d, hit, input, true);
            let l = spec_apply_hit(d, hit, input, false);
            let a = hit.knockback_angle as int;
            &&& (PlayerState { velocity_x: r.velocity_x, velocity_y: r.velocity_y, ..l }) == r
            &&& r.velocity_x.0 * l.velocity_x.0 <= 0
            &&& r.velocity_y.0 * l.velocity_y.0 >= 0
            &&& -90 < a < 90 && kb.0 >= 0 ==> l.velocity_x.0 <= 0 <= r.velocity_x.0
            &&& -90 < a < 90 && kb.0 >= 800 ==> l.velocity_x.0 < 0 < r.velocity_x.0
            &&& table_angle(a % 360) ==> l.velocity_x.0 == -r.velocity_x.0 && l.velocity_y
                == r.velocity_y
        }),
{
    reveal(spec_apply_hit);
    let kb = spec_knockback(hit, d.damage_percent, spec_character_stats(d.character).weight);
    let a = hit.knockback_angle as int;
    assert(launch_angle(hit, input, true) == a);
    assert(launch_angle(hit, input, false) == 180 - a);
    let cr = spec_cos(a);
    let cl = spec_cos(180 - a);
    let sr = spec_sin(a);
    let sl = spec_sin(180 - a);
    lemma_mirror_trig(a);
    lemma_sin_range(a);
    lemma_sin_range(180 - a);
    lemma_speeds_signs(kb, cr, cl);
    assert((-sr) * (-sl) == sr * sl) by (nonlinear_arith);
    lemma_speeds_signs(kb, -sr, -sl);
    if -90 < a < 90 && kb.0 >= 0 {
        lemma_launch_direction(d, hit, input, true);
        lemma_launch_direction(d, hit, input, false);
    }
    if table_angle(a % 360) {
        lemma_knock_velocity_sign(kb, cr);
    }
}


/// The cosines of `a` and of its mirror `180 - a` never share a sign and
/// the sines never differ in sign; on the angles of the sine table they
/// are exact opposites and equal.
pub proof fn lemma_mirror_trig(a: int)
    ensures
        spec_cos(a) * spec_cos(180 - a) <= 0,
        spec_sin(a) * spec_sin(180 - a) >= 0,
        table_angle(a % 360) ==> spec_cos(180 - a) == -spec_cos(a) && spec_sin(180 - a)
            == spec_sin(a),
{
    lemma_mirror_angles(a);
    let d1 = a % 360;
    let e1 = (a + 90) % 360;
    let e2 = (270 - a) % 360;
    let f2 = (180 - a) % 360;
    assert(spec_cos(a) == sin_table(e1));
    assert(spec_cos(180 - a) == sin_table(e2));
    assert(spec_sin(a) == sin_table(d1));
    assert(spec_sin(180 - a) == sin_table(f2));
    lemma_sin_sign(e1);
    lemma_sin_sign(e2);
    lemma_sin_sign(d1);
    lemma_sin_sign(f2);
    let x = sin_table(e1);
    let y = sin_table(e2);
    assert(x * y <= 0) by (nonlinear_arith)
        requires
            (x >= 0 && y <= 0) || (x <= 0 && y >= 0),
    ;
    let u = sin_table(d1);
    let w = sin_table(f2);
    assert(u * w >= 0) by (nonlinear_arith)
        requires
            (u >= 0 && w >= 0) || (u <= 0 && w <= 0),
    ;
    if table_angle(d1) {
        lemma_table_mirror(d1);
    }
}

/// Where `a` and its mirror `180 - a` fall in the table, with their
/// cosines: the cosine angles add up to a whole turn, and the sine angles
/// to half a turn.
proof fn lemma_mirror_angles(a: int)
    ensures
        ({
            let d1 = a % 360;
            let e1 = if d1 < 270 { d1 + 90 } else { d1 - 270 };
            &&& 0 <= d1 < 360
            &&& (a + 90) % 360 == e1
            &&& (270 - a) % 360 == (if e1 == 0 { 0 } else { 360 - e1 })
            &&& (180 - a) % 360 == (if d1 <= 180 { 180 - d1 } else { 540 - d1 })
        }),
{
    let k = a / 360;
    let d1 = a % 360;
    assert(a == 360 * k + d1);
    vstd::arithmetic::div_mod::lemma_mod_multiples_vanish(k, d1 + 90, 360);
    vstd::arithmetic::div_mod::lemma_mod_multiples_vanish(-k, 270 - d1, 360);
    vstd::arithmetic::div_mod::lemma_mod_multiples_vanish(-k, 180 - d1, 360);
    assert(a + 90 == 360 * k + (d1 + 90));
    assert(270 - a == 360 * (-k) + (270 - d1));
    assert(180 - a == 360 * (-k) + (180 - d1));
}

/// On the table's angles, mirroring negates the cosine and keeps the sine.
proof fn lemma_table_mirror(d1: int)
    requires
        0 <= d1 < 360,
        table_angle(d1),
    ensures
        ({
            let e1 = if d1 < 270 { d1 + 90 } else { d1 - 270 };
            let e2 = if e1 == 0 { 0 } else { 360 - e1 };
            let f2 = if d1 <= 180 { 180 - d1 } else { 540 - d1 };
            &&& sin_table(e2) == -sin_table(e1)
            &&& sin_table(f2) == sin_table(d1)
        }),
{
}

/// Launch speeds taken along directions of opposite signs have opposite
/// signs, and along directions of the same sign the same sign.
pub proof fn lemma_speeds_signs(kb: Fp, c1: int, c2: int)
    requires
        -100 <= c1 <= 100,
        -100 <= c2 <= 100,
        -21474836 <= kb.0 <= 21474836,
    ensures
        c1 * c2 <= 0 ==> knock_velocity(kb, c1).0 * knock_velocity(kb, c2).0 <= 0,
        c1 * c2 >= 0 ==> knock_velocity(kb, c1).0 * knock_velocity(kb, c2).0 >= 0,
{
    lemma_knock_velocity_sign(kb, c1);
    lemma_knock_velocity_sign(kb, c2);
    let v1 = knock_velocity(kb, c1).0 as int;
    let v2 = knock_velocity(kb, c2).0 as int;
    let k = kb.0 as int;
    assert((k * c1) * (k * c2) == (k * k) * (c1 * c2)) by (nonlinear_arith);
    assert(k * k >= 0) by (nonlinear_arith);
    if c1 * c2 <= 0 {
        assert((k * c1) * (k * c2) <= 0) by (nonlinear_arith)
            requires
                (k * c1) * (k * c2) == (k * k) * (c1 * c2),
                k * k >= 0,
                c1 * c2 <= 0,
        ;
        assert(v1 * v2 <= 0) by (nonlinear_arith)
            requires
                (k * c1) * (k * c2) <= 0,
                k * c1 >= 0 ==> v1 >= 0,
                k * c1 <= 0 ==> v1 <= 0,
                k * c2 >= 0 ==> v2 >= 0,
                k * c2 <= 0 ==> v2 <= 0,
        ;
    }
    if c1 * c2 >= 0 {
        assert((k * c1) * (k * c2) >= 0) by (nonlinear_arith)
            requires
                (k * c1) * (k * c2) == (k * k) * (c1 * c2),
                k * k >= 0,
                c1 * c2 >= 0,
        ;
        assert(v1 * v2 >= 0) by (nonlinear_arith)
            requires
                (k * c1) * (k * c2) >= 0,
                k * c1 >= 0 ==> v1 >= 0,
                k * c1 <= 0 ==> v1 <= 0,
                k * c2 >= 0 ==> v2 >= 0,
                k * c2 <= 0 ==> v2 <= 0,
        ;
    }
}

/// Knockback of a hit with base knockback between 0 and 100 units, and
/// with non-negative scaling and damage whose product with the damage after
/// the hit stays within 100 units times 200 units (so no step wraps): at
/// least the base knockback, and small enough that the launch speed is
/// computed without wrapping.
pub proof fn lemma_knockback_span(hit: HitData, damage_percent: u32, c: CharacterId)
    requires
        0 <= hit.base_knockback.0 <= 100 * 65536,
        0 <= hit.knockback_scaling.0,
        0 <= hit.damage.0,
        damage_percent <= 32767,
        damage_percent * 65536 + hit.damage.0 <= i32::MAX,
        hit.knockback_scaling.0 * (damage_percent * 65536 + hit.damage.0) <= 6553600int
            * 13107200,
    ensures
        hit.base_knockback.0 <= spec_knockback(
            hit,
            damage_percent,
            spec_character_stats(c).weight,
        ).0 <= 21474836,
{
    let w = spec_character_stats(c).weight;
    lemma_weight_factor(c);
    let total = crate::combat::kb_total_damage(hit, damage_percent);
    assert(fp_int((damage_percent as i32) as int).0 == damage_percent * 65536);
    assert(total.0 == damage_percent * 65536 + hit.damage.0);
    let t = total.0 as int;
    let sc = hit.knockback_scaling.0 as int;
    let prod = sc * t;
    assert(0 <= prod) by (nonlinear_arith)
        requires
            0 <= sc,
            0 <= t,
            prod == sc * t,
    ;
    vstd::arithmetic::div_mod::lemma_div_is_ordered(prod, 6553600int * 13107200, 65536);
    vstd::arithmetic::div_mod::lemma_div_is_ordered(0, prod, 65536);
    assert(6553600int * 13107200 / 65536 == 1310720000);
    let mm = fp_mul(hit.knockback_scaling, total);
    assert(mm.0 == prod / 65536);
    lemma_fp_div_units(mm.0 as int, 100);
    assert(fp_int(100) == Fp((100 * 65536) as i32));
    let st = crate::combat::kb_scaling_term(hit, damage_percent);
    assert(st.0 == trunc_div(mm.0 as int, 100));
    vstd::arithmetic::div_mod::lemma_div_is_ordered(mm.0 as int, 1310720000, 100);
    vstd::arithmetic::div_mod::lemma_div_is_ordered(0, mm.0 as int, 100);
    assert(0 <= st.0 <= 13107200);
    let wf = crate::combat::kb_weight_factor(w).0 as int;
    let q = st.0 as int * wf;
    assert(0 <= q <= 13107200 * 72018) by (nonlinear_arith)
        requires
            0 <= st.0 <= 13107200,
            0 <= wf <= 72018,
            q == st.0 * wf,
    ;
    vstd::arithmetic::div_mod::lemma_div_is_ordered(q, 13107200int * 72018, 65536);
    vstd::arithmetic::div_mod::lemma_div_is_ordered(0, q, 65536);
    assert(13107200int * 72018 / 65536 == 14403600);
    assert(fp_mul(st, crate::combat::kb_weight_factor(w)).0 == q / 65536);
}

/// What a hit does besides the launch: the target's damage grows by the
/// hit's damage in whole units, it leaves the ground in hitstun for
/// between 1 and 60 frames (more for harder hits, see
/// `lemma_hitstun_grows_with_knockback`), it can grab a ledge again, and
/// it stays where it is with its stocks and character.
pub proof fn lemma_hit_effects(d: PlayerState, hit: HitData, input: PlayerInput, attacker_facing_right: bool)
    requires
        hit_ok(hit),
        d.damage_percent <= 32700 - MAX_HIT_DAMAGE,
    ensures
        ({
            let r = spec_apply_hit(d, hit, input, attacker_facing_right);
            let kb = spec_knockback(hit, d.damage_percent, spec_character_stats(d.character).weight);
            &&& r.damage_percent == d.damage_percent + fp_to_int(hit.damage)
            &&& !r.grounded
            &&& !r.has_ledge_grab
            &&& r.action == ActionState::Hitstun { frames_left: hitstun_frames(kb) as u8 }
            &&& 1 <= hitstun_frames(kb) <= 60
            &&& r.position_x == d.position_x && r.position_y == d.position_y
            &&& r.stocks == d.stocks && r.character == d.character
        }),
{
    reveal(spec_apply_hit);
    assert(0 <= fp_to_int(hit.damage) <= MAX_HIT_DAMAGE);
}

} // verus!
