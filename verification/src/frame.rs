//! The phases of a frame after each player's own update: specials and
//! projectile spawns, projectile flight, melee hits and grabs, projectile
//! hits, and the end of the match.
use vstd::prelude::*;

use crate::combat::{HitData, Rect, spec_overlaps};
use crate::fixed::{Fp, SCALE, fp_add, fp_div, fp_int, fp_mul, fp_sub};
use crate::hit::{
    apply_hit, hit_ok, launch_angle, lemma_knockback_span, lemma_launch_direction, spec_apply_hit,
    DAMAGE_LIMIT, MAX_HIT_DAMAGE,
};
use crate::movement::{can_act, player_bounded, spec_can_act, POS_LIMIT, VEL_LIMIT};
use crate::state::{
    ActionState, AttackType, CharacterStats, PlayerInput, PlayerState, Projectile, attack_data,
    character_stats, player_hurtbox, spec_attack_data, spec_character_stats, spec_player_hurtbox,
    BLAST_LEFT, BLAST_RIGHT, MAX_PROJECTILES, PROJECTILE_BASE_KB, PROJECTILE_DAMAGE,
    PROJECTILE_KB_SCALING, PROJECTILE_SIZE, SHIELD_BREAK_STUN, SHIELD_DEPLETE_PER_HIT,
};

verus! {

/// Bound on the position of a live projectile along either axis, raw.
pub const PROJ_LIMIT: i32 = POS_LIMIT + 100 * SCALE;

/// Bound on the speed of a live projectile, raw.
pub const PROJ_SPEED_LIMIT: i32 = 100 * SCALE;

/// A live projectile stays near the play area with a moderate speed; a
/// spent slot may hold anything.
pub open spec fn proj_bounded(p: Projectile) -> bool {
    p.active ==> {
        &&& -PROJ_LIMIT <= p.position_x.0 <= PROJ_LIMIT
        &&& -PROJ_LIMIT <= p.position_y.0 <= PROJ_LIMIT
        &&& -PROJ_SPEED_LIMIT <= p.velocity_x.0 <= PROJ_SPEED_LIMIT
    }
}

pub open spec fn projs_bounded(ps: [Projectile; MAX_PROJECTILES]) -> bool {
    forall|k: int| 0 <= k < MAX_PROJECTILES ==> proj_bounded(#[trigger] ps[k])
}

/// A live player keeps its kinematic bounds.
pub open spec fn alive_bounded(p: PlayerState) -> bool {
    p.stocks > 0 ==> player_bounded(p)
}

/// `q` is `p` after hits and state changes that leave stocks and character
/// alone, add at most `extra` percent, and keep a live player's bounds.
pub open spec fn evolves(q: PlayerState, p: PlayerState, extra: int) -> bool {
    &&& q.stocks == p.stocks
    &&& q.character == p.character
    &&& q.damage_percent <= p.damage_percent + extra
    &&& alive_bounded(p) ==> alive_bounded(q)
}

/// The players with player `i` replaced by `p`.
pub open spec fn pair_set(ps: [PlayerState; 2], i: int, p: PlayerState) -> [PlayerState; 2] {
    if i == 0 {
        [p, ps[1]]
    } else {
        [ps[0], p]
    }
}

fn set_player(ps: [PlayerState; 2], i: usize, p: PlayerState) -> (r: [PlayerState; 2])
    requires
        i < 2,
    ensures
        r == pair_set(ps, i as int, p),
{
    if i == 0 {
        [p, ps[1]]
    } else {
        [ps[0], p]
    }
}

/// `+1` when facing right, `-1` otherwise.
pub open spec fn facing_dir(facing_right: bool) -> Fp {
    if facing_right {
        Fp(65536)
    } else {
        Fp(-65536i32)
    }
}

fn facing_factor(facing_right: bool) -> (r: Fp)
    ensures
        r == facing_dir(facing_right),
{
    if facing_right {
        Fp::one()
    } else {
        Fp::one().negated()
    }
}

/// Multiplying by `+1` or `-1` keeps or flips the sign exactly.
proof fn lemma_mul_facing(x: Fp, facing_right: bool)
    requires
        x.0 > i32::MIN,
    ensures
        fp_mul(x, facing_dir(facing_right)).0 == (if facing_right { x.0 as int } else { -x.0 }),
{
    let v = x.0 as int;
    vstd::arithmetic::div_mod::lemma_div_multiples_vanish(v, 65536);
    vstd::arithmetic::div_mod::lemma_div_multiples_vanish(-v, 65536);
    assert(v * 65536 == 65536 * v);
    assert(v * -65536 == 65536 * (-v));
}

// ---------------------------------------------------------------------------
// Boxes
// ---------------------------------------------------------------------------

/// The hitbox of the player's current attack (or grab): offset in front of
/// the player (behind it for a back air).
pub open spec fn spec_attack_hitbox(p: PlayerState) -> Rect {
    let data = spec_attack_data(p.current_attack);
    let facing = if p.current_attack == AttackType::BackAir {
        !p.facing_right
    } else {
        p.facing_right
    };
    Rect {
        x: fp_sub(
            fp_add(p.position_x, fp_mul(data.hitbox_offset_x, facing_dir(facing))),
            if facing {
                Fp(0)
            } else {
                data.hitbox_w
            },
        ),
        y: fp_add(p.position_y, data.hitbox_offset_y),
        w: data.hitbox_w,
        h: data.hitbox_h,
    }
}

/// Box coordinates a little past the play area, with small sizes: every
/// sum `overlaps` forms fits in 32 bits.
pub open spec fn rect_near(r: Rect) -> bool {
    &&& -(POS_LIMIT + 200 * SCALE) <= r.x.0 <= POS_LIMIT + 200 * SCALE
    &&& -(POS_LIMIT + 200 * SCALE) <= r.y.0 <= POS_LIMIT + 200 * SCALE
    &&& 0 <= r.w.0 <= 100 * SCALE
    &&& 0 <= r.h.0 <= 100 * SCALE
}

fn attack_hitbox(player: &PlayerState) -> (r: Rect)
    requires
        player_bounded(*player),
    ensures
        r == spec_attack_hitbox(*player),
        rect_near(r),
{
    let data = attack_data(player.current_attack);
    // Back air hitbox appears behind the player
    let facing = if player.current_attack == AttackType::BackAir {
        !player.facing_right
    } else {
        player.facing_right
    };
    let dir = facing_factor(facing);
    proof {
        lemma_mul_facing(data.hitbox_offset_x, facing);
    }
    let back = if facing {
        Fp::zero()
    } else {
        data.hitbox_w
    };
    Rect {
        x: player.position_x.plus(data.hitbox_offset_x.times(dir)).minus(back),
        y: player.position_y.plus(data.hitbox_offset_y),
        w: data.hitbox_w,
        h: data.hitbox_h,
    }
}

fn hurtbox_of(player: &PlayerState) -> (r: Rect)
    requires
        player_bounded(*player),
    ensures
        r == spec_player_hurtbox(*player),
        rect_near(r),
{
    player_hurtbox(player)
}

/// Half the size of a projectile.
pub open spec fn proj_half() -> Fp {
    fp_div(Fp(PROJECTILE_SIZE), fp_int(2))
}

/// The square a projectile occupies, centered on its position.
pub open spec fn proj_rect(p: Projectile) -> Rect {
    Rect {
        x: fp_sub(p.position_x, proj_half()),
        y: fp_sub(p.position_y, proj_half()),
        w: Fp(PROJECTILE_SIZE),
        h: Fp(PROJECTILE_SIZE),
    }
}

fn projectile_rect(p: &Projectile) -> (r: Rect)
    requires
        proj_bounded(*p),
        p.active,
    ensures
        r == proj_rect(*p),
        rect_near(r),
{
    proof {
        crate::hit::lemma_fp_div_units(PROJECTILE_SIZE as int, 2);
        assert(fp_int(2) == Fp((2 * 65536) as i32));
    }
    let half = Fp(PROJECTILE_SIZE).divided_by(Fp::from_int(2));
    Rect {
        x: p.position_x.minus(half),
        y: p.position_y.minus(half),
        w: Fp(PROJECTILE_SIZE),
        h: Fp(PROJECTILE_SIZE),
    }
}

fn boxes_overlap(a: &Rect, b: &Rect) -> (r: bool)
    requires
        rect_near(*a),
        rect_near(*b),
    ensures
        r == spec_overlaps(*a, *b),
{
    a.overlaps(b)
}

// ---------------------------------------------------------------------------
// Hits
// ---------------------------------------------------------------------------

/// A shield takes `SHIELD_DEPLETE_PER_HIT`; a shield that cannot take it
/// breaks into `SHIELD_BREAK_STUN` frames of stun.
pub open spec fn spec_shield_hit(d: PlayerState) -> PlayerState {
    if d.shield_hp > SHIELD_DEPLETE_PER_HIT {
        PlayerState { shield_hp: (d.shield_hp - SHIELD_DEPLETE_PER_HIT) as u16, ..d }
    } else {
        PlayerState {
            shield_hp: 0,
            action: ActionState::ShieldStun { frames_left: SHIELD_BREAK_STUN },
            ..d
        }
    }
}

/// What a shield does with a hit it takes: no damage gets through; the
/// shield loses `SHIELD_DEPLETE_PER_HIT`, or, with no more than that left,
/// breaks into `SHIELD_BREAK_STUN` frames of stun.
pub open spec fn shield_took_hit(after: PlayerState, before: PlayerState) -> bool {
    &&& after.damage_percent == before.damage_percent
    &&& after.stocks == before.stocks
    &&& if before.shield_hp > SHIELD_DEPLETE_PER_HIT {
        after.shield_hp == before.shield_hp - SHIELD_DEPLETE_PER_HIT && after.action
            == before.action
    } else {
        after.shield_hp == 0 && after.action == ActionState::ShieldStun {
            frames_left: SHIELD_BREAK_STUN,
        }
    }
}

/// An attack that connects with a shielding defender: the shield takes it.
pub proof fn lemma_shield_absorbs_attack(
    ps: [PlayerState; 2],
    att: PlayerState,
    a: int,
    inputs: [PlayerInput; 2],
)
    requires
        0 <= a < 2,
        ps[1 - a].action is Shielding,
    ensures
        shield_took_hit(spec_attack_outcome(ps, att, ps[1 - a], a, inputs)[1 - a], ps[1 - a]),
{
    broadcast use vstd::array::group_array_axioms;

    reveal(spec_spend_attack);
    let d = 1 - a;
    let q = pair_set(ps, d, spec_shield_hit(ps[d]));
    assert(!(ps[d].action is Counter));
    assert(q[d] == spec_shield_hit(ps[d]));
    let r = spec_spend_attack(q, a);
    assert(r == spec_attack_outcome(ps, att, ps[d], a, inputs));
    if a == 0 {
        assert(r[1] == q[1]);
    } else {
        assert(r[0] == q[0]);
    }
}

/// A projectile that strikes a shielding player: the shield takes it.
pub proof fn lemma_shield_absorbs_projectile(
    s: crate::state::GameState,
    k: int,
    d: int,
    inputs: [PlayerInput; 2],
)
    requires
        0 <= d < 2,
        s.players[d].action is Shielding,
    ensures
        shield_took_hit(spec_proj_strike(s, k, d, inputs).players[d], s.players[d]),
{
    reveal(spec_proj_strike);
}

fn shield_hit(d: PlayerState) -> (r: PlayerState)
    ensures
        r == spec_shield_hit(d),
        evolves(r, d, 0),
        r.invincibility_frames == d.invincibility_frames,
        r.damage_percent == d.damage_percent,
{
    if d.shield_hp > SHIELD_DEPLETE_PER_HIT {
        PlayerState { shield_hp: d.shield_hp - SHIELD_DEPLETE_PER_HIT, ..d }
    } else {
        PlayerState {
            shield_hp: 0,
            action: ActionState::ShieldStun { frames_left: SHIELD_BREAK_STUN },
            ..d
        }
    }
}

/// The hit an attack lands, from its frame data.
pub open spec fn attack_hit(a: AttackType) -> HitData {
    let data = spec_attack_data(a);
    HitData {
        base_knockback: data.base_kb,
        knockback_scaling: data.kb_scaling,
        knockback_angle: data.kb_angle,
        damage: data.damage,
    }
}

/// `1.3` in fixed point.
pub open spec fn counter_factor() -> Fp {
    Fp(85196)
}

/// A countered hit: 1.3 times the base knockback and damage.
pub open spec fn counter_hit(hit: HitData) -> HitData {
    HitData {
        base_knockback: fp_mul(hit.base_knockback, counter_factor()),
        damage: fp_mul(hit.damage, counter_factor()),
        ..hit
    }
}

/// A throw, by the direction the thrower holds: up, down, back, or forward
/// (the default).
pub open spec fn throw_hit(input: PlayerInput, facing_right: bool) -> HitData {
    let (angle, base, scaling, damage) = if input.has(PlayerInput::UP) {
        (90i32, 30int, 70int, 7int)
    } else if input.has(PlayerInput::DOWN) {
        (30i32, 20int, 50int, 5int)
    } else if (input.has(PlayerInput::LEFT) && facing_right) || (input.has(PlayerInput::RIGHT)
        && !facing_right) {
        (135i32, 30int, 65int, 8int)
    } else {
        (45i32, 28int, 60int, 6int)
    };
    HitData {
        base_knockback: fp_int(base),
        knockback_scaling: fp_int(scaling),
        knockback_angle: angle,
        damage: fp_int(damage),
    }
}

/// The hit a projectile lands.
pub open spec fn projectile_hit() -> HitData {
    HitData {
        base_knockback: Fp(PROJECTILE_BASE_KB),
        knockback_scaling: Fp(PROJECTILE_KB_SCALING),
        knockback_angle: 45,
        damage: Fp(PROJECTILE_DAMAGE),
    }
}

proof fn lemma_attack_hits_ok(a: AttackType)
    ensures
        hit_ok(attack_hit(a)),
        hit_ok(counter_hit(attack_hit(a))),
{
    let h = attack_hit(a);
    let dmg = h.damage.0 as int;
    let kb = h.base_knockback.0 as int;
    assert(0 <= dmg <= 22 * 65536 && dmg % 65536 == 0);
    assert(0 <= kb <= 50 * 65536 && kb % 65536 == 0);
    assert(dmg * 85196 / 65536 <= 22 * 85196) by (nonlinear_arith)
        requires
            0 <= dmg <= 22 * 65536,
            dmg % 65536 == 0,
    ;
    assert(dmg * 85196 / 65536 >= 0) by (nonlinear_arith)
        requires
            0 <= dmg,
    ;
    assert(kb * 85196 / 65536 <= 50 * 85196) by (nonlinear_arith)
        requires
            0 <= kb <= 50 * 65536,
            kb % 65536 == 0,
    ;
    assert(kb * 85196 / 65536 >= 0) by (nonlinear_arith)
        requires
            0 <= kb,
    ;
}

fn hit_of_attack(a: AttackType) -> (r: HitData)
    ensures
        r == attack_hit(a),
        hit_ok(r),
        hit_ok(counter_hit(r)),
{
    proof {
        lemma_attack_hits_ok(a);
    }
    let data = attack_data(a);
    HitData {
        base_knockback: data.base_kb,
        knockback_scaling: data.kb_scaling,
        knockback_angle: data.kb_angle,
        damage: data.damage,
    }
}

fn countered(hit: &HitData) -> (r: HitData)
    ensures
        r == counter_hit(*hit),
{
    // Counter! Reflect damage back to attacker with 1.3x multiplier
    let factor = Fp::from_raw(Fp::one().raw() * 13 / 10);
    HitData {
        base_knockback: hit.base_knockback.times(factor),
        knockback_scaling: hit.knockback_scaling,
        knockback_angle: hit.knockback_angle,
        damage: hit.damage.times(factor),
    }
}

fn throw_of(input: PlayerInput, facing_right: bool) -> (r: HitData)
    ensures
        r == throw_hit(input, facing_right),
        hit_ok(r),
{
    // Determine throw direction from the thrower's held input
    let (kb_angle, base_kb, kb_scaling, dmg): (i32, i32, i32, i32) = if input.pressed(
        PlayerInput::UP,
    ) {
        (90, 30, 70, 7)  // up throw
    } else if input.pressed(PlayerInput::DOWN) {
        (30, 20, 50, 5)  // down throw — low angle, combo starter
    } else if (input.pressed(PlayerInput::LEFT) && facing_right) || (input.pressed(
        PlayerInput::RIGHT,
    ) && !facing_right) {
        (135, 30, 65, 8)  // back throw — behind attacker
    } else {
        (45, 28, 60, 6)  // forward throw (default)
    };
    HitData {
        base_knockback: Fp::from_int(base_kb),
        knockback_scaling: Fp::from_int(kb_scaling),
        knockback_angle: kb_angle,
        damage: Fp::from_int(dmg),
    }
}

fn hit_of_projectile() -> (r: HitData)
    ensures
        r == projectile_hit(),
        hit_ok(r),
{
    HitData {
        base_knockback: Fp(PROJECTILE_BASE_KB),
        knockback_scaling: Fp(PROJECTILE_KB_SCALING),
        knockback_angle: 45,
        damage: Fp(PROJECTILE_DAMAGE),
    }
}

/// Damage low enough for a hit to be applied this frame.
pub open spec fn can_take_hit(p: PlayerState) -> bool {
    p.damage_percent <= 32700 - MAX_HIT_DAMAGE
}

fn hit_player(d: PlayerState, hit: &HitData, input: PlayerInput, attacker_facing_right: bool) -> (r:
    PlayerState)
    requires
        hit_ok(*hit),
        can_take_hit(d),
    ensures
        r == spec_apply_hit(d, *hit, input, attacker_facing_right),
        evolves(r, d, MAX_HIT_DAMAGE as int),
        r.invincibility_frames == d.invincibility_frames,
{
    apply_hit(d, hit, input, attacker_facing_right)
}

// ---------------------------------------------------------------------------
// Melee: attacks and grabs
// ---------------------------------------------------------------------------

/// Both players are in the match and the defender is not invincible.
pub open spec fn melee_applies(att: PlayerState, def: PlayerState) -> bool {
    att.stocks != 0 && def.stocks != 0 && def.invincibility_frames == 0
}

/// The attacker's active hitbox, not yet spent this attack, overlaps the
/// defender's hurtbox.
pub open spec fn attack_connects(att: PlayerState, def: PlayerState) -> bool {
    &&& att.action is AttackActive
    &&& !att.hit_this_attack
    &&& spec_overlaps(spec_attack_hitbox(att), spec_player_hurtbox(def))
}

/// The attacker's grab reaches a shielding or idle defender.
pub open spec fn grab_connects(att: PlayerState, def: PlayerState) -> bool {
    &&& att.action is Grabbing
    &&& spec_overlaps(spec_attack_hitbox(att), spec_player_hurtbox(def))
    &&& (def.action is Shielding || def.action is Idle)
}

/// A countered attack: the attacker takes its hit at 1.3x, launched the
/// way the countering defender faces, and the defender returns to idle.
#[verifier::opaque]
pub open spec fn spec_countered(
    ps: [PlayerState; 2],
    hit: HitData,
    def: PlayerState,
    a: int,
    inputs: [PlayerInput; 2],
) -> [PlayerState; 2] {
    let ps0 = pair_set(ps, a, spec_apply_hit(ps[a], counter_hit(hit), inputs[a], def.facing_right));
    pair_set(ps0, 1 - a, PlayerState { action: ActionState::Idle, ..ps0[1 - a] })
}

/// The attack is spent: it cannot hit again.
#[verifier::opaque]
pub open spec fn spec_spend_attack(ps: [PlayerState; 2], a: int) -> [PlayerState; 2] {
    pair_set(ps, a, PlayerState { hit_this_attack: true, ..ps[a] })
}

/// What a connecting attack of attacker `a` does: a countering defender
/// reflects it, a shield absorbs it, otherwise the defender takes it; the
/// attack is then spent.
pub open spec fn spec_attack_outcome(
    ps: [PlayerState; 2],
    att: PlayerState,
    def: PlayerState,
    a: int,
    inputs: [PlayerInput; 2],
) -> [PlayerState; 2] {
    let d = 1 - a;
    let hit = attack_hit(att.current_attack);
    spec_spend_attack(
        if def.action is Counter {
            spec_countered(ps, hit, def, a, inputs)
        } else if def.action is Shielding {
            pair_set(ps, d, spec_shield_hit(ps[d]))
        } else {
            pair_set(ps, d, spec_apply_hit(ps[d], hit, inputs[d], att.facing_right))
        },
        a,
    )
}

/// Attacker `a`'s attack, judged on the snapshot `snap` and applied to the
/// current players `ps`.
pub open spec fn spec_attack_step(
    ps: [PlayerState; 2],
    snap: [PlayerState; 2],
    a: int,
    inputs: [PlayerInput; 2],
) -> [PlayerState; 2] {
    if attack_connects(snap[a], snap[1 - a]) {
        spec_attack_outcome(ps, snap[a], snap[1 - a], a, inputs)
    } else {
        ps
    }
}

/// Attacker `a`'s grab, judged on the snapshot: the defender is thrown in
/// the direction the attacker holds, and both return to idle.
#[verifier::opaque]
pub open spec fn spec_grab_step(
    ps: [PlayerState; 2],
    snap: [PlayerState; 2],
    a: int,
    inputs: [PlayerInput; 2],
) -> [PlayerState; 2] {
    let d = 1 - a;
    let att = snap[a];
    let def = snap[d];
    if grab_connects(att, def) {
        let ps0 = pair_set(ps, d, PlayerState { action: ActionState::Idle, ..ps[d] });
        let ps1 = pair_set(
            ps0,
            d,
            spec_apply_hit(
                ps0[d],
                throw_hit(inputs[a], att.facing_right),
                inputs[d],
                att.facing_right,
            ),
        );
        pair_set(ps1, a, PlayerState { action: ActionState::Idle, ..ps1[a] })
    } else {
        ps
    }
}

/// Everything attacker `a` does to the players this frame.
pub open spec fn spec_melee_for(
    ps: [PlayerState; 2],
    snap: [PlayerState; 2],
    a: int,
    inputs: [PlayerInput; 2],
) -> [PlayerState; 2] {
    if melee_applies(snap[a], snap[1 - a]) {
        spec_grab_step(spec_attack_step(ps, snap, a, inputs), snap, a, inputs)
    } else {
        ps
    }
}

/// Melee hit detection for both attackers, each judged on the positions
/// and states at the start of the phase.
pub open spec fn spec_melee(ps: [PlayerState; 2], inputs: [PlayerInput; 2]) -> [PlayerState; 2] {
    spec_melee_for(spec_melee_for(ps, ps, 0, inputs), ps, 1, inputs)
}

/// Each player of `qs` evolved from the same player of `ps`.
pub open spec fn pair_evolves(qs: [PlayerState; 2], ps: [PlayerState; 2], extra: int) -> bool {
    evolves(qs[0], ps[0], extra) && evolves(qs[1], ps[1], extra)
}

/// Invincible and not in an attack's active frames: nothing this frame
/// can damage the player.
pub open spec fn protected(p: PlayerState) -> bool {
    p.invincibility_frames > 0 && !(p.action is AttackActive)
}

/// Invincibility unchanged, and a player protected in `snap` takes no
/// damage.
pub open spec fn pair_spares(qs: [PlayerState; 2], ps: [PlayerState; 2], snap: [PlayerState; 2]) -> bool {
    &&& qs[0].invincibility_frames == ps[0].invincibility_frames
    &&& qs[1].invincibility_frames == ps[1].invincibility_frames
    &&& protected(snap[0]) ==> qs[0].damage_percent == ps[0].damage_percent
    &&& protected(snap[1]) ==> qs[1].damage_percent == ps[1].damage_percent
}

/// Both players can take hits.
pub open spec fn pair_can_take(ps: [PlayerState; 2], extra: int) -> bool {
    ps[0].damage_percent + extra <= 32700 - MAX_HIT_DAMAGE && ps[1].damage_percent + extra <= 32700
        - MAX_HIT_DAMAGE
}

/// The snapshot players that can fight are within bounds.
pub open spec fn snap_ok(snap: [PlayerState; 2]) -> bool {
    alive_bounded(snap[0]) && alive_bounded(snap[1])
}

fn counter_outcome(
    ps: [PlayerState; 2],
    hit: &HitData,
    defender: &PlayerState,
    a: usize,
    inputs: [PlayerInput; 2],
) -> (r: [PlayerState; 2])
    requires
        a < 2,
        pair_can_take(ps, 0),
        hit_ok(counter_hit(*hit)),
    ensures
        r == spec_countered(ps, *hit, *defender, a as int, inputs),
        pair_evolves(r, ps, MAX_HIT_DAMAGE as int),
        r[0].invincibility_frames == ps[0].invincibility_frames,
        r[1].invincibility_frames == ps[1].invincibility_frames,
        r[1 - a].damage_percent == ps[1 - a].damage_percent,
{
    reveal(spec_countered);
    let counter_hit = countered(hit);
    let struck = hit_player(ps[a], &counter_hit, inputs[a], defender.facing_right);
    let ps0 = set_player(ps, a, struck);
    let d = 1 - a;
    set_player(ps0, d, PlayerState { action: ActionState::Idle, ..ps0[d] })
}

fn spend_attack(ps: [PlayerState; 2], a: usize) -> (r: [PlayerState; 2])
    requires
        a < 2,
    ensures
        r == spec_spend_attack(ps, a as int),
        pair_evolves(r, ps, 0),
        pair_spares(r, ps, ps),
        r[0].damage_percent == ps[0].damage_percent,
        r[1].damage_percent == ps[1].damage_percent,
{
    reveal(spec_spend_attack);
    set_player(ps, a, PlayerState { hit_this_attack: true, ..ps[a] })
}

fn attack_outcome(
    ps: [PlayerState; 2],
    attacker: &PlayerState,
    defender: &PlayerState,
    a: usize,
    inputs: [PlayerInput; 2],
) -> (r: [PlayerState; 2])
    requires
        a < 2,
        pair_can_take(ps, 0),
    ensures
        r == spec_attack_outcome(ps, *attacker, *defender, a as int, inputs),
        pair_evolves(r, ps, MAX_HIT_DAMAGE as int),
        r[0].invincibility_frames == ps[0].invincibility_frames,
        r[1].invincibility_frames == ps[1].invincibility_frames,
{
    let d = 1 - a;
    let hit = hit_of_attack(attacker.current_attack);
    let ps1 = if matches!(defender.action, ActionState::Counter { .. }) {
        counter_outcome(ps, &hit, defender, a, inputs)
    } else if matches!(defender.action, ActionState::Shielding) {
        // Hit shield
        set_player(ps, d, shield_hit(ps[d]))
    } else {
        // Normal hit
        let struck = hit_player(ps[d], &hit, inputs[d], attacker.facing_right);
        set_player(ps, d, struck)
    };
    spend_attack(ps1, a)
}

fn attack_step(
    ps: [PlayerState; 2],
    snap: &[PlayerState; 2],
    a: usize,
    inputs: [PlayerInput; 2],
) -> (r: [PlayerState; 2])
    requires
        a < 2,
        snap_ok(*snap),
        melee_applies(snap[a as int], snap[1 - a]),
        pair_can_take(ps, 0),
    ensures
        r == spec_attack_step(ps, *snap, a as int, inputs),
        pair_evolves(r, ps, MAX_HIT_DAMAGE as int),
        !attack_connects(snap[a as int], snap[1 - a]) ==> r == ps,
        pair_spares(r, ps, *snap),
{
    let d = 1 - a;
    let attacker = &snap[a];
    let defender = &snap[d];
    if matches!(attacker.action, ActionState::AttackActive { .. }) && !attacker.hit_this_attack {
        let defender_hurtbox = hurtbox_of(defender);
        let hitbox = attack_hitbox(attacker);
        if boxes_overlap(&hitbox, &defender_hurtbox) {
            return attack_outcome(ps, attacker, defender, a, inputs);
        }
    }
    ps
}

#[verifier::spinoff_prover]
#[verifier::rlimit(30)]
fn grab_step(
    ps: [PlayerState; 2],
    snap: &[PlayerState; 2],
    a: usize,
    inputs: [PlayerInput; 2],
) -> (r: [PlayerState; 2])
    requires
        a < 2,
        snap_ok(*snap),
        melee_applies(snap[a as int], snap[1 - a]),
        pair_can_take(ps, 0),
    ensures
        r == spec_grab_step(ps, *snap, a as int, inputs),
        pair_evolves(r, ps, MAX_HIT_DAMAGE as int),
        !grab_connects(snap[a as int], snap[1 - a]) ==> r == ps,
        pair_spares(r, ps, *snap),
{
    reveal(spec_grab_step);
    let d = 1 - a;
    let attacker = &snap[a];
    let defender = &snap[d];
    if matches!(attacker.action, ActionState::Grabbing { .. }) {
        let defender_hurtbox = hurtbox_of(defender);
        // The grab reuses the attack hitbox for its range.
        let grab_box = attack_hitbox(attacker);
        if boxes_overlap(&grab_box, &defender_hurtbox) && (matches!(
            defender.action,
            ActionState::Shielding | ActionState::Idle
        )) {
            let throw_hit = throw_of(inputs[a], attacker.facing_right);
            let ps0 = set_player(ps, d, PlayerState { action: ActionState::Idle, ..ps[d] });
            let thrown = hit_player(ps0[d], &throw_hit, inputs[d], attacker.facing_right);
            let ps1 = set_player(ps0, d, thrown);
            return set_player(ps1, a, PlayerState { action: ActionState::Idle, ..ps1[a] });
        }
    }
    ps
}

/// An attacker's active hitbox and its grab cannot both be out: a grab
/// step after a connecting attack changes nothing.
proof fn lemma_attack_or_grab(att: PlayerState, def: PlayerState)
    ensures
        attack_connects(att, def) ==> !grab_connects(att, def),
{
}

fn melee_for(
    ps: [PlayerState; 2],
    snap: &[PlayerState; 2],
    a: usize,
    inputs: [PlayerInput; 2],
) -> (r: [PlayerState; 2])
    requires
        a < 2,
        snap_ok(*snap),
        pair_can_take(ps, MAX_HIT_DAMAGE as int),
    ensures
        r == spec_melee_for(ps, *snap, a as int, inputs),
        pair_evolves(r, ps, MAX_HIT_DAMAGE as int),
        pair_spares(r, ps, *snap),
{
    let d = 1 - a;
    if snap[a].stocks == 0 || snap[d].stocks == 0 {
        return ps;
    }
    if snap[d].invincibility_frames > 0 {
        return ps;
    }
    let ps1 = attack_step(ps, snap, a, inputs);
    proof {
        reveal(spec_attack_step);
        reveal(spec_grab_step);
        lemma_attack_or_grab(snap[a as int], snap[d as int]);
    }
    grab_step(ps1, snap, a, inputs)
}

pub(crate) fn melee(ps: [PlayerState; 2], inputs: [PlayerInput; 2]) -> (r: [PlayerState; 2])
    requires
        snap_ok(ps),
        pair_can_take(ps, 2 * MAX_HIT_DAMAGE),
    ensures
        r == spec_melee(ps, inputs),
        pair_evolves(r, ps, 2 * MAX_HIT_DAMAGE),
        pair_spares(r, ps, ps),
{
    // Hit checks read the players as they were at the start of the phase.
    let players_snapshot = ps;
    let after_first = melee_for(ps, &players_snapshot, 0, inputs);
    melee_for(after_first, &players_snapshot, 1, inputs)
}

// ---------------------------------------------------------------------------
// Specials and projectile spawns
// ---------------------------------------------------------------------------

/// How many of the projectiles among the first `n` slots are live and
/// belong to `owner`.
pub open spec fn owned_count(ps: [Projectile; MAX_PROJECTILES], owner: u8, n: int) -> nat
    decreases n,
{
    if n <= 0 {
        0
    } else {
        owned_count(ps, owner, n - 1) + (if ps[n - 1].active && ps[n - 1].owner == owner {
            1nat
        } else {
            0nat
        })
    }
}

/// The first spent slot at or after `k`, if any.
pub open spec fn first_inactive_from(ps: [Projectile; MAX_PROJECTILES], k: int) -> Option<int>
    decreases MAX_PROJECTILES - k,
{
    if k >= MAX_PROJECTILES {
        None
    } else if !ps[k].active {
        Some(k)
    } else {
        first_inactive_from(ps, k + 1)
    }
}

fn count_player_projectiles(projectiles: &[Projectile; MAX_PROJECTILES], owner: u8) -> (r: usize)
    ensures
        r == owned_count(*projectiles, owner, MAX_PROJECTILES as int),
{
    let mut count: usize = 0;
    let mut k: usize = 0;
    while k < MAX_PROJECTILES
        invariant
            k <= MAX_PROJECTILES,
            count == owned_count(*projectiles, owner, k as int),
            count <= k,
        decreases MAX_PROJECTILES - k,
    {
        if projectiles[k].active && projectiles[k].owner == owner {
            count += 1;
        }
        k += 1;
    }
    count
}

fn first_inactive(projectiles: &[Projectile; MAX_PROJECTILES]) -> (r: Option<usize>)
    ensures
        match r {
            Some(k) => k < MAX_PROJECTILES && first_inactive_from(*projectiles, 0) == Some(k as int),
            None => first_inactive_from(*projectiles, 0) is None,
        },
{
    let mut k: usize = 0;
    while k < MAX_PROJECTILES
        invariant
            k <= MAX_PROJECTILES,
            first_inactive_from(*projectiles, 0) == first_inactive_from(*projectiles, k as int),
        decreases MAX_PROJECTILES - k,
    {
        if !projectiles[k].active {
            return Some(k);
        }
        k += 1;
    }
    None
}

/// Side special: a lunging attack toward the held side.
pub open spec fn spec_side_special(p: PlayerState, input: PlayerInput) -> PlayerState {
    let facing_right = !input.has(PlayerInput::LEFT);
    PlayerState {
        current_attack: AttackType::SideSpecial,
        action: ActionState::AttackStartup {
            frames_left: spec_attack_data(AttackType::SideSpecial).startup,
        },
        hit_this_attack: false,
        facing_right,
        velocity_x: fp_mul(fp_int(6), facing_dir(facing_right)),
        ..p
    }
}

/// A projectile fired by player `i`: 30 units in front of it and 30 up,
/// flying the way it faces.
pub open spec fn spawned_projectile(p: PlayerState, i: int, stats: CharacterStats) -> Projectile {
    let dir = facing_dir(p.facing_right);
    Projectile {
        active: true,
        owner: i as u8,
        position_x: fp_add(p.position_x, fp_mul(fp_int(30), dir)),
        position_y: fp_sub(p.position_y, fp_int(30)),
        velocity_x: fp_mul(stats.projectile_speed, dir),
        lifetime: stats.projectile_lifetime,
    }
}

/// Player `i`'s special button this frame. The held state is recorded; a
/// fresh press by an idle player in the match starts a side special when a
/// side is held without up, or fires a projectile into the first spent
/// slot when up is not held and the character has fewer than its maximum
/// out.
#[verifier::opaque]
pub open spec fn spec_special(
    s: crate::state::GameState,
    i: int,
    input: PlayerInput,
) -> crate::state::GameState {
    let special = input.has(PlayerInput::SPECIAL);
    let fresh = special && !s.players[i].special_held;
    let p = PlayerState { special_held: special, ..s.players[i] };
    let recorded = crate::state::GameState { players: pair_set(s.players, i, p), ..s };
    let side = input.has(PlayerInput::LEFT) || input.has(PlayerInput::RIGHT);
    let up = input.has(PlayerInput::UP);
    let stats = spec_character_stats(p.character);
    if fresh && spec_can_act(p) && p.stocks > 0 {
        if side && !up {
            crate::state::GameState {
                players: pair_set(s.players, i, spec_side_special(p, input)),
                ..s
            }
        } else if !up && owned_count(s.projectiles, i as u8, MAX_PROJECTILES as int)
            < stats.max_projectiles {
            match first_inactive_from(s.projectiles, 0) {
                Some(k) => crate::state::GameState {
                    projectiles: vstd::array::spec_array_update(
                        s.projectiles,
                        k,
                        spawned_projectile(p, i, stats),
                    ),
                    ..recorded
                },
                None => recorded,
            }
        } else {
            recorded
        }
    } else {
        recorded
    }
}

/// Players and projectiles within their bounds.
pub open spec fn state_bounded(s: crate::state::GameState) -> bool {
    &&& alive_bounded(s.players[0])
    &&& alive_bounded(s.players[1])
    &&& projs_bounded(s.projectiles)
}

/// Everything but players and projectiles is unchanged.
pub open spec fn same_match(r: crate::state::GameState, s: crate::state::GameState) -> bool {
    r.frame == s.frame && r.match_over == s.match_over && r.winner == s.winner
}

fn side_special(p: PlayerState, input: PlayerInput) -> (r: PlayerState)
    ensures
        r == spec_side_special(p, input),
        evolves(r, p, 0),
        r.invincibility_frames == p.invincibility_frames,
        !(r.action is AttackActive),
{
    let data = attack_data(AttackType::SideSpecial);
    // Set facing direction
    let facing_right = if input.pressed(PlayerInput::LEFT) {
        false
    } else {
        true
    };
    // Lunge velocity
    let dir = facing_factor(facing_right);
    proof {
        lemma_mul_facing(fp_int(6), facing_right);
    }
    PlayerState {
        current_attack: AttackType::SideSpecial,
        action: ActionState::AttackStartup { frames_left: data.startup },
        hit_this_attack: false,
        facing_right,
        velocity_x: Fp::from_int(6).times(dir),
        ..p
    }
}

fn spawn_projectile(p: &PlayerState, i: usize, stats: &CharacterStats) -> (r: Projectile)
    requires
        i < 2,
        player_bounded(*p),
        *stats == spec_character_stats(p.character),
    ensures
        r == spawned_projectile(*p, i as int, *stats),
        proj_bounded(r),
{
    let dir = facing_factor(p.facing_right);
    proof {
        lemma_mul_facing(fp_int(30), p.facing_right);
        lemma_mul_facing(stats.projectile_speed, p.facing_right);
    }
    Projectile {
        active: true,
        owner: i as u8,
        position_x: p.position_x.plus(Fp::from_int(30).times(dir)),
        position_y: p.position_y.minus(Fp::from_int(30)),
        velocity_x: stats.projectile_speed.times(dir),
        lifetime: stats.projectile_lifetime,
    }
}

proof fn lemma_array_update_bounded(ps: [Projectile; MAX_PROJECTILES], k: int, p: Projectile)
    requires
        projs_bounded(ps),
        proj_bounded(p),
        0 <= k < MAX_PROJECTILES,
    ensures
        projs_bounded(vstd::array::spec_array_update(ps, k, p)),
{
    broadcast use vstd::array::group_array_axioms;

    let r = vstd::array::spec_array_update(ps, k, p);
    assert forall|j: int| 0 <= j < MAX_PROJECTILES implies proj_bounded(#[trigger] r[j]) by {
        if j == k {
            assert(r[j] == p);
        } else {
            assert(r[j] == ps[j]);
        }
    }
}

pub(crate) fn special(s: crate::state::GameState, i: usize, input: PlayerInput) -> (r:
    crate::state::GameState)
    requires
        i < 2,
        state_bounded(s),
    ensures
        r == spec_special(s, i as int, input),
        state_bounded(r),
        pair_evolves(r.players, s.players, 0),
        same_match(r, s),
        r.players[0].invincibility_frames == s.players[0].invincibility_frames,
        r.players[1].invincibility_frames == s.players[1].invincibility_frames,
        !(s.players[0].action is AttackActive) ==> !(r.players[0].action is AttackActive),
        !(s.players[1].action is AttackActive) ==> !(r.players[1].action is AttackActive),
{
    reveal(spec_special);
    let special_pressed = input.pressed(PlayerInput::SPECIAL);
    let fresh_press = special_pressed && !s.players[i].special_held;
    let p = PlayerState { special_held: special_pressed, ..s.players[i] };
    let recorded = crate::state::GameState { players: set_player(s.players, i, p), ..s };

    let holding_side = input.pressed(PlayerInput::LEFT) || input.pressed(PlayerInput::RIGHT);
    let holding_up = input.pressed(PlayerInput::UP);
    let stats = character_stats(p.character);

    if fresh_press && can_act(&p) && p.stocks > 0 {
        if holding_side && !holding_up {
            // Side-B: lunging attack
            return crate::state::GameState {
                players: set_player(s.players, i, side_special(p, input)),
                ..s
            };
        } else if !holding_up && count_player_projectiles(&s.projectiles, i as u8)
            < stats.max_projectiles {
            // Neutral-B: spawn projectile
            match first_inactive(&s.projectiles) {
                Some(k) => {
                    let mut projectiles = s.projectiles;
                    let shot = spawn_projectile(&p, i, &stats);
                    proof {
                        lemma_array_update_bounded(s.projectiles, k as int, shot);
                    }
                    projectiles[k] = shot;
                    return crate::state::GameState { projectiles, ..recorded };
                },
                None => {
                    return recorded;
                },
            }
        }
    }
    recorded
}

// ---------------------------------------------------------------------------
// Projectile flight
// ---------------------------------------------------------------------------

/// A live projectile moves by its velocity and ages one frame; it is spent
/// when its lifetime runs out or it leaves the blast zone sideways.
pub open spec fn spec_tick_projectile(p: Projectile) -> Projectile {
    if !p.active {
        p
    } else {
        let x = fp_add(p.position_x, p.velocity_x);
        Projectile {
            position_x: x,
            lifetime: if p.lifetime <= 1 {
                p.lifetime
            } else {
                (p.lifetime - 1) as u8
            },
            active: p.lifetime > 1 && !(x.0 < BLAST_LEFT || x.0 > BLAST_RIGHT),
            ..p
        }
    }
}

/// Every projectile after one frame of flight.
pub open spec fn spec_tick_all(ps: [Projectile; MAX_PROJECTILES]) -> [Projectile; MAX_PROJECTILES] {
    [
        spec_tick_projectile(ps[0]),
        spec_tick_projectile(ps[1]),
        spec_tick_projectile(ps[2]),
        spec_tick_projectile(ps[3]),
        spec_tick_projectile(ps[4]),
        spec_tick_projectile(ps[5]),
    ]
}

fn tick_projectile(p: Projectile) -> (r: Projectile)
    requires
        proj_bounded(p),
    ensures
        r == spec_tick_projectile(p),
        proj_bounded(r),
{
    if !p.active {
        return p;
    }
    let x = p.position_x.plus(p.velocity_x);
    let lifetime = if p.lifetime <= 1 {
        p.lifetime
    } else {
        p.lifetime - 1
    };
    // Despawn when the lifetime runs out or off screen
    let active = p.lifetime > 1 && !(x.0 < BLAST_LEFT || x.0 > BLAST_RIGHT);
    Projectile { position_x: x, lifetime, active, ..p }
}

pub(crate) fn tick_projectiles(projectiles: [Projectile; MAX_PROJECTILES]) -> (r: [Projectile;
    MAX_PROJECTILES])
    requires
        projs_bounded(projectiles),
    ensures
        r == spec_tick_all(projectiles),
        projs_bounded(r),
{
    broadcast use vstd::array::group_array_axioms;

    let mut r = projectiles;
    let mut k: usize = 0;
    while k < MAX_PROJECTILES
        invariant
            k <= MAX_PROJECTILES,
            projs_bounded(projectiles),
            forall|j: int| 0 <= j < k ==> r[j] == spec_tick_projectile(projectiles[j]),
            forall|j: int| k <= j < MAX_PROJECTILES ==> r[j] == projectiles[j],
            forall|j: int| 0 <= j < k ==> proj_bounded(#[trigger] r[j]),
        decreases MAX_PROJECTILES - k,
    {
        let ticked = tick_projectile(r[k]);
        r[k] = ticked;
        k += 1;
    }
    assert(r =~= spec_tick_all(projectiles));
    r
}

// ---------------------------------------------------------------------------
// Projectile hits
// ---------------------------------------------------------------------------

/// Projectile `k` strikes player `d`: not its owner, in the match, not
/// invincible, and overlapping its hurtbox.
pub open spec fn proj_targets(s: crate::state::GameState, k: int, d: int) -> bool {
    let p = s.projectiles[k];
    &&& d != p.owner
    &&& s.players[d].stocks != 0
    &&& s.players[d].invincibility_frames == 0
    &&& spec_overlaps(proj_rect(p), spec_player_hurtbox(s.players[d]))
}

/// Projectile `k` lands on player `d` (absorbed by a shield, otherwise a hit
/// launched the way the projectile flies) and is spent.
#[verifier::opaque]
pub open spec fn spec_proj_strike(
    s: crate::state::GameState,
    k: int,
    d: int,
    inputs: [PlayerInput; 2],
) -> crate::state::GameState {
    let p = s.projectiles[k];
    let def = s.players[d];
    let struck = if def.action is Shielding {
        spec_shield_hit(def)
    } else {
        spec_apply_hit(def, projectile_hit(), inputs[d], p.velocity_x.0 > 0)
    };
    crate::state::GameState {
        players: pair_set(s.players, d, struck),
        projectiles: vstd::array::spec_array_update(s.projectiles, k, Projectile { active: false, ..p }),
        ..s
    }
}

/// A live projectile `k` hits the first player it strikes, if any.
pub open spec fn spec_proj_hit(
    s: crate::state::GameState,
    k: int,
    inputs: [PlayerInput; 2],
) -> crate::state::GameState {
    if !s.projectiles[k].active {
        s
    } else if proj_targets(s, k, 0) {
        spec_proj_strike(s, k, 0, inputs)
    } else if proj_targets(s, k, 1) {
        spec_proj_strike(s, k, 1, inputs)
    } else {
        s
    }
}

/// Hit detection for the first `n` projectile slots, in slot order.
pub open spec fn spec_proj_hits_upto(
    s: crate::state::GameState,
    n: int,
    inputs: [PlayerInput; 2],
) -> crate::state::GameState
    decreases n,
{
    if n <= 0 {
        s
    } else {
        spec_proj_hit(spec_proj_hits_upto(s, n - 1, inputs), n - 1, inputs)
    }
}

fn proj_strikes(s: &crate::state::GameState, k: usize, d: usize) -> (r: bool)
    requires
        k < MAX_PROJECTILES,
        d < 2,
        state_bounded(*s),
        s.projectiles[k as int].active,
    ensures
        r == proj_targets(*s, k as int, d as int),
{
    let proj = s.projectiles[k];
    if d as u8 == proj.owner {
        return false;
    }
    if s.players[d].stocks == 0 {
        return false;
    }
    if s.players[d].invincibility_frames > 0 {
        return false;
    }
    let proj_rect = projectile_rect(&proj);
    let defender_hurtbox = hurtbox_of(&s.players[d]);
    boxes_overlap(&proj_rect, &defender_hurtbox)
}

fn proj_strike(
    s: crate::state::GameState,
    k: usize,
    d: usize,
    inputs: [PlayerInput; 2],
) -> (r: crate::state::GameState)
    requires
        k < MAX_PROJECTILES,
        d < 2,
        state_bounded(s),
        pair_can_take(s.players, 0),
        s.players[d as int].invincibility_frames == 0,
    ensures
        r == spec_proj_strike(s, k as int, d as int, inputs),
        state_bounded(r),
        pair_evolves(r.players, s.players, MAX_HIT_DAMAGE as int),
        same_match(r, s),
        r.players[0].invincibility_frames == s.players[0].invincibility_frames,
        r.players[1].invincibility_frames == s.players[1].invincibility_frames,
        r.players[1 - d].damage_percent == s.players[1 - d].damage_percent,
{
    reveal(spec_proj_strike);
    broadcast use vstd::array::group_array_axioms;

    let proj = s.projectiles[k];
    let struck = if matches!(s.players[d].action, ActionState::Shielding) {
        shield_hit(s.players[d])
    } else {
        let hit = hit_of_projectile();
        let facing = proj.velocity_x.0 > 0;
        hit_player(s.players[d], &hit, inputs[d], facing)
    };
    let mut projectiles = s.projectiles;
    let spent = Projectile { active: false, ..proj };
    proof {
        lemma_array_update_bounded(s.projectiles, k as int, spent);
    }
    projectiles[k] = spent;
    crate::state::GameState { players: set_player(s.players, d, struck), projectiles, ..s }
}

fn proj_hit(s: crate::state::GameState, k: usize, inputs: [PlayerInput; 2]) -> (r:
    crate::state::GameState)
    requires
        k < MAX_PROJECTILES,
        state_bounded(s),
        pair_can_take(s.players, 0),
    ensures
        r == spec_proj_hit(s, k as int, inputs),
        state_bounded(r),
        pair_evolves(r.players, s.players, MAX_HIT_DAMAGE as int),
        same_match(r, s),
        pair_spares(r.players, s.players, s.players),
        s.players[0].invincibility_frames > 0 ==> r.players[0].damage_percent
            == s.players[0].damage_percent,
        s.players[1].invincibility_frames > 0 ==> r.players[1].damage_percent
            == s.players[1].damage_percent,
{
    if !s.projectiles[k].active {
        return s;
    }
    if proj_strikes(&s, k, 0) {
        proj_strike(s, k, 0, inputs)
    } else if proj_strikes(&s, k, 1) {
        proj_strike(s, k, 1, inputs)
    } else {
        s
    }
}

pub(crate) fn projectile_hits(s: crate::state::GameState, inputs: [PlayerInput; 2]) -> (r:
    crate::state::GameState)
    requires
        state_bounded(s),
        pair_can_take(s.players, MAX_PROJECTILES * MAX_HIT_DAMAGE),
    ensures
        r == spec_proj_hits_upto(s, MAX_PROJECTILES as int, inputs),
        state_bounded(r),
        pair_evolves(r.players, s.players, MAX_PROJECTILES * MAX_HIT_DAMAGE),
        same_match(r, s),
        r.players[0].invincibility_frames == s.players[0].invincibility_frames,
        r.players[1].invincibility_frames == s.players[1].invincibility_frames,
        s.players[0].invincibility_frames > 0 ==> r.players[0].damage_percent
            == s.players[0].damage_percent,
        s.players[1].invincibility_frames > 0 ==> r.players[1].damage_percent
            == s.players[1].damage_percent,
{
    let mut cur = s;
    let mut k: usize = 0;
    while k < MAX_PROJECTILES
        invariant
            k <= MAX_PROJECTILES,
            cur == spec_proj_hits_upto(s, k as int, inputs),
            state_bounded(cur),
            state_bounded(s),
            pair_evolves(cur.players, s.players, k * MAX_HIT_DAMAGE),
            pair_can_take(s.players, MAX_PROJECTILES * MAX_HIT_DAMAGE),
            same_match(cur, s),
            cur.players[0].invincibility_frames == s.players[0].invincibility_frames,
            cur.players[1].invincibility_frames == s.players[1].invincibility_frames,
            s.players[0].invincibility_frames > 0 ==> cur.players[0].damage_percent
                == s.players[0].damage_percent,
            s.players[1].invincibility_frames > 0 ==> cur.players[1].damage_percent
                == s.players[1].damage_percent,
        decreases MAX_PROJECTILES - k,
    {
        cur = proj_hit(cur, k, inputs);
        k += 1;
    }
    cur
}

// ---------------------------------------------------------------------------
// End of the match
// ---------------------------------------------------------------------------

/// Once a player is out of stocks the match is over, won by the player
/// still in it (if any).
pub open spec fn spec_match_end(s: crate::state::GameState) -> crate::state::GameState {
    if s.players[0].stocks == 0 || s.players[1].stocks == 0 {
        crate::state::GameState {
            match_over: true,
            winner: if s.players[1].stocks > 0 {
                Some(1u8)
            } else if s.players[0].stocks > 0 {
                Some(0u8)
            } else {
                s.winner
            },
            ..s
        }
    } else {
        s
    }
}

pub(crate) fn match_end(s: crate::state::GameState) -> (r: crate::state::GameState)
    ensures
        r == spec_match_end(s),
{
    if s.players[0].stocks == 0 || s.players[1].stocks == 0 {
        // The winner is the last player still holding stocks.
        let winner = if s.players[1].stocks > 0 {
            Some(1u8)
        } else if s.players[0].stocks > 0 {
            Some(0u8)
        } else {
            s.winner
        };
        crate::state::GameState { match_over: true, winner, ..s }
    } else {
        s
    }
}

// ---------------------------------------------------------------------------
// Checking the bounds at run time
// ---------------------------------------------------------------------------

fn player_in_bounds(p: &PlayerState) -> (r: bool)
    ensures
        r == alive_bounded(*p),
{
    p.stocks == 0 || (-POS_LIMIT <= p.position_x.0 && p.position_x.0 <= POS_LIMIT && -POS_LIMIT
        <= p.position_y.0 && p.position_y.0 <= POS_LIMIT && -VEL_LIMIT <= p.velocity_x.0
        && p.velocity_x.0 <= VEL_LIMIT && -VEL_LIMIT <= p.velocity_y.0 && p.velocity_y.0
        <= VEL_LIMIT && p.drop_through_frames < 255)
}

fn projectile_in_bounds(p: &Projectile) -> (r: bool)
    ensures
        r == proj_bounded(*p),
{
    !p.active || (-PROJ_LIMIT <= p.position_x.0 && p.position_x.0 <= PROJ_LIMIT && -PROJ_LIMIT
        <= p.position_y.0 && p.position_y.0 <= PROJ_LIMIT && -PROJ_SPEED_LIMIT <= p.velocity_x.0
        && p.velocity_x.0 <= PROJ_SPEED_LIMIT)
}

/// Whether the players and projectiles are within the bounds the
/// simulation keeps.
pub fn is_state_bounded(s: &crate::state::GameState) -> (r: bool)
    ensures
        r == state_bounded(*s),
{
    if !player_in_bounds(&s.players[0]) || !player_in_bounds(&s.players[1]) {
        return false;
    }
    let mut k: usize = 0;
    while k < MAX_PROJECTILES
        invariant
            k <= MAX_PROJECTILES,
            forall|j: int| 0 <= j < k ==> proj_bounded(#[trigger] s.projectiles[j]),
        decreases MAX_PROJECTILES - k,
    {
        if !projectile_in_bounds(&s.projectiles[k]) {
            return false;
        }
        k += 1;
    }
    true
}


// ---------------------------------------------------------------------------
// Which way throws and counters send a player
// ---------------------------------------------------------------------------

/// Holding back: the direction opposite the one the thrower faces, without
/// up or down.
pub open spec fn holds_back(input: PlayerInput, facing_right: bool) -> bool {
    &&& !input.has(PlayerInput::UP)
    &&& !input.has(PlayerInput::DOWN)
    &&& if facing_right {
        input.has(PlayerInput::LEFT)
    } else {
        input.has(PlayerInput::RIGHT)
    }
}

/// Holding forward or nothing sideways: no up, no down, and not back.
pub open spec fn holds_forward(input: PlayerInput, facing_right: bool) -> bool {
    &&& !input.has(PlayerInput::UP)
    &&& !input.has(PlayerInput::DOWN)
    &&& !(if facing_right {
        input.has(PlayerInput::LEFT)
    } else {
        input.has(PlayerInput::RIGHT)
    })
}

/// A back or forward throw launches the thrown player, at a damage of at
/// most 299% and whatever it holds, behind the thrower for a back throw and
/// ahead of it for a forward one.
proof fn lemma_throw_side(d: PlayerState, input: PlayerInput, thrower: PlayerInput, facing_right: bool)
    requires
        d.damage_percent <= 299,
        holds_back(thrower, facing_right) || holds_forward(thrower, facing_right),
    ensures
        ({
            let v = spec_apply_hit(d, throw_hit(thrower, facing_right), input, facing_right).velocity_x.0;
            let forward = holds_forward(thrower, facing_right);
            &&& (facing_right == forward) ==> v > 0
            &&& (facing_right != forward) ==> v < 0
        }),
{
    let t = throw_hit(thrower, facing_right);
    assert(fp_int(30).0 == 30 * 65536);
    assert(fp_int(28).0 == 28 * 65536);
    assert(fp_int(65).0 == 65 * 65536);
    assert(fp_int(60).0 == 60 * 65536);
    assert(fp_int(8).0 == 8 * 65536);
    assert(fp_int(6).0 == 6 * 65536);
    let total = d.damage_percent * 65536 + t.damage.0;
    assert(t.knockback_scaling.0 * total <= 6553600int * 13107200) by (nonlinear_arith)
        requires
            0 <= t.knockback_scaling.0 <= 65 * 65536,
            0 <= total <= 307 * 65536,
    ;
    lemma_knockback_span(t, d.damage_percent, d.character);
    let base = if facing_right {
        t.knockback_angle as int
    } else {
        180 - t.knockback_angle
    };
    crate::combat::lemma_di_shift_bounded(base, input.spec_di_x(), -input.spec_di_y());
    assert(launch_angle(t, input, facing_right) == crate::combat::spec_apply_di(
        base,
        input.spec_di_x(),
        -input.spec_di_y(),
    ));
    lemma_launch_direction(d, t, input, facing_right);
}

/// Back throw goes behind: a thrower holding back launches the thrown
/// player (at a damage of at most 299%) away from the way it faces, left
/// when it faces right and right when it faces left, whatever direction
/// the thrown player holds.
pub proof fn lemma_back_throw_goes_behind(
    ps: [PlayerState; 2],
    snap: [PlayerState; 2],
    a: int,
    inputs: [PlayerInput; 2],
)
    requires
        0 <= a < 2,
        grab_connects(snap[a], snap[1 - a]),
        holds_back(inputs[a], snap[a].facing_right),
        ps[1 - a].damage_percent <= 299,
    ensures
        snap[a].facing_right ==> spec_grab_step(ps, snap, a, inputs)[1 - a].velocity_x.0 < 0,
        !snap[a].facing_right ==> spec_grab_step(ps, snap, a, inputs)[1 - a].velocity_x.0 > 0,
{
    reveal(spec_grab_step);
    let d = 1 - a;
    let held = PlayerState { action: ActionState::Idle, ..ps[d] };
    lemma_throw_side(held, inputs[d], inputs[a], snap[a].facing_right);
    let ps0 = pair_set(ps, d, held);
    assert(ps0[d] == held);
}

/// Forward throw goes ahead: a thrower holding forward, or no side at all,
/// and neither up nor down, launches the thrown player (at a damage of at
/// most 299%) the way it faces, whatever direction the thrown player
/// holds.
pub proof fn lemma_forward_throw_goes_ahead(
    ps: [PlayerState; 2],
    snap: [PlayerState; 2],
    a: int,
    inputs: [PlayerInput; 2],
)
    requires
        0 <= a < 2,
        grab_connects(snap[a], snap[1 - a]),
        holds_forward(inputs[a], snap[a].facing_right),
        ps[1 - a].damage_percent <= 299,
    ensures
        snap[a].facing_right ==> spec_grab_step(ps, snap, a, inputs)[1 - a].velocity_x.0 > 0,
        !snap[a].facing_right ==> spec_grab_step(ps, snap, a, inputs)[1 - a].velocity_x.0 < 0,
{
    reveal(spec_grab_step);
    let d = 1 - a;
    let held = PlayerState { action: ActionState::Idle, ..ps[d] };
    lemma_throw_side(held, inputs[d], inputs[a], snap[a].facing_right);
    let ps0 = pair_set(ps, d, held);
    assert(ps0[d] == held);
}

/// A counter launches the attacker the way the countering player faces:
/// for a hit at an angle within 77 degrees of horizontal, with base
/// knockback between 1 and 76 units, scaling up to 100 units and damage up
/// to 22 units (as the game's attacks have), against an attacker at no
/// more than 170% damage, the attacker flies right when the countering
/// player faces right and left when it faces left, whatever direction the
/// attacker holds.
pub proof fn lemma_counter_launches_along_counterer(
    ps: [PlayerState; 2],
    hit: HitData,
    def: PlayerState,
    a: int,
    inputs: [PlayerInput; 2],
)
    requires
        0 <= a < 2,
        -77 <= hit.knockback_angle <= 77,
        65536 <= hit.base_knockback.0 <= 76 * 65536,
        0 <= hit.knockback_scaling.0 <= 100 * 65536,
        0 <= hit.damage.0 <= 22 * 65536,
        ps[a].damage_percent <= 170,
    ensures
        def.facing_right ==> spec_countered(ps, hit, def, a, inputs)[a].velocity_x.0 > 0,
        !def.facing_right ==> spec_countered(ps, hit, def, a, inputs)[a].velocity_x.0 < 0,
{
    reveal(spec_countered);
    let h = counter_hit(hit);
    let b = hit.base_knockback.0 as int;
    let dm = hit.damage.0 as int;
    assert(65536 <= b * 85196 / 65536 <= 76 * 85196) by (nonlinear_arith)
        requires
            65536 <= b <= 76 * 65536,
    ;
    assert(0 <= dm * 85196 / 65536 <= 22 * 85196) by (nonlinear_arith)
        requires
            0 <= dm <= 22 * 65536,
    ;
    let total = ps[a].damage_percent * 65536 + h.damage.0;
    assert(h.knockback_scaling.0 * total <= 6553600int * 13107200) by (nonlinear_arith)
        requires
            0 <= h.knockback_scaling.0 <= 100 * 65536,
            0 <= total <= 13107200,
    ;
    lemma_knockback_span(h, ps[a].damage_percent, ps[a].character);
    crate::hit::lemma_hit_follows_facing(ps[a], h, inputs[a], def.facing_right);
    let ps0 = pair_set(ps, a, spec_apply_hit(ps[a], h, inputs[a], def.facing_right));
    assert(ps0[a] == spec_apply_hit(ps[a], h, inputs[a], def.facing_right));
}

/// Every throw launches upward, and a down throw, like a forward one,
/// goes the way the thrower faces: whatever the thrown player (at a damage
/// of at most 277%) holds.
pub proof fn lemma_throws_launch_up(
    ps: [PlayerState; 2],
    snap: [PlayerState; 2],
    a: int,
    inputs: [PlayerInput; 2],
)
    requires
        0 <= a < 2,
        grab_connects(snap[a], snap[1 - a]),
        ps[1 - a].damage_percent <= 277,
    ensures
        spec_grab_step(ps, snap, a, inputs)[1 - a].velocity_y.0 < 0,
        inputs[a].has(PlayerInput::DOWN) && !inputs[a].has(PlayerInput::UP) ==> (if snap[a].facing_right {
            spec_grab_step(ps, snap, a, inputs)[1 - a].velocity_x.0 > 0
        } else {
            spec_grab_step(ps, snap, a, inputs)[1 - a].velocity_x.0 < 0
        }),
{
    reveal(spec_grab_step);
    let d = 1 - a;
    let fr = snap[a].facing_right;
    let held = PlayerState { action: ActionState::Idle, ..ps[d] };
    let ps0 = pair_set(ps, d, held);
    assert(ps0[d] == held);
    let t = throw_hit(inputs[a], fr);
    assert(fp_int(20).0 == 20 * 65536);
    assert(fp_int(28).0 == 28 * 65536);
    assert(fp_int(30).0 == 30 * 65536);
    assert(fp_int(50).0 == 50 * 65536);
    assert(fp_int(60).0 == 60 * 65536);
    assert(fp_int(65).0 == 65 * 65536);
    assert(fp_int(70).0 == 70 * 65536);
    assert(fp_int(5).0 == 5 * 65536);
    assert(fp_int(6).0 == 6 * 65536);
    assert(fp_int(7).0 == 7 * 65536);
    assert(fp_int(8).0 == 8 * 65536);
    let total = held.damage_percent * 65536 + t.damage.0;
    assert(t.knockback_scaling.0 * total <= 6553600int * 13107200) by (nonlinear_arith)
        requires
            0 <= t.knockback_scaling.0 <= 70 * 65536,
            0 <= total <= 285 * 65536,
    ;
    lemma_knockback_span(t, held.damage_percent, held.character);
    let input = inputs[d];
    let base = if fr {
        t.knockback_angle as int
    } else {
        180 - t.knockback_angle
    };
    crate::combat::lemma_di_shift_bounded(base, input.spec_di_x(), -input.spec_di_y());
    lemma_launch_direction(held, t, input, fr);
}

} // verus!
