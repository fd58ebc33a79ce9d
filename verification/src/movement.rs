//! One player's update for a frame: timers, action state, inputs, movement,
//! physics, ledge, blast zones and landing.
use vstd::prelude::*;

use crate::fixed::{Fp, SCALE, fp_raw, fp_add, fp_div, fp_int, fp_mul, fp_neg};
use crate::state::{
    ActionState, AttackType, CharacterStats, PlayerInput, PlayerState, attack_data,
    spec_attack_data, AIR_DODGE_FRAMES, AIR_DODGE_INVINCIBLE, AIR_DODGE_SPEED, BLAST_BOTTOM,
    BLAST_LEFT, BLAST_RIGHT, BLAST_TOP, COUNTER_FRAMES, CROUCH_DROP_FRAMES, GROUND_Y,
    LANDING_LAG_FRAMES, LEDGE_GRAB_RANGE_X, LEDGE_GRAB_RANGE_Y, LEDGE_INVINCIBILITY, MAX_JUMPS,
    METEOR_BOUNCE_THRESHOLD, RESPAWN_INVINCIBILITY_FRAMES, RESPAWN_Y, ROLL_DISTANCE, ROLL_FRAMES,
    ROLL_INVINCIBLE, RUN_START_FRAMES, SHIELD_MAX_HP, SHIELD_REGEN_RATE, SPOT_DODGE_FRAMES,
    SPOT_DODGE_INVINCIBLE, STAGE_CENTER_X, STAGE_LEFT, STAGE_RIGHT, UP_SPECIAL_FRAMES,
    UP_SPECIAL_VELOCITY,
};

verus! {

/// Largest distance from the origin of a live player's position, raw.
pub const POS_LIMIT: i32 = 15000 * SCALE;

/// Largest speed of a live player along either axis, raw.
pub const VEL_LIMIT: i32 = 16100 * SCALE;

/// How far a roll can carry a player within one frame (for any direction
/// value a rolling state may hold), raw.
pub const ROLL_SLACK: i32 = 500 * SCALE;

/// Position and velocity within the given limits (raw).
pub open spec fn kin_within(p: PlayerState, xlim: int, ylim: int, vlim: int) -> bool {
    &&& -xlim <= p.position_x.0 <= xlim
    &&& -ylim <= p.position_y.0 <= ylim
    &&& -vlim <= p.velocity_x.0 <= vlim
    &&& -vlim <= p.velocity_y.0 <= vlim
}

/// The kinematic bounds every live player keeps from frame to frame.
pub open spec fn player_bounded(p: PlayerState) -> bool {
    &&& kin_within(p, POS_LIMIT as int, POS_LIMIT as int, VEL_LIMIT as int)
    &&& p.drop_through_frames < 255
}

pub open spec fn is_idle(a: ActionState) -> bool {
    a is Idle
}

/// Whether the player may start a new action (only when idle).
pub open spec fn spec_can_act(p: PlayerState) -> bool {
    p.action is Idle
}

pub fn can_act(player: &PlayerState) -> (r: bool)
    ensures
        r == spec_can_act(*player),
{
    matches!(player.action, ActionState::Idle)
}

// ---------------------------------------------------------------------------
// Timers and action state
// ---------------------------------------------------------------------------

#[verifier::opaque]
pub open spec fn spec_tick_invincibility(p: PlayerState) -> PlayerState {
    if p.invincibility_frames > 0 {
        PlayerState { invincibility_frames: (p.invincibility_frames - 1) as u8, ..p }
    } else {
        p
    }
}

fn tick_invincibility(p: PlayerState) -> (r: PlayerState)
    ensures
        r == spec_tick_invincibility(p),
        r.position_x == p.position_x && r.position_y == p.position_y,
        r.velocity_x == p.velocity_x && r.velocity_y == p.velocity_y,
        r.action == p.action && r.stocks == p.stocks && r.character == p.character,
        r.drop_through_frames == p.drop_through_frames,
{
    reveal(spec_tick_invincibility);
    let mut p = p;
    if p.invincibility_frames > 0 {
        p.invincibility_frames -= 1;
    }
    p
}

/// Distance covered per frame of a roll.
pub open spec fn spec_roll_speed() -> Fp {
    fp_div(Fp(ROLL_DISTANCE), fp_int(ROLL_FRAMES as int))
}

proof fn lemma_roll_speed()
    ensures
        spec_roll_speed() == Fp(238312),
{
    assert(fp_int(22) == Fp(1441792));
    assert(80 * 65536 * 65536 / 1441792 == 238312) by (nonlinear_arith);
}

/// The roll step for a direction value: roll speed times the direction.
proof fn lemma_roll_step(direction: i8)
    ensures
        fp_mul(spec_roll_speed(), fp_int(direction as int)).0 == 238312 * direction,
{
    lemma_roll_speed();
    let d = direction as int;
    assert(-128 <= d <= 127);
    assert(fp_int(d).0 == d * 65536);
    assert((238312 * (d * 65536)) / 65536 == 238312 * d) by (nonlinear_arith);
}

/// Ledge options while hanging: climb (up), drop (down), getup attack
/// (attack), or keep hanging.
#[verifier::opaque]
pub open spec fn spec_ledge_options(p: PlayerState, input: PlayerInput) -> PlayerState {
    if input.has(PlayerInput::UP) {
        // Climb up — put on stage
        PlayerState {
            action: ActionState::Idle,
            position_x: if p.position_x.0 <= STAGE_LEFT {
                fp_raw(STAGE_LEFT + 30 * SCALE)
            } else {
                fp_raw(STAGE_RIGHT - 30 * SCALE)
            },
            position_y: Fp(GROUND_Y),
            grounded: true,
            jumps_remaining: MAX_JUMPS,
            ..p
        }
    } else if input.has(PlayerInput::DOWN) {
        // Drop — push slightly off-stage so ground collision doesn't catch
        PlayerState {
            action: ActionState::Idle,
            velocity_y: fp_int(2),
            position_x: if p.position_x.0 <= STAGE_LEFT {
                fp_raw(STAGE_LEFT - 5 * SCALE)
            } else {
                fp_raw(STAGE_RIGHT + 5 * SCALE)
            },
            ..p
        }
    } else if input.has(PlayerInput::ATTACK) {
        // Getup attack — climb onto stage and attack with i-frames
        PlayerState {
            position_x: if p.position_x.0 <= STAGE_LEFT {
                fp_raw(STAGE_LEFT + 30 * SCALE)
            } else {
                fp_raw(STAGE_RIGHT - 30 * SCALE)
            },
            facing_right: p.position_x.0 <= STAGE_LEFT,
            position_y: Fp(GROUND_Y),
            grounded: true,
            jumps_remaining: MAX_JUMPS,
            current_attack: AttackType::ForwardTilt,
            action: ActionState::AttackStartup {
                frames_left: spec_attack_data(AttackType::ForwardTilt).startup,
            },
            hit_this_attack: false,
            invincibility_frames: 10,
            ..p
        }
    } else {
        // Stay hanging — no gravity, no movement
        PlayerState { velocity_x: Fp(0), velocity_y: Fp(0), ..p }
    }
}

/// Advance the action state by one frame.
#[verifier::opaque]
pub open spec fn spec_advance_action(p: PlayerState, input: PlayerInput) -> PlayerState {
    match p.action {
        ActionState::AttackStartup { frames_left } => if frames_left <= 1 {
            PlayerState {
                action: ActionState::AttackActive {
                    frames_left: spec_attack_data(p.current_attack).active,
                },
                hit_this_attack: false,
                ..p
            }
        } else {
            PlayerState {
                action: ActionState::AttackStartup { frames_left: (frames_left - 1) as u8 },
                ..p
            }
        },
        ActionState::AttackActive { frames_left } => if frames_left <= 1 {
            PlayerState {
                action: ActionState::AttackRecovery {
                    frames_left: spec_attack_data(p.current_attack).recovery,
                },
                ..p
            }
        } else {
            PlayerState {
                action: ActionState::AttackActive { frames_left: (frames_left - 1) as u8 },
                ..p
            }
        },
        ActionState::AttackRecovery { frames_left } => if frames_left <= 1 {
            PlayerState { action: ActionState::Idle, ..p }
        } else {
            PlayerState {
                action: ActionState::AttackRecovery { frames_left: (frames_left - 1) as u8 },
                ..p
            }
        },
        ActionState::Hitstun { frames_left } => if frames_left <= 1 {
            PlayerState { action: ActionState::Idle, ..p }
        } else {
            PlayerState {
                action: ActionState::Hitstun { frames_left: (frames_left - 1) as u8 },
                ..p
            }
        },
        ActionState::ShieldStun { frames_left } => if frames_left <= 1 {
            PlayerState { action: ActionState::Idle, ..p }
        } else {
            PlayerState {
                action: ActionState::ShieldStun { frames_left: (frames_left - 1) as u8 },
                ..p
            }
        },
        ActionState::Grabbing { frames_left } => if frames_left <= 1 {
            PlayerState { action: ActionState::Idle, ..p }
        } else {
            PlayerState {
                action: ActionState::Grabbing { frames_left: (frames_left - 1) as u8 },
                ..p
            }
        },
        ActionState::Shielding => if !input.has(PlayerInput::SHIELD) {
            PlayerState { action: ActionState::Idle, ..p }
        } else {
            p
        },
        ActionState::SpotDodge { frames_left } => if frames_left <= 1 {
            PlayerState { action: ActionState::Idle, ..p }
        } else {
            PlayerState {
                action: ActionState::SpotDodge { frames_left: (frames_left - 1) as u8 },
                ..p
            }
        },
        ActionState::Rolling { frames_left, direction } => if frames_left <= 1 {
            PlayerState { action: ActionState::Idle, ..p }
        } else {
            PlayerState {
                position_x: fp_add(
                    p.position_x,
                    fp_mul(spec_roll_speed(), fp_int(direction as int)),
                ),
                action: ActionState::Rolling { frames_left: (frames_left - 1) as u8, direction },
                ..p
            }
        },
        ActionState::AirDodge { frames_left } => if frames_left <= 1 {
            PlayerState { action: ActionState::Idle, ..p }
        } else {
            PlayerState {
                action: ActionState::AirDodge { frames_left: (frames_left - 1) as u8 },
                ..p
            }
        },
        ActionState::SpecialMove { frames_left } => if frames_left <= 1 {
            PlayerState { action: ActionState::Freefall, velocity_y: Fp(0), ..p }
        } else {
            PlayerState {
                action: ActionState::SpecialMove { frames_left: (frames_left - 1) as u8 },
                ..p
            }
        },
        ActionState::Freefall => p,
        ActionState::LedgeHang => spec_ledge_options(p, input),
        ActionState::Counter { frames_left } => if frames_left <= 1 {
            PlayerState { action: ActionState::Idle, ..p }
        } else {
            PlayerState {
                action: ActionState::Counter { frames_left: (frames_left - 1) as u8 },
                ..p
            }
        },
        ActionState::Idle => p,
    }
}

fn ledge_options(p: PlayerState, input: PlayerInput) -> (r: PlayerState)
    ensures
        r == spec_ledge_options(p, input),
        r.action is LedgeHang ==> r.position_x == p.position_x && r.position_y == p.position_y,
        r.position_x == p.position_x || (STAGE_LEFT - 5 * SCALE <= r.position_x.0 <= STAGE_RIGHT
            + 5 * SCALE),
        r.position_y == p.position_y || r.position_y == Fp(GROUND_Y),
        r.velocity_x == p.velocity_x || r.velocity_x == Fp(0),
        r.velocity_y == p.velocity_y || r.velocity_y == Fp(0) || r.velocity_y.0 == 2 * SCALE,
        r.stocks == p.stocks && r.character == p.character,
        r.drop_through_frames == p.drop_through_frames,
{
    reveal(spec_ledge_options);
    let on_left = p.position_x.0 <= STAGE_LEFT;
    if input.pressed(PlayerInput::UP) {
        // Climb up — put on stage
        let x = if on_left {
            Fp(STAGE_LEFT).plus(Fp::from_int(30))
        } else {
            Fp(STAGE_RIGHT).minus(Fp::from_int(30))
        };
        PlayerState {
            action: ActionState::Idle,
            position_x: x,
            position_y: Fp(GROUND_Y),
            grounded: true,
            jumps_remaining: MAX_JUMPS,
            ..p
        }
    } else if input.pressed(PlayerInput::DOWN) {
        // Drop — push slightly off-stage so ground collision doesn't catch
        let x = if on_left {
            Fp(STAGE_LEFT).minus(Fp::from_int(5))
        } else {
            Fp(STAGE_RIGHT).plus(Fp::from_int(5))
        };
        PlayerState { action: ActionState::Idle, velocity_y: Fp::from_int(2), position_x: x, ..p }
    } else if input.pressed(PlayerInput::ATTACK) {
        // Getup attack — climb onto stage and attack with i-frames
        let x = if on_left {
            Fp(STAGE_LEFT).plus(Fp::from_int(30))
        } else {
            Fp(STAGE_RIGHT).minus(Fp::from_int(30))
        };
        let data = attack_data(AttackType::ForwardTilt);  // getup attack uses ftilt data
        PlayerState {
            position_x: x,
            facing_right: on_left,
            position_y: Fp(GROUND_Y),
            grounded: true,
            jumps_remaining: MAX_JUMPS,
            current_attack: AttackType::ForwardTilt,
            action: ActionState::AttackStartup { frames_left: data.startup },
            hit_this_attack: false,
            invincibility_frames: 10,
            ..p
        }
    } else {
        // Stay hanging — no gravity, no movement
        PlayerState { velocity_x: Fp::zero(), velocity_y: Fp::zero(), ..p }
    }
}

fn advance_action(p: PlayerState, input: PlayerInput) -> (r: PlayerState)
    requires
        -POS_LIMIT <= p.position_x.0 <= POS_LIMIT,
    ensures
        r == spec_advance_action(p, input),
        -(POS_LIMIT + ROLL_SLACK) <= r.position_x.0 <= POS_LIMIT + ROLL_SLACK,
        r.position_y == p.position_y || r.position_y == Fp(GROUND_Y),
        r.velocity_x == p.velocity_x || r.velocity_x == Fp(0),
        r.velocity_y == p.velocity_y || r.velocity_y == Fp(0) || r.velocity_y.0 == 2 * SCALE,
        r.action is LedgeHang ==> r.position_x == p.position_x && r.position_y == p.position_y,
        r.stocks == p.stocks,
        r.character == p.character,
        r.drop_through_frames == p.drop_through_frames,
{
    reveal(spec_advance_action);
    match p.action {
        ActionState::AttackStartup { frames_left } => {
            if frames_left <= 1 {
                let data = attack_data(p.current_attack);
                PlayerState {
                    action: ActionState::AttackActive { frames_left: data.active },
                    hit_this_attack: false,
                    ..p
                }
            } else {
                PlayerState {
                    action: ActionState::AttackStartup { frames_left: frames_left - 1 },
                    ..p
                }
            }
        },
        ActionState::AttackActive { frames_left } => {
            if frames_left <= 1 {
                let data = attack_data(p.current_attack);
                PlayerState {
                    action: ActionState::AttackRecovery { frames_left: data.recovery },
                    ..p
                }
            } else {
                PlayerState {
                    action: ActionState::AttackActive { frames_left: frames_left - 1 },
                    ..p
                }
            }
        },
        ActionState::AttackRecovery { frames_left } => {
            if frames_left <= 1 {
                PlayerState { action: ActionState::Idle, ..p }
            } else {
                PlayerState {
                    action: ActionState::AttackRecovery { frames_left: frames_left - 1 },
                    ..p
                }
            }
        },
        ActionState::Hitstun { frames_left } => {
            if frames_left <= 1 {
                PlayerState { action: ActionState::Idle, ..p }
            } else {
                PlayerState { action: ActionState::Hitstun { frames_left: frames_left - 1 }, ..p }
            }
        },
        ActionState::ShieldStun { frames_left } => {
            if frames_left <= 1 {
                PlayerState { action: ActionState::Idle, ..p }
            } else {
                PlayerState {
                    action: ActionState::ShieldStun { frames_left: frames_left - 1 },
                    ..p
                }
            }
        },
        ActionState::Grabbing { frames_left } => {
            if frames_left <= 1 {
                PlayerState { action: ActionState::Idle, ..p }
            } else {
                PlayerState { action: ActionState::Grabbing { frames_left: frames_left - 1 }, ..p }
            }
        },
        ActionState::Shielding => {
            if !input.pressed(PlayerInput::SHIELD) {
                PlayerState { action: ActionState::Idle, ..p }
            } else {
                p
            }
        },
        ActionState::SpotDodge { frames_left } => {
            if frames_left <= 1 {
                PlayerState { action: ActionState::Idle, ..p }
            } else {
                PlayerState {
                    action: ActionState::SpotDodge { frames_left: frames_left - 1 },
                    ..p
                }
            }
        },
        ActionState::Rolling { frames_left, direction } => {
            if frames_left <= 1 {
                PlayerState { action: ActionState::Idle, ..p }
            } else {
                // Move during roll
                let roll_speed = Fp(ROLL_DISTANCE).divided_by(Fp::from_int(ROLL_FRAMES as i32));
                proof {
                    lemma_roll_step(direction);
                }
                let x = p.position_x.plus(roll_speed.times(Fp::from_int(direction as i32)));
                PlayerState {
                    position_x: x,
                    action: ActionState::Rolling { frames_left: frames_left - 1, direction },
                    ..p
                }
            }
        },
        ActionState::AirDodge { frames_left } => {
            if frames_left <= 1 {
                PlayerState { action: ActionState::Idle, ..p }
            } else {
                PlayerState { action: ActionState::AirDodge { frames_left: frames_left - 1 }, ..p }
            }
        },
        ActionState::SpecialMove { frames_left } => {
            if frames_left <= 1 {
                PlayerState { action: ActionState::Freefall, velocity_y: Fp::zero(), ..p }
            } else {
                PlayerState {
                    action: ActionState::SpecialMove { frames_left: frames_left - 1 },
                    ..p
                }
            }
        },
        ActionState::Freefall => {
            // Can only air drift, no attacks or specials.
            // Freefall ends on landing (handled in ground collision).
            p
        },
        ActionState::LedgeHang => ledge_options(p, input),
        ActionState::Counter { frames_left } => {
            if frames_left <= 1 {
                PlayerState { action: ActionState::Idle, ..p }
            } else {
                PlayerState { action: ActionState::Counter { frames_left: frames_left - 1 }, ..p }
            }
        },
        ActionState::Idle => p,
    }
}

// ---------------------------------------------------------------------------
// Inputs
// ---------------------------------------------------------------------------

/// The attack a fresh attack press starts, from the held directions.
#[verifier::opaque]
pub open spec fn spec_resolve_attack_type(
    input: PlayerInput,
    grounded: bool,
    facing_right: bool,
) -> AttackType {
    let has_left = input.has(PlayerInput::LEFT);
    let has_right = input.has(PlayerInput::RIGHT);
    let has_dir_lr = has_left || has_right;
    let has_up = input.has(PlayerInput::UP);
    let has_down = input.has(PlayerInput::DOWN);
    let smash = input.has(PlayerInput::SMASH);
    if !grounded {
        if has_up {
            AttackType::UpAir
        } else if has_down {
            AttackType::DownAir
        } else if has_right && facing_right || has_left && !facing_right {
            // Forward = same direction as facing, back = opposite
            AttackType::ForwardAir
        } else if has_left && facing_right || has_right && !facing_right {
            AttackType::BackAir
        } else {
            AttackType::NeutralAir
        }
    } else if smash && has_up {
        AttackType::UpSmash
    } else if smash && has_down {
        AttackType::DownSmash
    } else if smash && has_dir_lr {
        AttackType::ForwardSmash
    } else if has_up {
        AttackType::UpTilt
    } else if has_down {
        AttackType::DownTilt
    } else if has_dir_lr {
        AttackType::ForwardTilt
    } else {
        AttackType::Jab
    }
}

pub fn resolve_attack_type(input: PlayerInput, grounded: bool, facing_right: bool) -> (r:
    AttackType)
    ensures
        r == spec_resolve_attack_type(input, grounded, facing_right),
{
    reveal(spec_resolve_attack_type);
    let has_left = input.pressed(PlayerInput::LEFT);
    let has_right = input.pressed(PlayerInput::RIGHT);
    let has_dir_lr = has_left || has_right;
    let has_up = input.pressed(PlayerInput::UP);
    let has_down = input.pressed(PlayerInput::DOWN);
    let smash = input.pressed(PlayerInput::SMASH);

    if !grounded {
        if has_up {
            return AttackType::UpAir;
        }
        if has_down {
            return AttackType::DownAir;
        }
        // Forward = same direction as facing, back = opposite
        if has_right && facing_right || has_left && !facing_right {
            return AttackType::ForwardAir;
        }
        if has_left && facing_right || has_right && !facing_right {
            return AttackType::BackAir;
        }
        return AttackType::NeutralAir;
    }
    if smash {
        if has_up {
            return AttackType::UpSmash;
        }
        if has_down {
            return AttackType::DownSmash;
        }
        if has_dir_lr {
            return AttackType::ForwardSmash;
        }
    }
    if has_up {
        return AttackType::UpTilt;
    }
    if has_down {
        return AttackType::DownTilt;
    }
    if has_dir_lr {
        return AttackType::ForwardTilt;
    }
    AttackType::Jab
}

/// A fresh shield press: air dodge in the air; on the ground spot dodge
/// (down), roll (left or right) or shield.
#[verifier::opaque]
pub open spec fn spec_shield_press(p: PlayerState, input: PlayerInput) -> PlayerState {
    if !p.grounded {
        // Air dodge, with directional momentum
        PlayerState {
            action: ActionState::AirDodge { frames_left: AIR_DODGE_FRAMES },
            invincibility_frames: AIR_DODGE_INVINCIBLE,
            velocity_x: if input.has(PlayerInput::RIGHT) {
                Fp(AIR_DODGE_SPEED)
            } else if input.has(PlayerInput::LEFT) {
                fp_raw(-AIR_DODGE_SPEED)
            } else {
                p.velocity_x
            },
            velocity_y: if input.has(PlayerInput::UP) {
                fp_raw(-AIR_DODGE_SPEED)
            } else if input.has(PlayerInput::DOWN) {
                Fp(AIR_DODGE_SPEED)
            } else {
                p.velocity_y
            },
            ..p
        }
    } else if input.has(PlayerInput::DOWN) {
        PlayerState {
            action: ActionState::SpotDodge { frames_left: SPOT_DODGE_FRAMES },
            invincibility_frames: SPOT_DODGE_INVINCIBLE,
            ..p
        }
    } else if input.has(PlayerInput::LEFT) || input.has(PlayerInput::RIGHT) {
        PlayerState {
            action: ActionState::Rolling {
                frames_left: ROLL_FRAMES,
                direction: if input.has(PlayerInput::RIGHT) { 1i8 } else { -1i8 },
            },
            invincibility_frames: ROLL_INVINCIBLE,
            ..p
        }
    } else {
        PlayerState { action: ActionState::Shielding, ..p }
    }
}

/// Start a new action from the inputs; only an idle player can.
#[verifier::opaque]
pub open spec fn spec_input_actions(p: PlayerState, input: PlayerInput) -> PlayerState {
    if !spec_can_act(p) {
        p
    } else {
        let shield_pressed = input.has(PlayerInput::SHIELD);
        let special_fresh = input.has(PlayerInput::SPECIAL) && !p.special_held;
        if shield_pressed && !p.shield_held {
            spec_shield_press(p, input)
        } else if shield_pressed {
            // Holding shield (not fresh press) — maintain shield
            PlayerState { action: ActionState::Shielding, ..p }
        } else if special_fresh && input.has(PlayerInput::UP) && !p.grounded
            && !p.has_up_special {
            // Up-B recovery
            PlayerState {
                action: ActionState::SpecialMove { frames_left: UP_SPECIAL_FRAMES },
                velocity_y: Fp(UP_SPECIAL_VELOCITY),
                velocity_x: Fp(0),
                has_up_special: true,
                ..p
            }
        } else if special_fresh && input.has(PlayerInput::DOWN) {
            // Down-B counter
            PlayerState { action: ActionState::Counter { frames_left: COUNTER_FRAMES }, ..p }
        } else if input.has(PlayerInput::ATTACK) && !p.attack_held {
            let atk = if p.is_running {
                AttackType::DashAttack
            } else {
                spec_resolve_attack_type(input, p.grounded, p.facing_right)
            };
            PlayerState {
                current_attack: atk,
                action: ActionState::AttackStartup { frames_left: spec_attack_data(atk).startup },
                hit_this_attack: false,
                is_running: false,
                run_frames: 0,
                ..p
            }
        } else if input.has(PlayerInput::GRAB) && !p.grab_held {
            PlayerState { action: ActionState::Grabbing { frames_left: 10 }, ..p }
        } else {
            p
        }
    }
}

fn shield_press(p: PlayerState, input: PlayerInput) -> (r: PlayerState)
    ensures
        r == spec_shield_press(p, input),
        r.position_x == p.position_x && r.position_y == p.position_y,
        r.velocity_x == p.velocity_x || -6 * SCALE <= r.velocity_x.0 <= 6 * SCALE,
        r.velocity_y == p.velocity_y || -6 * SCALE <= r.velocity_y.0 <= 6 * SCALE,
        !(r.action is LedgeHang),
        r.stocks == p.stocks && r.character == p.character,
        r.drop_through_frames == p.drop_through_frames,
{
    reveal(spec_shield_press);
    if !p.grounded {
        // Air dodge
        let vx = if input.pressed(PlayerInput::RIGHT) {
            Fp(AIR_DODGE_SPEED)
        } else if input.pressed(PlayerInput::LEFT) {
            Fp(AIR_DODGE_SPEED).negated()
        } else {
            p.velocity_x
        };
        let vy = if input.pressed(PlayerInput::UP) {
            Fp(AIR_DODGE_SPEED).negated()
        } else if input.pressed(PlayerInput::DOWN) {
            Fp(AIR_DODGE_SPEED)
        } else {
            p.velocity_y
        };
        PlayerState {
            action: ActionState::AirDodge { frames_left: AIR_DODGE_FRAMES },
            invincibility_frames: AIR_DODGE_INVINCIBLE,
            velocity_x: vx,
            velocity_y: vy,
            ..p
        }
    } else if input.pressed(PlayerInput::DOWN) {
        // Spot dodge
        PlayerState {
            action: ActionState::SpotDodge { frames_left: SPOT_DODGE_FRAMES },
            invincibility_frames: SPOT_DODGE_INVINCIBLE,
            ..p
        }
    } else if input.pressed(PlayerInput::LEFT) || input.pressed(PlayerInput::RIGHT) {
        // Roll
        let dir: i8 = if input.pressed(PlayerInput::RIGHT) { 1 } else { -1 };
        PlayerState {
            action: ActionState::Rolling { frames_left: ROLL_FRAMES, direction: dir },
            invincibility_frames: ROLL_INVINCIBLE,
            ..p
        }
    } else {
        // Plain shield
        PlayerState { action: ActionState::Shielding, ..p }
    }
}

fn input_actions(p: PlayerState, input: PlayerInput) -> (r: PlayerState)
    requires
        -VEL_LIMIT <= p.velocity_x.0 <= VEL_LIMIT,
        -VEL_LIMIT <= p.velocity_y.0 <= VEL_LIMIT,
    ensures
        r == spec_input_actions(p, input),
        r.position_x == p.position_x,
        r.position_y == p.position_y,
        -VEL_LIMIT <= r.velocity_x.0 <= VEL_LIMIT,
        -VEL_LIMIT <= r.velocity_y.0 <= VEL_LIMIT,
        r.action is LedgeHang ==> p.action is LedgeHang,
        r.stocks == p.stocks,
        r.character == p.character,
        r.drop_through_frames == p.drop_through_frames,
{
    reveal(spec_input_actions);
    if !can_act(&p) {
        return p;
    }
    let shield_pressed = input.pressed(PlayerInput::SHIELD);
    let fresh_shield = shield_pressed && !p.shield_held;
    if fresh_shield {
        shield_press(p, input)
    } else if shield_pressed {
        // Holding shield (not fresh press) — maintain shield
        PlayerState { action: ActionState::Shielding, ..p }
    } else if input.pressed(PlayerInput::SPECIAL) && !p.special_held && input.pressed(
        PlayerInput::UP,
    ) && !p.grounded && !p.has_up_special {
        // Up-B recovery (fresh special + up, airborne, not used yet)
        PlayerState {
            action: ActionState::SpecialMove { frames_left: UP_SPECIAL_FRAMES },
            velocity_y: Fp(UP_SPECIAL_VELOCITY),
            velocity_x: Fp::zero(),
            has_up_special: true,
            ..p
        }
    } else if input.pressed(PlayerInput::SPECIAL) && !p.special_held && input.pressed(
        PlayerInput::DOWN,
    ) {
        // Down-B counter (fresh special + down)
        PlayerState { action: ActionState::Counter { frames_left: COUNTER_FRAMES }, ..p }
    } else if input.pressed(PlayerInput::ATTACK) && !p.attack_held {
        // Attack (on fresh press)
        let atk_type = if p.is_running {
            AttackType::DashAttack
        } else {
            resolve_attack_type(input, p.grounded, p.facing_right)
        };
        let data = attack_data(atk_type);
        PlayerState {
            current_attack: atk_type,
            action: ActionState::AttackStartup { frames_left: data.startup },
            hit_this_attack: false,
            is_running: false,
            run_frames: 0,
            ..p
        }
    } else if input.pressed(PlayerInput::GRAB) && !p.grab_held {
        // Grab (on fresh press)
        PlayerState { action: ActionState::Grabbing { frames_left: 10 }, ..p }
    } else {
        p
    }
}

/// Remember which buttons are held, for fresh-press detection next frame.
#[verifier::opaque]
pub open spec fn spec_record_held(p: PlayerState, input: PlayerInput) -> PlayerState {
    PlayerState {
        attack_held: input.has(PlayerInput::ATTACK),
        grab_held: input.has(PlayerInput::GRAB),
        shield_held: input.has(PlayerInput::SHIELD),
        ..p
    }
}

fn record_held(p: PlayerState, input: PlayerInput) -> (r: PlayerState)
    ensures
        r == spec_record_held(p, input),
        r.position_x == p.position_x && r.position_y == p.position_y,
        r.velocity_x == p.velocity_x && r.velocity_y == p.velocity_y,
        r.action == p.action && r.stocks == p.stocks && r.character == p.character,
        r.drop_through_frames == p.drop_through_frames,
{
    reveal(spec_record_held);
    PlayerState {
        attack_held: input.pressed(PlayerInput::ATTACK),
        grab_held: input.pressed(PlayerInput::GRAB),
        shield_held: input.pressed(PlayerInput::SHIELD),
        ..p
    }
}

// ---------------------------------------------------------------------------
// Movement
// ---------------------------------------------------------------------------

/// Crouching on the ground: stop, and after `CROUCH_DROP_FRAMES` frames
/// drop through the platform.
#[verifier::opaque]
pub open spec fn spec_crouch(p: PlayerState) -> PlayerState {
    let frames = (p.drop_through_frames + 1) as u8;
    if frames > CROUCH_DROP_FRAMES {
        PlayerState {
            velocity_x: Fp(0),
            is_running: false,
            run_frames: 0,
            grounded: false,
            is_crouching: false,
            drop_through_frames: 0,
            drop_through_active: true,
            position_y: fp_add(p.position_y, Fp(SCALE)),
            ..p
        }
    } else {
        PlayerState {
            velocity_x: Fp(0),
            is_running: false,
            run_frames: 0,
            drop_through_frames: frames,
            ..p
        }
    }
}

/// Walking and running on the ground: holding the facing direction for
/// `RUN_START_FRAMES` frames starts a run; turning around resets it.
#[verifier::opaque]
pub open spec fn spec_ground_move(
    p: PlayerState,
    input: PlayerInput,
    stats: CharacterStats,
) -> PlayerState {
    let holding_left = input.has(PlayerInput::LEFT);
    let holding_right = input.has(PlayerInput::RIGHT);
    let holding_same_dir = (holding_left && !p.facing_right) || (holding_right && p.facing_right);
    if holding_left || holding_right {
        let run_frames: u8 = if holding_same_dir {
            if p.run_frames + 1 > 255 { 255u8 } else { (p.run_frames + 1) as u8 }
        } else {
            1
        };
        let running = if holding_same_dir {
            run_frames >= RUN_START_FRAMES || p.is_running
        } else {
            false
        };
        let speed = if running { stats.run_speed } else { stats.walk_speed };
        PlayerState {
            run_frames,
            is_running: running,
            velocity_x: if holding_left { fp_neg(speed) } else { speed },
            facing_right: !holding_left,
            ..p
        }
    } else {
        PlayerState { velocity_x: Fp(0), is_running: false, run_frames: 0, ..p }
    }
}

/// Drifting in the air.
#[verifier::opaque]
pub open spec fn spec_air_drift(
    p: PlayerState,
    input: PlayerInput,
    stats: CharacterStats,
) -> PlayerState {
    if input.has(PlayerInput::LEFT) {
        PlayerState { velocity_x: fp_neg(stats.air_speed), facing_right: false, ..p }
    } else if input.has(PlayerInput::RIGHT) {
        PlayerState { velocity_x: stats.air_speed, facing_right: true, ..p }
    } else {
        p
    }
}

/// Horizontal movement of a player who can move.
#[verifier::opaque]
pub open spec fn spec_walk(p: PlayerState, input: PlayerInput, stats: CharacterStats) -> PlayerState {
    if p.grounded {
        if p.is_crouching {
            spec_crouch(p)
        } else if !(p.action is Shielding) {
            spec_ground_move(p, input, stats)
        } else {
            PlayerState { velocity_x: Fp(0), ..p }
        }
    } else {
        spec_air_drift(p, input, stats)
    }
}

/// Airborne next to a wall of the stage, below the ground level.
pub open spec fn at_left_wall(p: PlayerState) -> bool {
    &&& !p.grounded
    &&& p.position_x.0 <= STAGE_LEFT + 5 * SCALE
    &&& p.position_y.0 < GROUND_Y
    &&& p.position_y.0 > GROUND_Y - 200 * SCALE
}

pub open spec fn at_right_wall(p: PlayerState) -> bool {
    &&& !p.grounded
    &&& p.position_x.0 >= STAGE_RIGHT - 5 * SCALE
    &&& p.position_y.0 < GROUND_Y
    &&& p.position_y.0 > GROUND_Y - 200 * SCALE
}

/// The jump itself: a wall jump off a stage wall, else a ground or double
/// jump while jumps remain.
#[verifier::opaque]
pub open spec fn spec_jump_impulse(p: PlayerState, stats: CharacterStats) -> PlayerState {
    if at_left_wall(p) {
        PlayerState {
            velocity_y: stats.jump_velocity,
            velocity_x: fp_int(6),
            facing_right: true,
            ..p
        }
    } else if at_right_wall(p) {
        PlayerState {
            velocity_y: stats.jump_velocity,
            velocity_x: fp_int(-6),
            facing_right: false,
            ..p
        }
    } else if p.jumps_remaining > 0 {
        if p.grounded {
            PlayerState {
                velocity_y: stats.jump_velocity,
                grounded: false,
                jumps_remaining: (p.jumps_remaining - 1) as u8,
                ..p
            }
        } else {
            PlayerState {
                velocity_y: stats.double_jump_velocity,
                jumps_remaining: (p.jumps_remaining - 1) as u8,
                ..p
            }
        }
    } else {
        p
    }
}

/// After a jump press: shielding is cancelled, and the press is remembered.
#[verifier::opaque]
pub open spec fn spec_after_jump_press(q: PlayerState, jump_pressed: bool) -> PlayerState {
    if q.action is Shielding {
        PlayerState { action: ActionState::Idle, jump_held: jump_pressed, ..q }
    } else {
        PlayerState { jump_held: jump_pressed, ..q }
    }
}

/// Jumping on a fresh press of up. A jump press cancels shielding.
#[verifier::opaque]
pub open spec fn spec_jump(p: PlayerState, input: PlayerInput, stats: CharacterStats) -> PlayerState {
    let jump_pressed = input.has(PlayerInput::UP);
    if jump_pressed && !p.jump_held {
        spec_after_jump_press(spec_jump_impulse(p, stats), jump_pressed)
    } else {
        PlayerState { jump_held: jump_pressed, ..p }
    }
}

/// Crouching, walking, drifting and jumping (only when idle or shielding).
#[verifier::opaque]
pub open spec fn spec_movement(p: PlayerState, input: PlayerInput, stats: CharacterStats) -> PlayerState {
    let can_move = p.action is Idle || p.action is Shielding;
    let crouching = can_move && p.grounded && input.has(PlayerInput::DOWN) && !(p.action is Shielding);
    let p1 = PlayerState {
        is_crouching: crouching,
        drop_through_frames: if crouching { p.drop_through_frames } else { 0 },
        ..p
    };
    if can_move {
        spec_jump(spec_walk(p1, input, stats), input, stats)
    } else {
        // Still track jump_held to prevent buffered jumps
        PlayerState { jump_held: input.has(PlayerInput::UP), ..p1 }
    }
}

/// The character's stats are those of one of the characters.
pub open spec fn stats_of(stats: CharacterStats, p: PlayerState) -> bool {
    stats == crate::state::spec_character_stats(p.character)
}

fn crouch(p: PlayerState) -> (r: PlayerState)
    requires
        p.drop_through_frames < 255,
        p.position_y.0 <= i32::MAX - SCALE,
    ensures
        r == spec_crouch(p),
        r.position_x == p.position_x,
        r.position_y == p.position_y || r.position_y.0 == p.position_y.0 + SCALE,
        r.drop_through_frames <= CROUCH_DROP_FRAMES,
        r.velocity_x == Fp(0) && r.velocity_y == p.velocity_y && r.action == p.action,
        r.stocks == p.stocks && r.character == p.character,
{
    reveal(spec_crouch);
    let frames = p.drop_through_frames + 1;
    if frames > CROUCH_DROP_FRAMES {
        // Drop through platform
        PlayerState {
            velocity_x: Fp::zero(),
            is_running: false,
            run_frames: 0,
            grounded: false,
            is_crouching: false,
            drop_through_frames: 0,
            drop_through_active: true,
            position_y: p.position_y.plus(Fp::one()),
            ..p
        }
    } else {
        PlayerState {
            velocity_x: Fp::zero(),
            is_running: false,
            run_frames: 0,
            drop_through_frames: frames,
            ..p
        }
    }
}

fn ground_move(p: PlayerState, input: PlayerInput, stats: CharacterStats) -> (r: PlayerState)
    requires
        stats_of(stats, p),
    ensures
        r == spec_ground_move(p, input, stats),
        r.position_x == p.position_x && r.position_y == p.position_y,
        -10 * SCALE <= r.velocity_x.0 <= 10 * SCALE,
        r.velocity_y == p.velocity_y && r.action == p.action,
        r.drop_through_frames == p.drop_through_frames,
        r.stocks == p.stocks && r.character == p.character,
{
    reveal(spec_ground_move);
    let holding_left = input.pressed(PlayerInput::LEFT);
    let holding_right = input.pressed(PlayerInput::RIGHT);
    let holding_same_dir = (holding_left && !p.facing_right) || (holding_right && p.facing_right);

    if holding_left || holding_right {
        let mut run_frames = p.run_frames;
        let mut is_running = p.is_running;
        if holding_same_dir {
            run_frames = run_frames.saturating_add(1);
            if run_frames >= RUN_START_FRAMES {
                is_running = true;
            }
        } else {
            // Changed direction — reset run
            run_frames = 1;
            is_running = false;
        }
        let speed = if is_running { stats.run_speed } else { stats.walk_speed };
        if holding_left {
            PlayerState {
                run_frames,
                is_running,
                velocity_x: speed.negated(),
                facing_right: false,
                ..p
            }
        } else {
            PlayerState { run_frames, is_running, velocity_x: speed, facing_right: true, ..p }
        }
    } else {
        PlayerState { velocity_x: Fp::zero(), is_running: false, run_frames: 0, ..p }
    }
}

fn air_drift(p: PlayerState, input: PlayerInput, stats: CharacterStats) -> (r: PlayerState)
    requires
        stats_of(stats, p),
    ensures
        r == spec_air_drift(p, input, stats),
        r.position_x == p.position_x && r.position_y == p.position_y,
        r.velocity_x == p.velocity_x || -10 * SCALE <= r.velocity_x.0 <= 10 * SCALE,
        r.velocity_y == p.velocity_y && r.action == p.action,
        r.drop_through_frames == p.drop_through_frames,
        r.stocks == p.stocks && r.character == p.character,
{
    reveal(spec_air_drift);
    if input.pressed(PlayerInput::LEFT) {
        PlayerState { velocity_x: stats.air_speed.negated(), facing_right: false, ..p }
    } else if input.pressed(PlayerInput::RIGHT) {
        PlayerState { velocity_x: stats.air_speed, facing_right: true, ..p }
    } else {
        p
    }
}

fn jump_impulse(p: PlayerState, stats: CharacterStats) -> (r: PlayerState)
    requires
        stats_of(stats, p),
    ensures
        r == spec_jump_impulse(p, stats),
        r.position_x == p.position_x && r.position_y == p.position_y,
        r.velocity_x == p.velocity_x || -10 * SCALE <= r.velocity_x.0 <= 10 * SCALE,
        r.velocity_y == p.velocity_y || -20 * SCALE <= r.velocity_y.0 <= 0,
        r.action == p.action,
        r.drop_through_frames == p.drop_through_frames,
        r.stocks == p.stocks && r.character == p.character,
{
    reveal(spec_jump_impulse);
    // Wall jump check: airborne, touching stage wall, below ground level
    let left_wall = !p.grounded && p.position_x.0 <= STAGE_LEFT + 5 * SCALE && p.position_y.0
        < GROUND_Y && p.position_y.0 > GROUND_Y - 200 * SCALE;
    let right_wall = !p.grounded && p.position_x.0 >= STAGE_RIGHT - 5 * SCALE && p.position_y.0
        < GROUND_Y && p.position_y.0 > GROUND_Y - 200 * SCALE;
    if left_wall {
        // push away from wall
        PlayerState {
            velocity_y: stats.jump_velocity,
            velocity_x: Fp::from_int(6),
            facing_right: true,
            ..p
        }
    } else if right_wall {
        PlayerState {
            velocity_y: stats.jump_velocity,
            velocity_x: Fp::from_int(-6),
            facing_right: false,
            ..p
        }
    } else if p.jumps_remaining > 0 {
        if p.grounded {
            PlayerState {
                velocity_y: stats.jump_velocity,
                grounded: false,
                jumps_remaining: p.jumps_remaining - 1,
                ..p
            }
        } else {
            PlayerState {
                velocity_y: stats.double_jump_velocity,
                jumps_remaining: p.jumps_remaining - 1,
                ..p
            }
        }
    } else {
        p
    }
}

fn after_jump_press(q: PlayerState, jump_pressed: bool) -> (r: PlayerState)
    ensures
        r == spec_after_jump_press(q, jump_pressed),
        r.position_x == q.position_x && r.position_y == q.position_y,
        r.velocity_x == q.velocity_x && r.velocity_y == q.velocity_y,
        r.action == q.action || r.action is Idle,
        r.drop_through_frames == q.drop_through_frames,
        r.stocks == q.stocks && r.character == q.character,
{
    reveal(spec_after_jump_press);
    if matches!(q.action, ActionState::Shielding) {
        PlayerState { action: ActionState::Idle, jump_held: jump_pressed, ..q }
    } else {
        PlayerState { jump_held: jump_pressed, ..q }
    }
}

fn jump(p: PlayerState, input: PlayerInput, stats: CharacterStats) -> (r: PlayerState)
    requires
        stats_of(stats, p),
    ensures
        r == spec_jump(p, input, stats),
        r.position_x == p.position_x && r.position_y == p.position_y,
        r.velocity_x == p.velocity_x || -10 * SCALE <= r.velocity_x.0 <= 10 * SCALE,
        r.velocity_y == p.velocity_y || -20 * SCALE <= r.velocity_y.0 <= 0,
        r.action == p.action || r.action is Idle,
        r.drop_through_frames == p.drop_through_frames,
        r.stocks == p.stocks && r.character == p.character,
{
    reveal(spec_jump);
    // Jumping (only on fresh press, not held)
    let jump_pressed = input.pressed(PlayerInput::UP);
    if jump_pressed && !p.jump_held {
        after_jump_press(jump_impulse(p, stats), jump_pressed)
    } else {
        PlayerState { jump_held: jump_pressed, ..p }
    }
}

fn walk(p: PlayerState, input: PlayerInput, stats: CharacterStats) -> (r: PlayerState)
    requires
        stats_of(stats, p),
        p.drop_through_frames < 255,
        -POS_LIMIT <= p.position_y.0 <= POS_LIMIT,
        p.is_crouching ==> p.action is Idle,
    ensures
        r == spec_walk(p, input, stats),
        r.position_x == p.position_x,
        r.position_y == p.position_y || (r.position_y.0 == p.position_y.0 + SCALE
            && r.action is Idle),
        r.velocity_x == p.velocity_x || -10 * SCALE <= r.velocity_x.0 <= 10 * SCALE,
        r.velocity_y == p.velocity_y,
        r.action == p.action,
        p.grounded && p.is_crouching ==> r.drop_through_frames <= CROUCH_DROP_FRAMES,
        !p.is_crouching ==> r.drop_through_frames == p.drop_through_frames,
        r.stocks == p.stocks && r.character == p.character,
{
    reveal(spec_walk);
    if p.grounded {
        if p.is_crouching {
            crouch(p)
        } else if !matches!(p.action, ActionState::Shielding) {
            ground_move(p, input, stats)
        } else {
            PlayerState { velocity_x: Fp::zero(), ..p }
        }
    } else {
        air_drift(p, input, stats)
    }
}

fn movement(p: PlayerState, input: PlayerInput, stats: CharacterStats) -> (r: PlayerState)
    requires
        stats_of(stats, p),
        p.drop_through_frames < 255,
        -POS_LIMIT <= p.position_y.0 <= POS_LIMIT,
        -VEL_LIMIT <= p.velocity_x.0 <= VEL_LIMIT,
        -VEL_LIMIT <= p.velocity_y.0 <= VEL_LIMIT,
    ensures
        r == spec_movement(p, input, stats),
        r.position_x == p.position_x,
        r.position_y == p.position_y || (r.position_y.0 == p.position_y.0 + SCALE
            && r.action is Idle),
        -VEL_LIMIT <= r.velocity_x.0 <= VEL_LIMIT,
        -VEL_LIMIT <= r.velocity_y.0 <= VEL_LIMIT,
        r.action is LedgeHang ==> p.action is LedgeHang,
        r.stocks == p.stocks,
        r.character == p.character,
        r.drop_through_frames <= CROUCH_DROP_FRAMES,
{
    reveal(spec_movement);
    // Movement (only when actionable or in certain states)
    let can_move = matches!(p.action, ActionState::Idle | ActionState::Shielding);

    // Crouch: hold down while grounded and actionable
    let crouching = can_move && p.grounded && input.pressed(PlayerInput::DOWN) && !matches!(
        p.action,
        ActionState::Shielding
    );
    let p1 = PlayerState {
        is_crouching: crouching,
        drop_through_frames: if crouching { p.drop_through_frames } else { 0 },
        ..p
    };
    if can_move {
        let walked = walk(p1, input, stats);
        jump(walked, input, stats)
    } else {
        PlayerState { jump_held: input.pressed(PlayerInput::UP), ..p1 }
    }
}

/// Fast-fall: holding down while falling sets the fall speed (not in hitstun).
#[verifier::opaque]
pub open spec fn spec_fast_fall(p: PlayerState, input: PlayerInput, stats: CharacterStats) -> PlayerState {
    if !p.grounded && input.has(PlayerInput::DOWN) && p.velocity_y.0 > 0 && !(p.action is Hitstun) {
        PlayerState { velocity_y: stats.fast_fall_speed, ..p }
    } else {
        p
    }
}

/// Shield regeneration when not shielding.
#[verifier::opaque]
pub open spec fn spec_shield_regen(p: PlayerState) -> PlayerState {
    if !(p.action is Shielding) && p.shield_hp < SHIELD_MAX_HP {
        PlayerState { shield_hp: (p.shield_hp + SHIELD_REGEN_RATE) as u16, ..p }
    } else {
        p
    }
}

fn fast_fall(p: PlayerState, input: PlayerInput, stats: CharacterStats) -> (r: PlayerState)
    requires
        stats_of(stats, p),
    ensures
        r == spec_fast_fall(p, input, stats),
        r.position_x == p.position_x && r.position_y == p.position_y,
        r.velocity_x == p.velocity_x,
        r.velocity_y == p.velocity_y || r.velocity_y == stats.fast_fall_speed,
        r.action == p.action && r.stocks == p.stocks && r.character == p.character,
        r.drop_through_frames == p.drop_through_frames,
{
    reveal(spec_fast_fall);
    if !p.grounded && input.pressed(PlayerInput::DOWN) && p.velocity_y.0 > 0 && !matches!(
        p.action,
        ActionState::Hitstun { .. }
    ) {
        PlayerState { velocity_y: stats.fast_fall_speed, ..p }
    } else {
        p
    }
}

fn shield_regen(p: PlayerState) -> (r: PlayerState)
    ensures
        r == spec_shield_regen(p),
        r.position_x == p.position_x && r.position_y == p.position_y,
        r.velocity_x == p.velocity_x && r.velocity_y == p.velocity_y,
        r.action == p.action && r.stocks == p.stocks && r.character == p.character,
        r.drop_through_frames == p.drop_through_frames,
{
    reveal(spec_shield_regen);
    if !matches!(p.action, ActionState::Shielding) && p.shield_hp < SHIELD_MAX_HP {
        PlayerState { shield_hp: p.shield_hp + SHIELD_REGEN_RATE, ..p }
    } else {
        p
    }
}

// ---------------------------------------------------------------------------
// Physics, ledge, blast zones, landing
// ---------------------------------------------------------------------------

/// After losing a stock: back on the revival platform at the top center,
/// with no damage and `RESPAWN_INVINCIBILITY_FRAMES` frames of invincibility.
#[verifier::opaque]
pub open spec fn spec_respawn(p: PlayerState) -> PlayerState {
    PlayerState {
        position_x: Fp(STAGE_CENTER_X),
        position_y: Fp(RESPAWN_Y),
        velocity_x: Fp(0),
        velocity_y: Fp(0),
        damage_percent: 0,
        invincibility_frames: RESPAWN_INVINCIBILITY_FRAMES,
        grounded: false,
        jumps_remaining: MAX_JUMPS,
        action: ActionState::Idle,
        shield_hp: SHIELD_MAX_HP,
        has_up_special: false,
        has_ledge_grab: false,
        ..p
    }
}

fn respawn_player(p: PlayerState) -> (r: PlayerState)
    ensures
        r == spec_respawn(p),
        r.position_x == Fp(STAGE_CENTER_X) && r.position_y == Fp(RESPAWN_Y),
        r.velocity_x == Fp(0) && r.velocity_y == Fp(0),
        r.stocks == p.stocks,
        r.drop_through_frames == p.drop_through_frames && r.character == p.character,
{
    reveal(spec_respawn);
    PlayerState {
        position_x: Fp(STAGE_CENTER_X),
        position_y: Fp(RESPAWN_Y),
        velocity_x: Fp::zero(),
        velocity_y: Fp::zero(),
        damage_percent: 0,
        invincibility_frames: RESPAWN_INVINCIBILITY_FRAMES,
        grounded: false,
        jumps_remaining: MAX_JUMPS,
        action: ActionState::Idle,
        shield_hp: SHIELD_MAX_HP,
        has_up_special: false,
        has_ledge_grab: false,
        ..p
    }
}

/// Beyond a blast zone on any side.
pub open spec fn spec_in_blast_zone(p: PlayerState) -> bool {
    p.position_x.0 < BLAST_LEFT || p.position_x.0 > BLAST_RIGHT || p.position_y.0 < BLAST_TOP
        || p.position_y.0 > BLAST_BOTTOM
}

fn in_blast_zone(player: &PlayerState) -> (r: bool)
    ensures
        r == spec_in_blast_zone(*player),
{
    player.position_x.0 < BLAST_LEFT || player.position_x.0 > BLAST_RIGHT
        || player.position_y.0 < BLAST_TOP || player.position_y.0 > BLAST_BOTTOM
}

/// Within grab range of the ledge height.
pub open spec fn near_ledge_height(p: PlayerState) -> bool {
    p.position_y.0 >= GROUND_Y - LEDGE_GRAB_RANGE_Y && p.position_y.0 <= GROUND_Y
        + LEDGE_GRAB_RANGE_Y
}

/// Off the right side of the stage, within grab range of its ledge.
pub open spec fn near_right_ledge(p: PlayerState) -> bool {
    p.position_x.0 > STAGE_RIGHT && p.position_x.0 <= STAGE_RIGHT + LEDGE_GRAB_RANGE_X
}

/// Off the left side of the stage, within grab range of its ledge.
pub open spec fn near_left_ledge(p: PlayerState) -> bool {
    p.position_x.0 < STAGE_LEFT && p.position_x.0 >= STAGE_LEFT - LEDGE_GRAB_RANGE_X
}

/// An idle airborne player who has not grabbed the ledge since last on the
/// ground snaps to a ledge when off the stage's side and within grab range,
/// rising or falling.
pub open spec fn spec_ledge_grab_applies(p: PlayerState) -> bool {
    &&& !p.grounded
    &&& !p.has_ledge_grab
    &&& spec_can_act(p)
    &&& near_ledge_height(p)
    &&& (near_right_ledge(p) || near_left_ledge(p))
}

/// Hanging on the ledge: still, invincible for `LEDGE_INVINCIBILITY` frames.
#[verifier::opaque]
pub open spec fn spec_grab_ledge(p: PlayerState) -> PlayerState {
    PlayerState {
        action: ActionState::LedgeHang,
        velocity_x: Fp(0),
        velocity_y: Fp(0),
        invincibility_frames: LEDGE_INVINCIBILITY,
        has_ledge_grab: true,
        position_x: if near_right_ledge(p) { Fp(STAGE_RIGHT) } else { Fp(STAGE_LEFT) },
        position_y: Fp(GROUND_Y),
        ..p
    }
}

/// Grounded players cannot walk off the platform.
#[verifier::opaque]
pub open spec fn spec_stage_edges(p: PlayerState) -> PlayerState {
    if p.grounded && p.position_x.0 < STAGE_LEFT {
        PlayerState { position_x: Fp(STAGE_LEFT), ..p }
    } else if p.grounded && p.position_x.0 > STAGE_RIGHT {
        PlayerState { position_x: Fp(STAGE_RIGHT), ..p }
    } else {
        p
    }
}

pub open spec fn is_attacking(a: ActionState) -> bool {
    a is AttackStartup || a is AttackActive || a is AttackRecovery
}

pub open spec fn is_aerial(a: AttackType) -> bool {
    a is NeutralAir || a is ForwardAir || a is BackAir || a is UpAir || a is DownAir
}

/// Landing: an aerial ends in landing lag; hitstun with shield held techs
/// (a roll when holding a direction); freefall ends.
#[verifier::opaque]
pub open spec fn spec_landed(p: PlayerState, input: PlayerInput) -> PlayerState {
    let just_landed = !p.grounded;
    let was_in_hitstun = just_landed && p.action is Hitstun;
    let was_aerial_attack = just_landed && is_attacking(p.action) && is_aerial(p.current_attack);
    let can_tech = was_in_hitstun && input.has(PlayerInput::SHIELD);
    let q = PlayerState {
        position_y: Fp(GROUND_Y),
        velocity_y: Fp(0),
        grounded: true,
        jumps_remaining: MAX_JUMPS,
        has_ledge_grab: false,
        has_up_special: false,
        ..p
    };
    if was_aerial_attack {
        // Landing lag — shorter than full recovery
        PlayerState {
            action: ActionState::AttackRecovery { frames_left: LANDING_LAG_FRAMES },
            velocity_x: Fp(0),
            ..q
        }
    } else if can_tech {
        if input.has(PlayerInput::LEFT) || input.has(PlayerInput::RIGHT) {
            PlayerState {
                action: ActionState::Rolling {
                    frames_left: ROLL_FRAMES,
                    direction: if input.has(PlayerInput::RIGHT) { 1i8 } else { -1i8 },
                },
                invincibility_frames: ROLL_INVINCIBLE,
                velocity_x: Fp(0),
                ..q
            }
        } else {
            PlayerState { action: ActionState::Idle, velocity_x: Fp(0), ..q }
        }
    } else if q.action is Freefall {
        PlayerState { action: ActionState::Idle, ..q }
    } else {
        q
    }
}

/// A meteor bounce: landing in hitstun faster than the threshold without
/// teching bounces off the ground with decayed velocity.
pub open spec fn spec_bounces(p: PlayerState, input: PlayerInput) -> bool {
    &&& !p.grounded
    &&& p.action is Hitstun
    &&& p.velocity_y.0 > METEOR_BOUNCE_THRESHOLD
    &&& !input.has(PlayerInput::SHIELD)
}

#[verifier::opaque]
pub open spec fn spec_bounce(p: PlayerState) -> PlayerState {
    PlayerState {
        position_y: Fp(GROUND_Y),
        velocity_y: fp_neg(fp_mul(p.velocity_y, Fp(39321))),
        velocity_x: fp_mul(p.velocity_x, Fp(52428)),
        grounded: false,
        ..p
    }
}

/// Standing over the platform at or below its surface, not dropping through.
pub open spec fn spec_touches_ground(p: PlayerState) -> bool {
    p.position_y.0 >= GROUND_Y && p.position_x.0 >= STAGE_LEFT && p.position_x.0 <= STAGE_RIGHT
        && !p.drop_through_active
}

/// Drop-through ends once below the stage level.
pub open spec fn spec_clear_drop_through(p: PlayerState) -> PlayerState {
    if p.drop_through_active && p.position_y.0 > GROUND_Y + 20 * SCALE {
        PlayerState { drop_through_active: false, ..p }
    } else {
        p
    }
}

/// Ground collision and stage edges for a player inside the blast zones.
#[verifier::opaque]
pub open spec fn spec_land(p: PlayerState, input: PlayerInput) -> PlayerState {
    let p1 = spec_clear_drop_through(p);
    if spec_touches_ground(p1) {
        if spec_bounces(p1, input) {
            spec_bounce(p1)
        } else {
            spec_stage_edges(spec_landed(p1, input))
        }
    } else {
        spec_stage_edges(p1)
    }
}

/// Losing a stock beyond a blast zone, else landing.
#[verifier::opaque]
pub open spec fn spec_blast_or_land(p: PlayerState, input: PlayerInput) -> PlayerState {
    if spec_in_blast_zone(p) {
        let q = PlayerState { stocks: (p.stocks - 1) as u8, ..p };
        if q.stocks > 0 {
            spec_respawn(q)
        } else {
            q
        }
    } else {
        spec_land(p, input)
    }
}

/// Gravity (not during up-B, whose launch provides the velocity) and motion.
#[verifier::opaque]
pub open spec fn spec_apply_velocity(p: PlayerState, stats: CharacterStats) -> PlayerState {
    let vy = if !p.grounded && !(p.action is SpecialMove) {
        fp_add(p.velocity_y, stats.gravity)
    } else {
        p.velocity_y
    };
    PlayerState {
        velocity_y: vy,
        position_x: fp_add(p.position_x, p.velocity_x),
        position_y: fp_add(p.position_y, vy),
        ..p
    }
}

/// Motion, then the ledge, the blast zones and the ground; a player hanging
/// on the ledge stays put.
#[verifier::opaque]
pub open spec fn spec_physics(p: PlayerState, input: PlayerInput, stats: CharacterStats) -> PlayerState {
    if p.action is LedgeHang {
        p
    } else {
        let moved = spec_apply_velocity(p, stats);
        if spec_ledge_grab_applies(moved) {
            spec_grab_ledge(moved)
        } else {
            spec_blast_or_land(moved, input)
        }
    }
}

/// Inside the blast zones.
pub open spec fn inside_box(p: PlayerState) -> bool {
    &&& BLAST_LEFT <= p.position_x.0 <= BLAST_RIGHT
    &&& BLAST_TOP <= p.position_y.0 <= BLAST_BOTTOM
}

proof fn lemma_scale_down(v: i32, c: int)
    requires
        0 <= c <= 65536,
    ensures
        fp_mul(Fp(v), Fp(c as i32)).0 == (v * c) / 65536,
        v >= 0 ==> 0 <= (v * c) / 65536 <= v,
        v < 0 ==> v <= (v * c) / 65536 <= 0,
{
    let x = v as int;
    assert(x >= 0 ==> 0 <= x * c <= x * 65536) by (nonlinear_arith)
        requires
            0 <= c <= 65536,
    ;
    assert(x < 0 ==> x * 65536 <= x * c <= 0) by (nonlinear_arith)
        requires
            0 <= c <= 65536,
    ;
    assert(x >= 0 ==> (x * c) / 65536 <= (x * 65536) / 65536) by {
        if x >= 0 {
            vstd::arithmetic::div_mod::lemma_div_is_ordered(x * c, x * 65536, 65536);
        }
    }
    assert(x < 0 ==> (x * 65536) / 65536 <= (x * c) / 65536) by {
        if x < 0 {
            vstd::arithmetic::div_mod::lemma_div_is_ordered(x * 65536, x * c, 65536);
        }
    }
    assert((x * 65536) / 65536 == x) by {
        vstd::arithmetic::div_mod::lemma_div_multiples_vanish(x, 65536);
        assert(65536 * x == x * 65536);
    }
    if x < 0 {
        assert((x * c) / 65536 <= 0) by {
            vstd::arithmetic::div_mod::lemma_div_is_ordered(x * c, 0, 65536);
        }
    }
}

fn stage_edges(p: PlayerState) -> (r: PlayerState)
    ensures
        r == spec_stage_edges(p),
        r.position_y == p.position_y,
        r.position_x == p.position_x || r.position_x == Fp(STAGE_LEFT) || r.position_x == Fp(
            STAGE_RIGHT,
        ),
        r.velocity_x == p.velocity_x && r.velocity_y == p.velocity_y,
        r.stocks == p.stocks,
        r.drop_through_frames == p.drop_through_frames && r.character == p.character,
{
    reveal(spec_stage_edges);
    // Stage edges (prevent walking off platform)
    if p.grounded && p.position_x.0 < STAGE_LEFT {
        PlayerState { position_x: Fp(STAGE_LEFT), ..p }
    } else if p.grounded && p.position_x.0 > STAGE_RIGHT {
        PlayerState { position_x: Fp(STAGE_RIGHT), ..p }
    } else {
        p
    }
}

fn landed(p: PlayerState, input: PlayerInput) -> (r: PlayerState)
    ensures
        r == spec_landed(p, input),
        r.position_x == p.position_x && r.position_y == Fp(GROUND_Y),
        r.velocity_x == p.velocity_x || r.velocity_x == Fp(0),
        r.velocity_y == Fp(0),
        r.stocks == p.stocks,
        r.drop_through_frames == p.drop_through_frames && r.character == p.character,
{
    reveal(spec_landed);
    let just_landed = !p.grounded;
    let was_in_hitstun = just_landed && matches!(p.action, ActionState::Hitstun { .. });
    let was_aerial_attack = just_landed && matches!(
        p.action,
        ActionState::AttackStartup { .. } | ActionState::AttackActive { .. }
            | ActionState::AttackRecovery { .. }
    ) && matches!(
        p.current_attack,
        AttackType::NeutralAir | AttackType::ForwardAir | AttackType::BackAir | AttackType::UpAir
            | AttackType::DownAir
    );
    let can_tech = was_in_hitstun && input.pressed(PlayerInput::SHIELD);
    let q = PlayerState {
        position_y: Fp(GROUND_Y),
        velocity_y: Fp::zero(),
        grounded: true,
        jumps_remaining: MAX_JUMPS,
        has_ledge_grab: false,
        has_up_special: false,
        ..p
    };
    if was_aerial_attack {
        // Landing lag — shorter than full recovery
        PlayerState {
            action: ActionState::AttackRecovery { frames_left: LANDING_LAG_FRAMES },
            velocity_x: Fp::zero(),
            ..q
        }
    } else if can_tech {
        // Tech: recover on landing
        let holding_left = input.pressed(PlayerInput::LEFT);
        let holding_right = input.pressed(PlayerInput::RIGHT);
        if holding_left || holding_right {
            let dir: i8 = if holding_right { 1 } else { -1 };
            PlayerState {
                action: ActionState::Rolling { frames_left: ROLL_FRAMES, direction: dir },
                invincibility_frames: ROLL_INVINCIBLE,
                velocity_x: Fp::zero(),
                ..q
            }
        } else {
            PlayerState { action: ActionState::Idle, velocity_x: Fp::zero(), ..q }
        }
    } else if matches!(q.action, ActionState::Freefall) {
        PlayerState { action: ActionState::Idle, ..q }
    } else {
        q
    }
}

fn bounce(p: PlayerState) -> (r: PlayerState)
    requires
        -VEL_LIMIT <= p.velocity_y.0 <= VEL_LIMIT,
    ensures
        r == spec_bounce(p),
        r.position_x == p.position_x && r.position_y == Fp(GROUND_Y),
        r.stocks == p.stocks,
        r.drop_through_frames == p.drop_through_frames && r.character == p.character,
        -VEL_LIMIT <= r.velocity_y.0 <= VEL_LIMIT,
        p.velocity_x.0 >= 0 ==> 0 <= r.velocity_x.0 <= p.velocity_x.0,
        p.velocity_x.0 < 0 ==> p.velocity_x.0 <= r.velocity_x.0 <= 0,
{
    reveal(spec_bounce);
    proof {
        lemma_scale_down(p.velocity_y.0, 39321);
        lemma_scale_down(p.velocity_x.0, 52428);
    }
    // Bounce: reverse and decay vertical velocity
    let decayed = p.velocity_y.times(Fp::from_raw(39321));
    PlayerState {
        position_y: Fp(GROUND_Y),
        velocity_y: decayed.negated(),
        velocity_x: p.velocity_x.times(Fp::from_raw(52428)),
        grounded: false,
        ..p
    }
}

fn land(p: PlayerState, input: PlayerInput) -> (r: PlayerState)
    requires
        inside_box(p),
        -VEL_LIMIT <= p.velocity_x.0 <= VEL_LIMIT,
        -VEL_LIMIT <= p.velocity_y.0 <= VEL_LIMIT,
    ensures
        r == spec_land(p, input),
        kin_within(r, POS_LIMIT as int, POS_LIMIT as int, VEL_LIMIT as int),
        r.stocks == p.stocks,
        r.drop_through_frames == p.drop_through_frames && r.character == p.character,
{
    reveal(spec_land);
    // Clear drop-through when below stage level
    let p1 = if p.drop_through_active && p.position_y.0 > GROUND_Y + 20 * SCALE {
        PlayerState { drop_through_active: false, ..p }
    } else {
        p
    };
    // Ground collision (skip during drop-through)
    if p1.position_y.0 >= GROUND_Y && p1.position_x.0 >= STAGE_LEFT && p1.position_x.0
        <= STAGE_RIGHT && !p1.drop_through_active {
        // Meteor bounce: if spiked downward hard enough, bounce off the ground
        // (but teching overrides the bounce)
        let bounces = !p1.grounded && matches!(p1.action, ActionState::Hitstun { .. })
            && p1.velocity_y.0 > METEOR_BOUNCE_THRESHOLD && !input.pressed(PlayerInput::SHIELD);
        if bounces {
            bounce(p1)
        } else {
            stage_edges(landed(p1, input))
        }
    } else {
        stage_edges(p1)
    }
}

fn grab_ledge(p: PlayerState) -> (r: PlayerState)
    ensures
        r == spec_grab_ledge(p),
        r.position_x == Fp(STAGE_LEFT) || r.position_x == Fp(STAGE_RIGHT),
        r.position_y == Fp(GROUND_Y),
        r.velocity_x == Fp(0) && r.velocity_y == Fp(0),
        r.stocks == p.stocks,
        r.drop_through_frames == p.drop_through_frames && r.character == p.character,
{
    reveal(spec_grab_ledge);
    let near_right = p.position_x.0 > STAGE_RIGHT && p.position_x.0 <= STAGE_RIGHT
        + LEDGE_GRAB_RANGE_X;
    PlayerState {
        action: ActionState::LedgeHang,
        velocity_x: Fp::zero(),
        velocity_y: Fp::zero(),
        invincibility_frames: LEDGE_INVINCIBILITY,
        has_ledge_grab: true,
        position_x: if near_right { Fp(STAGE_RIGHT) } else { Fp(STAGE_LEFT) },
        position_y: Fp(GROUND_Y),
        ..p
    }
}

fn ledge_grab_applies(p: &PlayerState) -> (r: bool)
    ensures
        r == spec_ledge_grab_applies(*p),
{
    if !p.grounded && !p.has_ledge_grab && can_act(p) {
        let near_ground = p.position_y.0 >= GROUND_Y - LEDGE_GRAB_RANGE_Y && p.position_y.0
            <= GROUND_Y + LEDGE_GRAB_RANGE_Y;
        let near_right_ledge = p.position_x.0 > STAGE_RIGHT && p.position_x.0 <= STAGE_RIGHT
            + LEDGE_GRAB_RANGE_X;
        let near_left_ledge = p.position_x.0 < STAGE_LEFT && p.position_x.0 >= STAGE_LEFT
            - LEDGE_GRAB_RANGE_X;
        near_ground && (near_right_ledge || near_left_ledge)
    } else {
        false
    }
}

fn blast_or_land(p: PlayerState, input: PlayerInput) -> (r: PlayerState)
    requires
        p.stocks > 0,
        -VEL_LIMIT <= p.velocity_x.0 <= VEL_LIMIT,
        !spec_in_blast_zone(p) ==> -VEL_LIMIT <= p.velocity_y.0 <= VEL_LIMIT,
    ensures
        r == spec_blast_or_land(p, input),
        r.stocks > 0 ==> kin_within(r, POS_LIMIT as int, POS_LIMIT as int, VEL_LIMIT as int),
        r.stocks <= p.stocks,
        r.drop_through_frames == p.drop_through_frames && r.character == p.character,
{
    reveal(spec_blast_or_land);
    // Blast zone
    if in_blast_zone(&p) {
        let q = PlayerState { stocks: p.stocks - 1, ..p };
        if q.stocks > 0 {
            respawn_player(q)
        } else {
            q
        }
    } else {
        land(p, input)
    }
}

/// The moved player's position is the previous one plus the velocity.
pub open spec fn moved_from(m: PlayerState, p: PlayerState) -> bool {
    &&& m.position_x.0 == p.position_x.0 + m.velocity_x.0
    &&& m.position_y.0 == p.position_y.0 + m.velocity_y.0
}

fn apply_velocity(p: PlayerState, stats: CharacterStats) -> (r: PlayerState)
    requires
        stats_of(stats, p),
        kin_within(p, POS_LIMIT + ROLL_SLACK, POS_LIMIT + SCALE, VEL_LIMIT as int),
    ensures
        r == spec_apply_velocity(p, stats),
        moved_from(r, p),
        r.stocks == p.stocks,
        r.drop_through_frames == p.drop_through_frames && r.character == p.character,
        r.velocity_x == p.velocity_x,
        -VEL_LIMIT <= r.velocity_y.0 <= VEL_LIMIT + SCALE,
{
    reveal(spec_apply_velocity);
    // Gravity (skip during up-B — the move provides its own velocity)
    let vy = if !p.grounded && !matches!(p.action, ActionState::SpecialMove { .. }) {
        p.velocity_y.plus(stats.gravity)
    } else {
        p.velocity_y
    };
    // Apply velocity
    PlayerState {
        velocity_y: vy,
        position_x: p.position_x.plus(p.velocity_x),
        position_y: p.position_y.plus(vy),
        ..p
    }
}

fn physics(p: PlayerState, input: PlayerInput, stats: CharacterStats) -> (r: PlayerState)
    requires
        p.stocks > 0,
        stats_of(stats, p),
        kin_within(p, POS_LIMIT + ROLL_SLACK, POS_LIMIT + SCALE, VEL_LIMIT as int),
        p.action is LedgeHang ==> kin_within(p, POS_LIMIT as int, POS_LIMIT as int, VEL_LIMIT as int),
    ensures
        r == spec_physics(p, input, stats),
        r.stocks > 0 ==> kin_within(r, POS_LIMIT as int, POS_LIMIT as int, VEL_LIMIT as int),
        r.stocks <= p.stocks,
        r.drop_through_frames == p.drop_through_frames && r.character == p.character,
{
    reveal(spec_physics);
    // Skip physics when hanging on ledge
    if matches!(p.action, ActionState::LedgeHang) {
        return p;
    }
    let moved = apply_velocity(p, stats);
    // Ledge grab detection
    if ledge_grab_applies(&moved) {
        grab_ledge(moved)
    } else {
        blast_or_land(moved, input)
    }
}

/// One player's update for a frame. A player out of stocks does not change.
#[verifier::opaque]
pub open spec fn spec_update_player(p: PlayerState, input: PlayerInput) -> PlayerState {
    if p.stocks == 0 {
        p
    } else {
        let stats = crate::state::spec_character_stats(p.character);
        spec_physics(
            spec_shield_regen(
                spec_fast_fall(
                    spec_movement(
                        spec_record_held(
                            spec_input_actions(
                                spec_advance_action(spec_tick_invincibility(p), input),
                                input,
                            ),
                            input,
                        ),
                        input,
                        stats,
                    ),
                    input,
                    stats,
                ),
            ),
            input,
            stats,
        )
    }
}

pub fn update_player(p: PlayerState, input: PlayerInput) -> (r: PlayerState)
    requires
        p.stocks > 0 ==> player_bounded(p),
    ensures
        r == spec_update_player(p, input),
        r.stocks > 0 ==> player_bounded(r),
        r.stocks <= p.stocks,
        r.character == p.character,
{
    reveal(spec_update_player);
    if p.stocks == 0 {
        return p;
    }
    let stats = crate::state::character_stats(p.character);
    let p1 = tick_invincibility(p);
    let p2 = advance_action(p1, input);
    let p3 = input_actions(p2, input);
    let p4 = record_held(p3, input);
    let p5 = movement(p4, input, stats);
    let p6 = fast_fall(p5, input, stats);
    let p7 = shield_regen(p6);
    physics(p7, input, stats)
}

// ---------------------------------------------------------------------------
// Damage through a player's own update
// ---------------------------------------------------------------------------

/// Stages of a player's update that keep both damage and stocks.
pub open spec fn keeps_record(q: PlayerState, p: PlayerState) -> bool {
    q.damage_percent == p.damage_percent && q.stocks == p.stocks && q.character == p.character
}

proof fn lemma_early_stages_keep_damage(p: PlayerState, input: PlayerInput, stats: CharacterStats)
    ensures
        keeps_record(spec_tick_invincibility(p), p),
        keeps_record(spec_advance_action(p, input), p),
        keeps_record(spec_input_actions(p, input), p),
        keeps_record(spec_record_held(p, input), p),
        keeps_record(spec_fast_fall(p, input, stats), p),
        keeps_record(spec_shield_regen(p), p),
{
    assert(keeps_record(spec_tick_invincibility(p), p)) by {
        reveal(spec_tick_invincibility);
    }
    assert(keeps_record(spec_advance_action(p, input), p)) by {
        reveal(spec_advance_action);
        reveal(spec_ledge_options);
    }
    assert(keeps_record(spec_input_actions(p, input), p)) by {
        reveal(spec_input_actions);
        reveal(spec_shield_press);
    }
    assert(keeps_record(spec_record_held(p, input), p)) by {
        reveal(spec_record_held);
    }
    assert(keeps_record(spec_fast_fall(p, input, stats), p)) by {
        reveal(spec_fast_fall);
    }
    assert(keeps_record(spec_shield_regen(p), p)) by {
        reveal(spec_shield_regen);
    }
}

proof fn lemma_movement_keeps_damage(p: PlayerState, input: PlayerInput, stats: CharacterStats)
    ensures
        keeps_record(spec_movement(p, input, stats), p),
{
    reveal(spec_movement);
    reveal(spec_walk);
    reveal(spec_crouch);
    reveal(spec_ground_move);
    reveal(spec_air_drift);
    reveal(spec_jump);
    reveal(spec_jump_impulse);
    reveal(spec_after_jump_press);
}

proof fn lemma_land_keeps_damage(p: PlayerState, input: PlayerInput)
    ensures
        keeps_record(spec_land(p, input), p),
{
    reveal(spec_land);
    reveal(spec_landed);
    reveal(spec_bounce);
    reveal(spec_stage_edges);
}

/// Physics keeps damage and stocks, except that losing a stock with stocks
/// left respawns the player: no damage, invincible, idle.
proof fn lemma_physics_damage(p: PlayerState, input: PlayerInput, stats: CharacterStats)
    requires
        p.stocks > 0,
    ensures
        ({
            let r = spec_physics(p, input, stats);
            &&& r.stocks <= p.stocks
            &&& r.stocks == p.stocks ==> r.damage_percent == p.damage_percent
            &&& r.stocks < p.stocks && r.stocks > 0 ==> {
                &&& r.damage_percent == 0
                &&& r.invincibility_frames == RESPAWN_INVINCIBILITY_FRAMES
                &&& r.action == ActionState::Idle
            }
            &&& r.stocks < p.stocks && r.stocks == 0 ==> r.damage_percent == p.damage_percent
        }),
{
    reveal(spec_physics);
    reveal(spec_apply_velocity);
    reveal(spec_grab_ledge);
    reveal(spec_blast_or_land);
    reveal(spec_respawn);
    lemma_land_keeps_damage(spec_apply_velocity(p, stats), input);
}

/// The stages of a player's update before physics.
pub open spec fn before_physics(p: PlayerState, input: PlayerInput) -> PlayerState {
    let stats = crate::state::spec_character_stats(p.character);
    spec_shield_regen(
        spec_fast_fall(
            spec_movement(
                spec_record_held(
                    spec_input_actions(spec_advance_action(spec_tick_invincibility(p), input), input),
                    input,
                ),
                input,
                stats,
            ),
            input,
            stats,
        ),
    )
}

proof fn lemma_before_physics(p: PlayerState, input: PlayerInput)
    ensures
        keeps_record(before_physics(p, input), p),
        p.stocks != 0 ==> spec_update_player(p, input) == spec_physics(
            before_physics(p, input),
            input,
            crate::state::spec_character_stats(p.character),
        ),
{
    reveal(spec_update_player);
    let stats = crate::state::spec_character_stats(p.character);
    let p1 = spec_tick_invincibility(p);
    let p2 = spec_advance_action(p1, input);
    let p3 = spec_input_actions(p2, input);
    let p4 = spec_record_held(p3, input);
    let p5 = spec_movement(p4, input, stats);
    let p6 = spec_fast_fall(p5, input, stats);
    lemma_early_stages_keep_damage(p, input, stats);
    lemma_early_stages_keep_damage(p1, input, stats);
    lemma_early_stages_keep_damage(p2, input, stats);
    lemma_early_stages_keep_damage(p3, input, stats);
    lemma_movement_keeps_damage(p4, input, stats);
    lemma_early_stages_keep_damage(p5, input, stats);
    lemma_early_stages_keep_damage(p6, input, stats);
}

/// A player's own update never adds damage, and losing a stock with
/// stocks left respawns the player with no damage, invincible and idle.
pub proof fn lemma_update_player_damage(p: PlayerState, input: PlayerInput)
    ensures
        ({
            let r = spec_update_player(p, input);
            &&& r.damage_percent <= p.damage_percent
            &&& r.stocks < p.stocks && r.stocks > 0 ==> {
                &&& r.damage_percent == 0
                &&& r.invincibility_frames == RESPAWN_INVINCIBILITY_FRAMES
                &&& r.action == ActionState::Idle
            }
        }),
{
    reveal(spec_update_player);
    if p.stocks != 0 {
        lemma_before_physics(p, input);
        lemma_physics_damage(
            before_physics(p, input),
            input,
            crate::state::spec_character_stats(p.character),
        );
    }
}

// ---------------------------------------------------------------------------
// The ledge
// ---------------------------------------------------------------------------

/// `q` keeps `p`'s ledge flag and does not hang.
pub open spec fn keeps_ledge(q: PlayerState, p: PlayerState) -> bool {
    q.has_ledge_grab == p.has_ledge_grab && !(q.action is LedgeHang)
}

/// The stages before physics neither start a hang nor touch the ledge flag
/// of a player who is not hanging.
proof fn lemma_stages_keep_ledge(p: PlayerState, input: PlayerInput, stats: CharacterStats)
    requires
        !(p.action is LedgeHang),
    ensures
        keeps_ledge(spec_tick_invincibility(p), p),
        keeps_ledge(spec_advance_action(p, input), p),
        keeps_ledge(spec_input_actions(p, input), p),
        keeps_ledge(spec_record_held(p, input), p),
        keeps_ledge(spec_movement(p, input, stats), p),
        keeps_ledge(spec_fast_fall(p, input, stats), p),
        keeps_ledge(spec_shield_regen(p), p),
{
    assert(keeps_ledge(spec_tick_invincibility(p), p)) by {
        reveal(spec_tick_invincibility);
    }
    assert(keeps_ledge(spec_advance_action(p, input), p)) by {
        reveal(spec_advance_action);
    }
    assert(keeps_ledge(spec_input_actions(p, input), p)) by {
        reveal(spec_input_actions);
        reveal(spec_shield_press);
    }
    assert(keeps_ledge(spec_record_held(p, input), p)) by {
        reveal(spec_record_held);
    }
    assert(keeps_ledge(spec_movement(p, input, stats), p)) by {
        reveal(spec_movement);
        reveal(spec_walk);
        reveal(spec_crouch);
        reveal(spec_ground_move);
        reveal(spec_air_drift);
        reveal(spec_jump);
        reveal(spec_jump_impulse);
        reveal(spec_after_jump_press);
    }
    assert(keeps_ledge(spec_fast_fall(p, input, stats), p)) by {
        reveal(spec_fast_fall);
    }
    assert(keeps_ledge(spec_shield_regen(p), p)) by {
        reveal(spec_shield_regen);
    }
}

/// Physics starts a hang only by grabbing the ledge, which needs the ledge
/// flag clear and sets it.
proof fn lemma_physics_ledge(p: PlayerState, input: PlayerInput, stats: CharacterStats)
    requires
        !(p.action is LedgeHang),
    ensures
        spec_physics(p, input, stats).action is LedgeHang ==> !p.has_ledge_grab
            && spec_physics(p, input, stats).has_ledge_grab,
{
    reveal(spec_physics);
    reveal(spec_apply_velocity);
    reveal(spec_grab_ledge);
    reveal(spec_blast_or_land);
    reveal(spec_respawn);
    reveal(spec_land);
    reveal(spec_landed);
    reveal(spec_bounce);
    reveal(spec_stage_edges);
}

/// One ledge grab per stay in the air: a player who is not hanging starts
/// hanging on the ledge only if they have not grabbed it since they were
/// last on the ground, respawned or were hit (a hit restores the grab), and
/// grabbing it uses up the grab.
pub proof fn lemma_one_ledge_grab_per_airtime(p: PlayerState, input: PlayerInput)
    ensures
        ({
            let r = spec_update_player(p, input);
            !(p.action is LedgeHang) && r.action is LedgeHang ==> !p.has_ledge_grab
                && r.has_ledge_grab
        }),
{
    reveal(spec_update_player);
    if p.stocks != 0 && !(p.action is LedgeHang) {
        let stats = crate::state::spec_character_stats(p.character);
        let p1 = spec_tick_invincibility(p);
        lemma_stages_keep_ledge(p, input, stats);
        let p2 = spec_advance_action(p1, input);
        lemma_stages_keep_ledge(p1, input, stats);
        let p3 = spec_input_actions(p2, input);
        lemma_stages_keep_ledge(p2, input, stats);
        let p4 = spec_record_held(p3, input);
        lemma_stages_keep_ledge(p3, input, stats);
        let p5 = spec_movement(p4, input, stats);
        lemma_stages_keep_ledge(p4, input, stats);
        let p6 = spec_fast_fall(p5, input, stats);
        lemma_stages_keep_ledge(p5, input, stats);
        let p7 = spec_shield_regen(p6);
        lemma_stages_keep_ledge(p6, input, stats);
        lemma_physics_ledge(p7, input, stats);
    }
}

// ---------------------------------------------------------------------------
// One player per ledge
// ---------------------------------------------------------------------------

/// Forced off the ledge by another player's grab: let go and drop, as when
/// pressing down on the ledge.
pub open spec fn spec_forced_off_ledge(p: PlayerState) -> PlayerState {
    PlayerState {
        action: ActionState::Idle,
        velocity_y: fp_int(2),
        position_x: if p.position_x.0 <= STAGE_LEFT {
            fp_raw(STAGE_LEFT - 5 * SCALE)
        } else {
            fp_raw(STAGE_RIGHT + 5 * SCALE)
        },
        ..p
    }
}

/// Both hang from the same ledge.
pub open spec fn share_ledge(a: PlayerState, b: PlayerState) -> bool {
    a.action is LedgeHang && b.action is LedgeHang && a.position_x == b.position_x
}

/// Started hanging during the update from `before` to `after`.
pub open spec fn grabbed_now(before: PlayerState, after: PlayerState) -> bool {
    !(before.action is LedgeHang) && after.action is LedgeHang
}

/// One player per ledge: a player who grabs a ledge the other player hangs
/// from forces that player off (player 0's grab is settled first).
pub open spec fn spec_one_per_ledge(before: [PlayerState; 2], after: [PlayerState; 2]) -> [PlayerState; 2] {
    let p1 = if grabbed_now(before[0], after[0]) && share_ledge(after[0], after[1]) {
        spec_forced_off_ledge(after[1])
    } else {
        after[1]
    };
    let p0 = if grabbed_now(before[1], after[1]) && share_ledge(after[0], p1) {
        spec_forced_off_ledge(after[0])
    } else {
        after[0]
    };
    [p0, p1]
}

fn forced_off_ledge(p: PlayerState) -> (r: PlayerState)
    requires
        p.action is LedgeHang,
        p.stocks > 0 ==> player_bounded(p),
    ensures
        r == spec_forced_off_ledge(p),
        r.stocks > 0 ==> player_bounded(r),
{
    // Drop — push slightly off-stage so ground collision doesn't catch
    let x = if p.position_x.0 <= STAGE_LEFT {
        Fp(STAGE_LEFT).minus(Fp::from_int(5))
    } else {
        Fp(STAGE_RIGHT).plus(Fp::from_int(5))
    };
    PlayerState { action: ActionState::Idle, velocity_y: Fp::from_int(2), position_x: x, ..p }
}

fn hangs_with(a: &PlayerState, b: &PlayerState) -> (r: bool)
    ensures
        r == share_ledge(*a, *b),
{
    matches!(a.action, ActionState::LedgeHang) && matches!(b.action, ActionState::LedgeHang)
        && a.position_x.0 == b.position_x.0
}

/// Settle who hangs from each ledge after both players' own updates: a
/// player who has just grabbed a ledge the other hangs from forces the
/// other off. Nothing changes but the position, vertical speed and action
/// of a player forced off, who keeps damage, stocks and everything else.
pub fn one_per_ledge(before: &[PlayerState; 2], after: [PlayerState; 2]) -> (r: [PlayerState; 2])
    requires
        after[0].stocks > 0 ==> player_bounded(after[0]),
        after[1].stocks > 0 ==> player_bounded(after[1]),
    ensures
        r == spec_one_per_ledge(*before, after),
        forall|i: int|
            0 <= i < 2 ==> {
                &&& #[trigger] r[i].stocks == after[i].stocks
                &&& r[i].damage_percent == after[i].damage_percent
                &&& r[i].character == after[i].character
                &&& r[i].invincibility_frames == after[i].invincibility_frames
                &&& r[i].drop_through_frames == after[i].drop_through_frames
                &&& r[i].stocks > 0 ==> player_bounded(r[i])
                &&& !(after[i].action is LedgeHang) ==> r[i] == after[i]
            },
        // The player who grabs keeps the ledge; the one hanging there lets go.
        grabbed_now(before[0], after[0]) ==> r[0] == after[0],
        grabbed_now(before[1], after[1]) && !grabbed_now(before[0], after[0]) ==> r[1] == after[1],
        grabbed_now(before[0], after[0]) && share_ledge(after[0], after[1]) ==> !(r[1].action is LedgeHang),
        grabbed_now(before[1], after[1]) && !grabbed_now(before[0], after[0]) && share_ledge(
            after[0],
            after[1],
        ) ==> !(r[0].action is LedgeHang),
{
    let grabbed0 = !matches!(before[0].action, ActionState::LedgeHang) && matches!(
        after[0].action,
        ActionState::LedgeHang
    );
    let p1 = if grabbed0 && hangs_with(&after[0], &after[1]) {
        forced_off_ledge(after[1])
    } else {
        after[1]
    };
    let grabbed1 = !matches!(before[1].action, ActionState::LedgeHang) && matches!(
        after[1].action,
        ActionState::LedgeHang
    );
    let p0 = if grabbed1 && hangs_with(&after[0], &p1) {
        forced_off_ledge(after[0])
    } else {
        after[0]
    };
    let r = [p0, p1];
    proof {
        assert(r =~= spec_one_per_ledge(*before, after));
    }
    r
}

} // verus!
