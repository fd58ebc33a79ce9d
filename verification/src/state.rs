use vstd::prelude::*;

use crate::combat::Rect;
use crate::fixed::{Fp, SCALE, fp_int};
use crate::frame::{
    attack_connects, is_state_bounded, lemma_shield_absorbs_attack, match_end, melee,
    melee_applies, projectile_hits, shield_took_hit, spec_attack_step, spec_grab_step,
    spec_match_end, spec_melee, spec_melee_for, spec_proj_hits_upto, spec_special,
    spec_tick_all, special, state_bounded, tick_projectiles,
};
use crate::hit::{DAMAGE_LIMIT, MAX_HIT_DAMAGE};
use crate::movement::{
    lemma_update_player_damage, one_per_ledge, spec_one_per_ledge, spec_update_player, update_player,
};

pub use crate::checksum::state_checksum;

verus! {

pub const MAX_PLAYERS: usize = 2;
pub const STARTING_STOCKS: u8 = 3;
pub const MAX_PROJECTILES: usize = 6;  // max 3 per player (ranged)

// Fixed-point constants below are raw values (`Fp(raw)`), in logical units
// of a 1280x720 viewport times `SCALE`.

// Stage dimensions
pub const STAGE_WIDTH: i32 = 800 * SCALE;
pub const GROUND_Y: i32 = 600 * SCALE;
pub const STAGE_CENTER_X: i32 = 640 * SCALE;
pub const STAGE_LEFT: i32 = 240 * SCALE;
pub const STAGE_RIGHT: i32 = 1040 * SCALE;
pub const SPAWN_OFFSET_X: i32 = 200 * SCALE;
pub const RESPAWN_Y: i32 = 100 * SCALE;

// Blast zones
pub const BLAST_LEFT: i32 = -300 * SCALE;
pub const BLAST_RIGHT: i32 = 1580 * SCALE;
pub const BLAST_TOP: i32 = -300 * SCALE;
pub const BLAST_BOTTOM: i32 = 1020 * SCALE;

// Movement
pub const DEFAULT_WALK_SPEED: i32 = 4 * SCALE;
pub const DEFAULT_AIR_SPEED: i32 = 3 * SCALE;
pub const DEFAULT_GRAVITY: i32 = 32768;  // 0.5
pub const DEFAULT_JUMP_VELOCITY: i32 = -12 * SCALE;
pub const DEFAULT_DOUBLE_JUMP_VELOCITY: i32 = -10 * SCALE;
pub const DEFAULT_FAST_FALL_SPEED: i32 = 8 * SCALE;
pub const MAX_JUMPS: u8 = 2;
pub const DEFAULT_WEIGHT: i32 = 100 * SCALE;

// Respawn
pub const RESPAWN_INVINCIBILITY_FRAMES: u8 = 120;

// Shield
pub const SHIELD_MAX_HP: u16 = 100;
pub const SHIELD_REGEN_RATE: u16 = 1;  // per frame when not shielding
pub const SHIELD_BREAK_STUN: u8 = 120;  // 2 seconds
pub const SHIELD_DEPLETE_PER_HIT: u16 = 20;

// Dodge
pub const SPOT_DODGE_FRAMES: u8 = 20;
pub const SPOT_DODGE_INVINCIBLE: u8 = 14;
pub const ROLL_FRAMES: u8 = 22;
pub const ROLL_INVINCIBLE: u8 = 16;
pub const ROLL_DISTANCE: i32 = 80 * SCALE;
pub const AIR_DODGE_FRAMES: u8 = 18;
pub const AIR_DODGE_INVINCIBLE: u8 = 12;
pub const AIR_DODGE_SPEED: i32 = 6 * SCALE;

// Ledge
pub const LEDGE_GRAB_RANGE_X: i32 = 20 * SCALE;
pub const LEDGE_GRAB_RANGE_Y: i32 = 30 * SCALE;
pub const LEDGE_INVINCIBILITY: u8 = 30;

// Running
pub const RUN_START_FRAMES: u8 = 8;  // frames of holding direction before run starts
pub const CROUCH_DROP_FRAMES: u8 = 6;  // frames of crouching before dropping through
pub const COUNTER_FRAMES: u8 = 20;  // counter active window
pub const LANDING_LAG_FRAMES: u8 = 8;  // frames of lag when landing during aerial
pub const METEOR_BOUNCE_THRESHOLD: i32 = 4 * SCALE;  // minimum downward velocity for ground bounce

// Up-B recovery
pub const UP_SPECIAL_FRAMES: u8 = 20;
pub const UP_SPECIAL_VELOCITY: i32 = -10 * SCALE;  // strong upward launch

// Knockback scaling — divides raw knockback to get velocity (higher = gentler launches)
pub const KB_VELOCITY_SCALE: i32 = 8 * SCALE;

// Player hurtbox size
pub const PLAYER_WIDTH: i32 = 40 * SCALE;
pub const PLAYER_HEIGHT: i32 = 60 * SCALE;

// Default jab attack data
pub const JAB_STARTUP: u8 = 3;
pub const JAB_ACTIVE: u8 = 3;
pub const JAB_RECOVERY: u8 = 8;
pub const JAB_DAMAGE: i32 = 5 * SCALE;
pub const JAB_BASE_KB: i32 = 20 * SCALE;
pub const JAB_KB_SCALING: i32 = 50 * SCALE;
pub const JAB_KB_ANGLE: i32 = 45;
pub const JAB_HITBOX_W: i32 = 35 * SCALE;
pub const JAB_HITBOX_H: i32 = 20 * SCALE;
pub const JAB_HITBOX_OFFSET_X: i32 = 20 * SCALE;
pub const JAB_HITBOX_OFFSET_Y: i32 = -30 * SCALE;

// Projectile
pub const PROJECTILE_SPEED: i32 = 8 * SCALE;
pub const PROJECTILE_LIFETIME: u8 = 90;  // 1.5 seconds
pub const PROJECTILE_DAMAGE: i32 = 8 * SCALE;
pub const PROJECTILE_BASE_KB: i32 = 15 * SCALE;
pub const PROJECTILE_KB_SCALING: i32 = 40 * SCALE;
pub const PROJECTILE_SIZE: i32 = 12 * SCALE;
pub const MAX_PROJECTILES_PER_PLAYER: usize = 2;

/// Bitfield for player input.
#[derive(Debug, Clone, Copy, PartialEq, Eq, Default, Hash, Structural)]
pub struct PlayerInput(pub u16);

impl PlayerInput {
    pub const LEFT: u16 = 1;
    pub const RIGHT: u16 = 2;
    pub const UP: u16 = 4;
    pub const DOWN: u16 = 8;
    pub const ATTACK: u16 = 16;
    pub const SPECIAL: u16 = 32;
    pub const SHIELD: u16 = 64;
    pub const GRAB: u16 = 128;
    pub const SMASH: u16 = 256;

    /// Whether any bit of `button` is held.
    pub open spec fn has(self, button: u16) -> bool {
        self.0 & button != 0
    }

    /// Horizontal direction held: 1 right, -1 left, 0 neither (right wins).
    pub open spec fn spec_di_x(self) -> int {
        if self.has(Self::RIGHT) {
            1
        } else if self.has(Self::LEFT) {
            -1
        } else {
            0
        }
    }

    /// Vertical direction held: -1 up, 1 down, 0 neither (up wins).
    pub open spec fn spec_di_y(self) -> int {
        if self.has(Self::UP) {
            -1
        } else if self.has(Self::DOWN) {
            1
        } else {
            0
        }
    }

    pub fn pressed(self, button: u16) -> (r: bool)
        ensures
            r == self.has(button),
    {
        self.0 & button != 0
    }

    pub fn di_x(self) -> (r: i32)
        ensures
            r == self.spec_di_x(),
    {
        if self.pressed(Self::RIGHT) {
            1
        } else if self.pressed(Self::LEFT) {
            -1
        } else {
            0
        }
    }

    pub fn di_y(self) -> (r: i32)
        ensures
            r == self.spec_di_y(),
    {
        if self.pressed(Self::UP) {
            -1
        } else if self.pressed(Self::DOWN) {
            1
        } else {
            0
        }
    }
}

#[derive(Debug, Clone, Copy, PartialEq, Eq, Default, Hash, Structural)]
pub enum CharacterId {
    #[default]
    Balanced,
    Ranged,
    Rushdown,
}

#[derive(Debug, Clone, Copy)]
pub struct CharacterStats {
    pub weight: Fp,
    pub walk_speed: Fp,
    pub run_speed: Fp,
    pub air_speed: Fp,
    pub gravity: Fp,
    pub jump_velocity: Fp,
    pub double_jump_velocity: Fp,
    pub fast_fall_speed: Fp,
    pub max_projectiles: usize,
    pub projectile_speed: Fp,
    pub projectile_lifetime: u8,
}

/// The stats of each character.
pub open spec fn spec_character_stats(id: CharacterId) -> CharacterStats {
    match id {
        CharacterId::Balanced => CharacterStats {
            weight: fp_int(100),
            walk_speed: fp_int(4),
            run_speed: fp_int(7),
            air_speed: fp_int(3),
            gravity: Fp((SCALE / 2) as i32),  // 0.5
            jump_velocity: fp_int(-12),
            double_jump_velocity: fp_int(-10),
            fast_fall_speed: fp_int(8),
            max_projectiles: 2,
            projectile_speed: Fp(PROJECTILE_SPEED),
            projectile_lifetime: PROJECTILE_LIFETIME,
        },
        CharacterId::Ranged => CharacterStats {
            weight: fp_int(95),
            walk_speed: fp_int(3),
            run_speed: fp_int(6),
            air_speed: fp_int(2),
            gravity: Fp((SCALE * 45 / 100) as i32),  // 0.45
            jump_velocity: fp_int(-11),
            double_jump_velocity: fp_int(-9),
            fast_fall_speed: fp_int(7),
            max_projectiles: 3,
            projectile_speed: fp_int(12),  // faster projectile
            projectile_lifetime: PROJECTILE_LIFETIME,
        },
        CharacterId::Rushdown => CharacterStats {
            weight: fp_int(82),
            walk_speed: fp_int(6),
            run_speed: fp_int(10),
            air_speed: fp_int(4),
            gravity: Fp((SCALE * 60 / 100) as i32),  // 0.6
            jump_velocity: fp_int(-13),
            double_jump_velocity: fp_int(-11),
            fast_fall_speed: fp_int(10),
            max_projectiles: 1,
            projectile_speed: fp_int(10),  // fast but short range
            projectile_lifetime: 45,  // half the normal lifetime
        },
    }
}

pub fn character_stats(id: CharacterId) -> (r: CharacterStats)
    ensures
        r == spec_character_stats(id),
{
    match id {
        CharacterId::Balanced => CharacterStats {
            weight: Fp(100 * SCALE),
            walk_speed: Fp(4 * SCALE),
            run_speed: Fp(7 * SCALE),
            air_speed: Fp(3 * SCALE),
            gravity: Fp(SCALE / 2),
            jump_velocity: Fp(-12 * SCALE),
            double_jump_velocity: Fp(-10 * SCALE),
            fast_fall_speed: Fp(8 * SCALE),
            max_projectiles: 2,
            projectile_speed: Fp(PROJECTILE_SPEED),
            projectile_lifetime: PROJECTILE_LIFETIME,
        },
        CharacterId::Ranged => CharacterStats {
            weight: Fp(95 * SCALE),
            walk_speed: Fp(3 * SCALE),
            run_speed: Fp(6 * SCALE),
            air_speed: Fp(2 * SCALE),
            gravity: Fp(SCALE * 45 / 100),
            jump_velocity: Fp(-11 * SCALE),
            double_jump_velocity: Fp(-9 * SCALE),
            fast_fall_speed: Fp(7 * SCALE),
            max_projectiles: 3,
            projectile_speed: Fp(12 * SCALE),
            projectile_lifetime: PROJECTILE_LIFETIME,
        },
        CharacterId::Rushdown => CharacterStats {
            weight: Fp(82 * SCALE),
            walk_speed: Fp(6 * SCALE),
            run_speed: Fp(10 * SCALE),
            air_speed: Fp(4 * SCALE),
            gravity: Fp(SCALE * 60 / 100),
            jump_velocity: Fp(-13 * SCALE),
            double_jump_velocity: Fp(-11 * SCALE),
            fast_fall_speed: Fp(10 * SCALE),
            max_projectiles: 1,
            projectile_speed: Fp(10 * SCALE),
            projectile_lifetime: 45,
        },
    }
}

#[derive(Debug, Clone, Copy, PartialEq, Eq, Default, Hash, Structural)]
pub enum AttackType {
    #[default]
    Jab,
    ForwardTilt,
    UpTilt,
    DownTilt,
    ForwardSmash,
    UpSmash,
    DownSmash,
    DashAttack,
    NeutralAir,
    ForwardAir,
    BackAir,
    UpAir,
    DownAir,
    SideSpecial,
}

/// Frame data for an attack type
#[derive(Debug, Clone, Copy)]
pub struct AttackData {
    pub startup: u8,
    pub active: u8,
    pub recovery: u8,
    pub damage: Fp,
    pub base_kb: Fp,
    pub kb_scaling: Fp,
    pub kb_angle: i32,
    pub hitbox_w: Fp,
    pub hitbox_h: Fp,
    pub hitbox_offset_x: Fp,
    pub hitbox_offset_y: Fp,
}

/// Frame data from integer values (fixed-point fields in whole units).
pub open spec fn frame_data(
    startup: u8,
    active: u8,
    recovery: u8,
    damage: int,
    base_kb: int,
    kb_scaling: int,
    kb_angle: i32,
    hitbox_w: int,
    hitbox_h: int,
    hitbox_offset_x: int,
    hitbox_offset_y: int,
) -> AttackData {
    AttackData {
        startup,
        active,
        recovery,
        damage: Fp((damage * 65536) as i32),
        base_kb: Fp((base_kb * 65536) as i32),
        kb_scaling: Fp((kb_scaling * 65536) as i32),
        kb_angle,
        hitbox_w: Fp((hitbox_w * 65536) as i32),
        hitbox_h: Fp((hitbox_h * 65536) as i32),
        hitbox_offset_x: Fp((hitbox_offset_x * 65536) as i32),
        hitbox_offset_y: Fp((hitbox_offset_y * 65536) as i32),
    }
}

/// The frame data of each attack.
pub open spec fn spec_attack_data(attack_type: AttackType) -> AttackData {
    match attack_type {
        AttackType::Jab => frame_data(3, 3, 8, 5, 20, 50, 45, 35, 20, 20, -30),
        AttackType::ForwardTilt => frame_data(5, 4, 12, 8, 25, 60, 40, 45, 20, 20, -30),
        AttackType::UpTilt => frame_data(4, 4, 10, 7, 25, 55, 85, 35, 30, 0, -65),
        AttackType::DownTilt => frame_data(4, 3, 10, 6, 20, 50, 70, 40, 15, 15, -5),
        AttackType::ForwardSmash => frame_data(16, 3, 32, 22, 50, 100, 35, 50, 25, 25, -30),
        AttackType::UpSmash => frame_data(12, 4, 28, 18, 45, 95, 90, 40, 40, 0, -70),
        AttackType::DownSmash => frame_data(10, 4, 28, 20, 42, 90, 30, 55, 15, 10, -5),
        AttackType::DashAttack => frame_data(5, 4, 14, 10, 30, 65, 50, 50, 25, 20, -30),
        AttackType::NeutralAir => frame_data(4, 6, 10, 8, 20, 50, 50, 40, 40, 0, -30),
        AttackType::ForwardAir => frame_data(5, 4, 12, 10, 25, 65, 40, 45, 20, 20, -30),
        AttackType::BackAir => frame_data(6, 3, 14, 12, 30, 70, 35, 40, 20, 20, -30),
        AttackType::UpAir => frame_data(4, 5, 10, 9, 22, 55, 85, 35, 30, 0, -65),
        // meteor smash — straight down
        AttackType::DownAir => frame_data(10, 3, 18, 14, 40, 90, 270, 30, 30, 0, 0),
        AttackType::SideSpecial => frame_data(6, 5, 16, 12, 35, 80, 45, 40, 25, 35, 0),
    }
}

/// Frame data built from whole-unit values.
fn data(
    startup: u8,
    active: u8,
    recovery: u8,
    damage: i32,
    base_kb: i32,
    kb_scaling: i32,
    kb_angle: i32,
    hitbox_w: i32,
    hitbox_h: i32,
    hitbox_offset_x: i32,
    hitbox_offset_y: i32,
) -> (r: AttackData)
    requires
        0 <= damage <= 100,
        0 <= base_kb <= 100,
        0 <= kb_scaling <= 100,
        0 <= hitbox_w <= 100,
        0 <= hitbox_h <= 100,
        -100 <= hitbox_offset_x <= 100,
        -100 <= hitbox_offset_y <= 100,
    ensures
        r == frame_data(
            startup,
            active,
            recovery,
            damage as int,
            base_kb as int,
            kb_scaling as int,
            kb_angle,
            hitbox_w as int,
            hitbox_h as int,
            hitbox_offset_x as int,
            hitbox_offset_y as int,
        ),
{
    AttackData {
        startup,
        active,
        recovery,
        damage: Fp::from_int(damage),
        base_kb: Fp::from_int(base_kb),
        kb_scaling: Fp::from_int(kb_scaling),
        kb_angle,
        hitbox_w: Fp::from_int(hitbox_w),
        hitbox_h: Fp::from_int(hitbox_h),
        hitbox_offset_x: Fp::from_int(hitbox_offset_x),
        hitbox_offset_y: Fp::from_int(hitbox_offset_y),
    }
}

pub fn attack_data(attack_type: AttackType) -> (r: AttackData)
    ensures
        r == spec_attack_data(attack_type),
{
    match attack_type {
        AttackType::Jab => data(JAB_STARTUP, JAB_ACTIVE, JAB_RECOVERY, 5, 20, 50, JAB_KB_ANGLE, 35, 20, 20, -30),
        AttackType::ForwardTilt => data(5, 4, 12, 8, 25, 60, 40, 45, 20, 20, -30),
        AttackType::UpTilt => data(4, 4, 10, 7, 25, 55, 85, 35, 30, 0, -65),
        AttackType::DownTilt => data(4, 3, 10, 6, 20, 50, 70, 40, 15, 15, -5),
        AttackType::ForwardSmash => data(16, 3, 32, 22, 50, 100, 35, 50, 25, 25, -30),
        AttackType::UpSmash => data(12, 4, 28, 18, 45, 95, 90, 40, 40, 0, -70),
        AttackType::DownSmash => data(10, 4, 28, 20, 42, 90, 30, 55, 15, 10, -5),
        AttackType::DashAttack => data(5, 4, 14, 10, 30, 65, 50, 50, 25, 20, -30),
        AttackType::NeutralAir => data(4, 6, 10, 8, 20, 50, 50, 40, 40, 0, -30),
        AttackType::ForwardAir => data(5, 4, 12, 10, 25, 65, 40, 45, 20, 20, -30),
        AttackType::BackAir => data(6, 3, 14, 12, 30, 70, 35, 40, 20, 20, -30),
        AttackType::UpAir => data(4, 5, 10, 9, 22, 55, 85, 35, 30, 0, -65),
        // meteor smash — straight down
        AttackType::DownAir => data(10, 3, 18, 14, 40, 90, 270, 30, 30, 0, 0),
        AttackType::SideSpecial => data(6, 5, 16, 12, 35, 80, 45, 40, 25, 35, 0),
    }
}

#[derive(Debug, Clone, Copy, PartialEq, Eq, Hash, Structural)]
pub enum ActionState {
    Idle,
    AttackStartup { frames_left: u8 },
    AttackActive { frames_left: u8 },
    AttackRecovery { frames_left: u8 },
    Shielding,
    ShieldStun { frames_left: u8 },
    Grabbing { frames_left: u8 },
    Hitstun { frames_left: u8 },
    SpotDodge { frames_left: u8 },
    Rolling { frames_left: u8, direction: i8 },  // direction: 1 = right, -1 = left
    AirDodge { frames_left: u8 },
    LedgeHang,
    SpecialMove { frames_left: u8 },
    Counter { frames_left: u8 },
    Freefall,
}

#[derive(Debug, Clone, Copy, PartialEq, Eq, Hash, Structural)]
pub struct Projectile {
    pub active: bool,
    pub owner: u8,
    pub position_x: Fp,
    pub position_y: Fp,
    pub velocity_x: Fp,
    pub lifetime: u8,
}

#[derive(Debug, Clone, Copy, PartialEq, Eq, Hash, Structural)]
pub struct PlayerState {
    pub position_x: Fp,
    pub position_y: Fp,
    pub velocity_x: Fp,
    pub velocity_y: Fp,
    pub damage_percent: u32,
    pub stocks: u8,
    pub invincibility_frames: u8,
    pub facing_right: bool,
    pub grounded: bool,
    pub jumps_remaining: u8,
    pub jump_held: bool,
    pub attack_held: bool,
    pub special_held: bool,
    pub grab_held: bool,
    pub action: ActionState,
    pub shield_hp: u16,
    pub hit_this_attack: bool,  // prevent multi-hit per attack
    pub shield_held: bool,
    pub current_attack: AttackType,
    pub has_ledge_grab: bool,  // true = already used ledge grab this airborne state
    pub has_up_special: bool,  // true = already used up-B this airborne state
    pub is_running: bool,
    pub run_frames: u8,  // how many consecutive frames direction held
    pub is_crouching: bool,
    pub drop_through_frames: u8,
    pub drop_through_active: bool,  // temporarily ignore ground collision
    pub character: CharacterId,
}

#[derive(Debug, Clone, Copy, PartialEq, Eq, Hash)]
pub struct GameState {
    pub players: [PlayerState; MAX_PLAYERS],
    pub projectiles: [Projectile; MAX_PROJECTILES],
    pub frame: u32,
    pub match_over: bool,
    pub winner: Option<u8>,
}

/// A fresh player standing on the ground.
pub open spec fn spec_new_player(position_x: Fp, facing_right: bool) -> PlayerState {
    PlayerState {
        position_x,
        position_y: Fp(GROUND_Y),
        velocity_x: Fp(0),
        velocity_y: Fp(0),
        damage_percent: 0,
        stocks: STARTING_STOCKS,
        invincibility_frames: 0,
        facing_right,
        grounded: true,
        jumps_remaining: MAX_JUMPS,
        jump_held: false,
        attack_held: false,
        special_held: false,
        grab_held: false,
        action: ActionState::Idle,
        shield_hp: SHIELD_MAX_HP,
        hit_this_attack: false,
        shield_held: false,
        current_attack: AttackType::Jab,
        has_ledge_grab: false,
        has_up_special: false,
        is_running: false,
        run_frames: 0,
        is_crouching: false,
        drop_through_frames: 0,
        drop_through_active: false,
        character: CharacterId::Balanced,
    }
}

/// An unused projectile slot.
pub open spec fn spec_new_projectile() -> Projectile {
    Projectile {
        active: false,
        owner: 0,
        position_x: Fp(0),
        position_y: Fp(0),
        velocity_x: Fp(0),
        lifetime: 0,
    }
}

/// The state at the start of a match: both players on the ground, 200 units
/// either side of the center, facing each other.
pub open spec fn spec_default_state() -> GameState {
    GameState {
        players: [
            spec_new_player(Fp((STAGE_CENTER_X - SPAWN_OFFSET_X) as i32), true),
            spec_new_player(Fp((STAGE_CENTER_X + SPAWN_OFFSET_X) as i32), false),
        ],
        projectiles: [spec_new_projectile(); MAX_PROJECTILES],
        frame: 0,
        match_over: false,
        winner: None,
    }
}

fn new_player(position_x: Fp, facing_right: bool) -> (r: PlayerState)
    ensures
        r == spec_new_player(position_x, facing_right),
{
    PlayerState {
        position_x,
        position_y: Fp(GROUND_Y),
        velocity_x: Fp::zero(),
        velocity_y: Fp::zero(),
        damage_percent: 0,
        stocks: STARTING_STOCKS,
        invincibility_frames: 0,
        facing_right,
        grounded: true,
        jumps_remaining: MAX_JUMPS,
        jump_held: false,
        attack_held: false,
        special_held: false,
        grab_held: false,
        action: ActionState::Idle,
        shield_hp: SHIELD_MAX_HP,
        hit_this_attack: false,
        shield_held: false,
        current_attack: AttackType::Jab,
        has_ledge_grab: false,
        has_up_special: false,
        is_running: false,
        is_crouching: false,
        drop_through_frames: 0,
        drop_through_active: false,
        run_frames: 0,
        character: CharacterId::Balanced,
    }
}

fn new_projectile() -> (r: Projectile)
    ensures
        r == spec_new_projectile(),
{
    Projectile {
        active: false,
        owner: 0,
        position_x: Fp::zero(),
        position_y: Fp::zero(),
        velocity_x: Fp::zero(),
        lifetime: 0,
    }
}

pub fn default_state() -> (r: GameState)
    ensures
        r == spec_default_state(),
{
    let p = new_projectile();
    let r = GameState {
        players: [
            new_player(Fp(STAGE_CENTER_X - SPAWN_OFFSET_X), true),
            new_player(Fp(STAGE_CENTER_X + SPAWN_OFFSET_X), false),
        ],
        projectiles: [p, p, p, p, p, p],
        frame: 0,
        match_over: false,
        winner: None,
    };
    proof {
        broadcast use vstd::array::group_array_axioms;

        assert(r.projectiles =~= spec_default_state().projectiles);
        assert(r.players =~= spec_default_state().players);
    }
    r
}

/// The state a match starts from: the default state with the characters
/// the two players picked.
pub open spec fn spec_match_start(p1: CharacterId, p2: CharacterId) -> GameState {
    let d = spec_default_state();
    GameState {
        players: [
            PlayerState { character: p1, ..d.players[0] },
            PlayerState { character: p2, ..d.players[1] },
        ],
        ..d
    }
}

/// The state a match starts from, with the picked characters; it is
/// within the bounds the simulation keeps.
pub fn match_start_state(p1: CharacterId, p2: CharacterId) -> (r: GameState)
    ensures
        r == spec_match_start(p1, p2),
        state_bounded(r),
        !r.match_over,
{
    let mut game = default_state();
    game.players[0].character = p1;
    game.players[1].character = p2;
    proof {
        assert(game.players =~= spec_match_start(p1, p2).players);
    }
    game
}

/// The player's hurtbox: `PLAYER_WIDTH` wide and `PLAYER_HEIGHT` tall,
/// centered on `position_x` with its bottom at `position_y`.
pub open spec fn spec_player_hurtbox(player: PlayerState) -> Rect {
    Rect {
        x: Fp((player.position_x.0 - PLAYER_WIDTH / 2) as i32),
        y: Fp((player.position_y.0 - PLAYER_HEIGHT) as i32),
        w: Fp(PLAYER_WIDTH),
        h: Fp(PLAYER_HEIGHT),
    }
}

pub fn player_hurtbox(player: &PlayerState) -> (r: Rect)
    requires
        player.position_x.0 >= i32::MIN + PLAYER_WIDTH / 2,
        player.position_y.0 >= i32::MIN + PLAYER_HEIGHT,
    ensures
        r == spec_player_hurtbox(*player),
{
    Rect {
        x: player.position_x.minus(Fp(PLAYER_WIDTH).divided_by(Fp::from_int(2))),
        y: player.position_y.minus(Fp(PLAYER_HEIGHT)),
        w: Fp(PLAYER_WIDTH),
        h: Fp(PLAYER_HEIGHT),
    }
}

/// The most damage a player can take in one frame: a hit from each melee
/// check and one from each projectile slot.
pub const MAX_FRAME_DAMAGE: u32 = 8 * MAX_HIT_DAMAGE;

/// A state a frame can be computed from without overflow: players and
/// projectiles within their bounds, damage at most `DAMAGE_LIMIT`, and the
/// frame counter below its maximum while the match runs.
pub open spec fn frame_ready(s: GameState) -> bool {
    &&& state_bounded(s)
    &&& s.players[0].damage_percent <= DAMAGE_LIMIT
    &&& s.players[1].damage_percent <= DAMAGE_LIMIT
    &&& !s.match_over ==> s.frame < u32::MAX
}

/// One frame of the game. Nothing happens once the match is over.
/// Otherwise, in order: each player's own update (timers, actions, inputs,
/// movement, physics, blast zones, landing); one player per ledge (a fresh
/// grab forces the other player off); specials and projectile spawns,
/// player 0 first; projectile flight; melee hits and grabs, judged on the
/// players as they stand after the spawns; projectile hits in slot order;
/// the end of the match; and the frame counter.
#[verifier::opaque]
pub open spec fn spec_advance_frame(s: GameState, inputs: [PlayerInput; MAX_PLAYERS]) -> GameState {
    if s.match_over {
        s
    } else {
        let s1 = GameState {
            players: spec_one_per_ledge(
                s.players,
                [
                    spec_update_player(s.players[0], inputs[0]),
                    spec_update_player(s.players[1], inputs[1]),
                ],
            ),
            ..s
        };
        let s2 = spec_special(spec_special(s1, 0, inputs[0]), 1, inputs[1]);
        let s3 = GameState { projectiles: spec_tick_all(s2.projectiles), ..s2 };
        let s4 = GameState { players: spec_melee(s3.players, inputs), ..s3 };
        let s5 = spec_proj_hits_upto(s4, MAX_PROJECTILES as int, inputs);
        let s6 = spec_match_end(s5);
        GameState { frame: (s6.frame + 1) as u32, ..s6 }
    }
}

/// Advance the game by one frame with both players' inputs.
pub fn advance_frame(state: &mut GameState, inputs: [PlayerInput; MAX_PLAYERS])
    requires
        old(state).match_over || frame_ready(*old(state)),
    ensures
        *final(state) == spec_advance_frame(*old(state), inputs),
        frame_ready(*old(state)) ==> state_bounded(*final(state)),
        final(state).players[0].damage_percent <= old(state).players[0].damage_percent
            + MAX_FRAME_DAMAGE,
        final(state).players[1].damage_percent <= old(state).players[1].damage_percent
            + MAX_FRAME_DAMAGE,
        old(state).match_over ==> *final(state) == *old(state),
        !old(state).match_over ==> final(state).frame == old(state).frame + 1,
        final(state).players[0].stocks <= old(state).players[0].stocks,
        final(state).players[1].stocks <= old(state).players[1].stocks,
        old(state).match_over ==> final(state).match_over,
        !old(state).match_over ==> (final(state).match_over <==> (final(state).players[0].stocks
            == 0 || final(state).players[1].stocks == 0)),
        !old(state).match_over && final(state).match_over && final(state).players[1].stocks > 0
            ==> final(state).winner == Some(1u8),
        !old(state).match_over && final(state).match_over && final(state).players[0].stocks > 0
            && final(state).players[1].stocks == 0 ==> final(state).winner == Some(0u8),
        final(state).players[0].stocks < old(state).players[0].stocks && final(state).players[0].stocks
            > 0 ==> final(state).players[0].damage_percent == 0,
        final(state).players[1].stocks < old(state).players[1].stocks && final(state).players[1].stocks
            > 0 ==> final(state).players[1].damage_percent == 0,
{
    reveal(spec_advance_frame);
    if state.match_over {
        return;
    }
    let s0 = *state;

    // Phase 1: process each player's input and state transitions
    proof {
        lemma_update_player_damage(s0.players[0], inputs[0]);
        lemma_update_player_damage(s0.players[1], inputs[1]);
    }
    let updated = [update_player(s0.players[0], inputs[0]), update_player(s0.players[1], inputs[1])];
    // One player per ledge: a fresh grab forces the other player off
    let s1 = GameState { players: one_per_ledge(&s0.players, updated), ..s0 };

    // Phase 2: specials and projectile spawns
    let s2 = special(s1, 0, inputs[0]);
    let s2 = special(s2, 1, inputs[1]);

    // Phase 3: projectile flight
    let s3 = GameState { projectiles: tick_projectiles(s2.projectiles), ..s2 };

    // Phase 4: melee hit detection, on the players as they stand now
    let s4 = GameState { players: melee(s3.players, inputs), ..s3 };

    // Phase 5: projectile hit detection
    let s5 = projectile_hits(s4, inputs);

    // Phase 6: check for match end
    let s6 = match_end(s5);

    *state = GameState { frame: s6.frame + 1, ..s6 };
}

/// Whether a frame can be computed from this state (see `frame_ready`).
pub fn is_frame_ready(s: &GameState) -> (r: bool)
    ensures
        r == frame_ready(*s),
{
    is_state_bounded(s) && s.players[0].damage_percent <= DAMAGE_LIMIT
        && s.players[1].damage_percent <= DAMAGE_LIMIT && (s.match_over || s.frame < u32::MAX)
}


/// The game state as the melee phase of a frame finds it: both players
/// updated with one player per ledge, specials and projectile spawns, and
/// projectile flight.
pub open spec fn spec_before_melee(s: GameState, inputs: [PlayerInput; MAX_PLAYERS]) -> GameState {
    let s1 = GameState {
        players: spec_one_per_ledge(
            s.players,
            [
                spec_update_player(s.players[0], inputs[0]),
                spec_update_player(s.players[1], inputs[1]),
            ],
        ),
        ..s
    };
    let s2 = spec_special(spec_special(s1, 0, inputs[0]), 1, inputs[1]);
    GameState { projectiles: spec_tick_all(s2.projectiles), ..s2 }
}

/// Projectile slots that are all spent strike nobody.
proof fn lemma_spent_projectiles_strike_nobody(s: GameState, n: int, inputs: [PlayerInput; MAX_PLAYERS])
    requires
        forall|k: int| 0 <= k < MAX_PROJECTILES ==> !(#[trigger] s.projectiles[k]).active,
        n <= MAX_PROJECTILES,
    ensures
        spec_proj_hits_upto(s, n, inputs) == s,
    decreases n,
{
    if n > 0 {
        lemma_spent_projectiles_strike_nobody(s, n - 1, inputs);
        assert(!s.projectiles[n - 1].active);
    }
}

/// Shield beats attack: when, as the melee phase finds them, a shielding
/// player who can be hit is struck by the other player's active attack and
/// no projectile is in flight, the frame does that player no damage; the
/// shield loses `SHIELD_DEPLETE_PER_HIT`, or, with no more than that left,
/// breaks into `SHIELD_BREAK_STUN` frames of stun.
pub proof fn lemma_frame_shield_beats_attack(s: GameState, inputs: [PlayerInput; MAX_PLAYERS], d: int)
    requires
        !s.match_over,
        0 <= d < 2,
        spec_before_melee(s, inputs).players[d].action is Shielding,
        melee_applies(spec_before_melee(s, inputs).players[1 - d], spec_before_melee(s, inputs).players[d]),
        attack_connects(spec_before_melee(s, inputs).players[1 - d], spec_before_melee(s, inputs).players[d]),
        forall|k: int|
            0 <= k < MAX_PROJECTILES ==> !(#[trigger] spec_before_melee(s, inputs).projectiles[k]).active,
    ensures
        shield_took_hit(
            spec_advance_frame(s, inputs).players[d],
            spec_before_melee(s, inputs).players[d],
        ),
{
    broadcast use vstd::array::group_array_axioms;

    reveal(spec_advance_frame);
    reveal(spec_grab_step);
    let m = spec_before_melee(s, inputs);
    let ps = m.players;
    let a = 1 - d;
    // The shielding player neither attacks nor grabs.
    assert(!attack_connects(ps[d], ps[a]));
    assert(spec_attack_step(ps, ps, d, inputs) == ps);
    assert(spec_grab_step(ps, ps, d, inputs) == ps);
    assert(spec_melee_for(ps, ps, d, inputs) == ps);
    // The attack lands on the shield, and the attacker grabs nothing.
    lemma_shield_absorbs_attack(ps, ps[a], a, inputs);
    let hit = spec_attack_step(ps, ps, a, inputs);
    assert(spec_grab_step(hit, ps, a, inputs) == hit);
    assert(spec_melee_for(ps, ps, a, inputs) == hit);
    let qs = spec_melee(ps, inputs);
    if d == 0 {
        assert(qs == hit);
    } else {
        assert(!attack_connects(ps[1], ps[0]));
        assert(spec_attack_step(hit, ps, 1, inputs) == hit);
        assert(spec_grab_step(hit, ps, 1, inputs) == hit);
        assert(qs == hit);
    }
    let s4 = GameState { players: qs, ..m };
    lemma_spent_projectiles_strike_nobody(s4, MAX_PROJECTILES as int, inputs);
    assert(spec_match_end(s4).players == qs);
}

} // verus!
