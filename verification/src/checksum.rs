//! Checksums of game states for desync detection. The state is hashed as
//! the byte stream that the types' derived `Hash` feeds a hasher: every
//! field in declaration order, integers little-endian, each enum led by
//! the index of its variant and each array by its length (both as machine
//! words), hashed with std's `DefaultHasher`.
use vstd::prelude::*;

use std::collections::hash_map::DefaultHasher;
use std::hash::Hasher;
use vstd::bytes::{
    spec_u16_to_le_bytes, spec_u32_to_le_bytes, spec_u64_to_le_bytes, u16_to_le_bytes,
    u32_to_le_bytes, u64_to_le_bytes,
};
use vstd::std_specs::hash::DefaultHasherAdditionalSpecFns;

use crate::fixed::Fp;
use crate::state::{ActionState, AttackType, CharacterId, GameState, PlayerState, Projectile};

verus! {

/// A machine word (`usize` or `isize`), little-endian.
pub open spec fn word_bytes(v: u64) -> Seq<u8> {
    if usize::BITS == 64 {
        spec_u64_to_le_bytes(v)
    } else {
        spec_u32_to_le_bytes(v as u32)
    }
}

pub open spec fn bool_byte(b: bool) -> u8 {
    if b {
        1
    } else {
        0
    }
}

/// A fixed-point number: its 32-bit pattern, little-endian.
pub open spec fn fp_bytes(x: Fp) -> Seq<u8> {
    spec_u32_to_le_bytes(x.0 as u32)
}

/// Which action, by its position in the declaration.
pub open spec fn action_tag(a: ActionState) -> u64 {
    match a {
        ActionState::Idle => 0,
        ActionState::AttackStartup { .. } => 1,
        ActionState::AttackActive { .. } => 2,
        ActionState::AttackRecovery { .. } => 3,
        ActionState::Shielding => 4,
        ActionState::ShieldStun { .. } => 5,
        ActionState::Grabbing { .. } => 6,
        ActionState::Hitstun { .. } => 7,
        ActionState::SpotDodge { .. } => 8,
        ActionState::Rolling { .. } => 9,
        ActionState::AirDodge { .. } => 10,
        ActionState::LedgeHang => 11,
        ActionState::SpecialMove { .. } => 12,
        ActionState::Counter { .. } => 13,
        ActionState::Freefall => 14,
    }
}

/// The fields of an action, after its tag.
pub open spec fn action_fields(a: ActionState) -> Seq<u8> {
    match a {
        ActionState::AttackStartup { frames_left } => seq![frames_left],
        ActionState::AttackActive { frames_left } => seq![frames_left],
        ActionState::AttackRecovery { frames_left } => seq![frames_left],
        ActionState::ShieldStun { frames_left } => seq![frames_left],
        ActionState::Grabbing { frames_left } => seq![frames_left],
        ActionState::Hitstun { frames_left } => seq![frames_left],
        ActionState::SpotDodge { frames_left } => seq![frames_left],
        ActionState::Rolling { frames_left, direction } => seq![frames_left, direction as u8],
        ActionState::AirDodge { frames_left } => seq![frames_left],
        ActionState::SpecialMove { frames_left } => seq![frames_left],
        ActionState::Counter { frames_left } => seq![frames_left],
        _ => Seq::empty(),
    }
}

pub open spec fn action_bytes(a: ActionState) -> Seq<u8> {
    word_bytes(action_tag(a)) + action_fields(a)
}

pub open spec fn attack_tag(a: AttackType) -> u64 {
    match a {
        AttackType::Jab => 0,
        AttackType::ForwardTilt => 1,
        AttackType::UpTilt => 2,
        AttackType::DownTilt => 3,
        AttackType::ForwardSmash => 4,
        AttackType::UpSmash => 5,
        AttackType::DownSmash => 6,
        AttackType::DashAttack => 7,
        AttackType::NeutralAir => 8,
        AttackType::ForwardAir => 9,
        AttackType::BackAir => 10,
        AttackType::UpAir => 11,
        AttackType::DownAir => 12,
        AttackType::SideSpecial => 13,
    }
}

pub open spec fn character_tag(c: CharacterId) -> u64 {
    match c {
        CharacterId::Balanced => 0,
        CharacterId::Ranged => 1,
        CharacterId::Rushdown => 2,
    }
}

/// Position, velocity, damage, stocks and invincibility of a player.
pub open spec fn body_bytes(p: PlayerState) -> Seq<u8> {
    fp_bytes(p.position_x) + fp_bytes(p.position_y) + fp_bytes(p.velocity_x) + fp_bytes(
        p.velocity_y,
    ) + spec_u32_to_le_bytes(p.damage_percent) + seq![p.stocks, p.invincibility_frames]
}

/// Facing, ground contact, jumps and held buttons of a player.
pub open spec fn flag_bytes(p: PlayerState) -> Seq<u8> {
    seq![
        bool_byte(p.facing_right),
        bool_byte(p.grounded),
        p.jumps_remaining,
        bool_byte(p.jump_held),
        bool_byte(p.attack_held),
        bool_byte(p.special_held),
        bool_byte(p.grab_held),
    ]
}

/// Action, shield and attack of a player.
pub open spec fn action_state_bytes(p: PlayerState) -> Seq<u8> {
    action_bytes(p.action) + spec_u16_to_le_bytes(p.shield_hp) + seq![
        bool_byte(p.hit_this_attack),
        bool_byte(p.shield_held),
    ] + word_bytes(attack_tag(p.current_attack))
}

/// Recovery, running, crouching and character of a player.
pub open spec fn misc_bytes(p: PlayerState) -> Seq<u8> {
    seq![
        bool_byte(p.has_ledge_grab),
        bool_byte(p.has_up_special),
        bool_byte(p.is_running),
        p.run_frames,
        bool_byte(p.is_crouching),
        p.drop_through_frames,
        bool_byte(p.drop_through_active),
    ] + word_bytes(character_tag(p.character))
}

/// Every field of a player, in declaration order.
pub open spec fn player_bytes(p: PlayerState) -> Seq<u8> {
    body_bytes(p) + flag_bytes(p) + action_state_bytes(p) + misc_bytes(p)
}

/// Every field of a projectile slot, in declaration order.
pub open spec fn projectile_bytes(p: Projectile) -> Seq<u8> {
    seq![bool_byte(p.active), p.owner] + fp_bytes(p.position_x) + fp_bytes(p.position_y)
        + fp_bytes(p.velocity_x) + seq![p.lifetime]
}

/// The first `n` projectile slots.
pub open spec fn projectile_bytes_upto(ps: [Projectile; 6], n: int) -> Seq<u8>
    decreases n,
{
    if n <= 0 {
        Seq::empty()
    } else {
        projectile_bytes_upto(ps, n - 1) + projectile_bytes(ps[n - 1])
    }
}

/// The frame, whether the match is over, and the winner (the variant's
/// index, then the player's).
pub open spec fn match_bytes(s: GameState) -> Seq<u8> {
    spec_u32_to_le_bytes(s.frame) + seq![bool_byte(s.match_over)] + match s.winner {
        Some(w) => word_bytes(1) + seq![w],
        None => word_bytes(0),
    }
}

/// Every field of a game state: both players and the projectile slots,
/// each array after its length, then the match fields.
pub open spec fn state_bytes(s: GameState) -> Seq<u8> {
    word_bytes(2) + player_bytes(s.players[0]) + player_bytes(s.players[1]) + word_bytes(6)
        + projectile_bytes_upto(s.projectiles, 6) + match_bytes(s)
}

/// The checksum of a state.
pub open spec fn spec_state_checksum(s: GameState) -> u64 {
    DefaultHasher::spec_finish(seq![state_bytes(s)])
}

fn byte_of(b: bool) -> (r: u8)
    ensures
        r == bool_byte(b),
{
    if b {
        1
    } else {
        0
    }
}

/// Append a machine word.
fn push_word(bytes: &mut Vec<u8>, v: u64)
    requires
        v <= u32::MAX,
    ensures
        final(bytes)@ == old(bytes)@ + word_bytes(v),
{
    let mut w = if usize::BITS == 64 {
        u64_to_le_bytes(v)
    } else {
        u32_to_le_bytes(v as u32)
    };
    bytes.append(&mut w);
}

fn push_u32(bytes: &mut Vec<u8>, v: u32)
    ensures
        final(bytes)@ == old(bytes)@ + spec_u32_to_le_bytes(v),
{
    let mut w = u32_to_le_bytes(v);
    bytes.append(&mut w);
}

fn push_fp(bytes: &mut Vec<u8>, x: Fp)
    ensures
        final(bytes)@ == old(bytes)@ + fp_bytes(x),
{
    push_u32(bytes, x.0 as u32);
}

fn push_action(bytes: &mut Vec<u8>, a: ActionState)
    ensures
        final(bytes)@ == old(bytes)@ + action_bytes(a),
{
    let tag: u64 = match a {
        ActionState::Idle => 0,
        ActionState::AttackStartup { .. } => 1,
        ActionState::AttackActive { .. } => 2,
        ActionState::AttackRecovery { .. } => 3,
        ActionState::Shielding => 4,
        ActionState::ShieldStun { .. } => 5,
        ActionState::Grabbing { .. } => 6,
        ActionState::Hitstun { .. } => 7,
        ActionState::SpotDodge { .. } => 8,
        ActionState::Rolling { .. } => 9,
        ActionState::AirDodge { .. } => 10,
        ActionState::LedgeHang => 11,
        ActionState::SpecialMove { .. } => 12,
        ActionState::Counter { .. } => 13,
        ActionState::Freefall => 14,
    };
    push_word(bytes, tag);
    let ghost mid = bytes@;
    match a {
        ActionState::AttackStartup { frames_left } => bytes.push(frames_left),
        ActionState::AttackActive { frames_left } => bytes.push(frames_left),
        ActionState::AttackRecovery { frames_left } => bytes.push(frames_left),
        ActionState::ShieldStun { frames_left } => bytes.push(frames_left),
        ActionState::Grabbing { frames_left } => bytes.push(frames_left),
        ActionState::Hitstun { frames_left } => bytes.push(frames_left),
        ActionState::SpotDodge { frames_left } => bytes.push(frames_left),
        ActionState::Rolling { frames_left, direction } => {
            bytes.push(frames_left);
            bytes.push(direction as u8);
        },
        ActionState::AirDodge { frames_left } => bytes.push(frames_left),
        ActionState::SpecialMove { frames_left } => bytes.push(frames_left),
        ActionState::Counter { frames_left } => bytes.push(frames_left),
        _ => {},
    }
    assert(bytes@ =~= mid + action_fields(a));
}

fn attack_index(a: AttackType) -> (r: u64)
    ensures
        r == attack_tag(a),
{
    match a {
        AttackType::Jab => 0,
        AttackType::ForwardTilt => 1,
        AttackType::UpTilt => 2,
        AttackType::DownTilt => 3,
        AttackType::ForwardSmash => 4,
        AttackType::UpSmash => 5,
        AttackType::DownSmash => 6,
        AttackType::DashAttack => 7,
        AttackType::NeutralAir => 8,
        AttackType::ForwardAir => 9,
        AttackType::BackAir => 10,
        AttackType::UpAir => 11,
        AttackType::DownAir => 12,
        AttackType::SideSpecial => 13,
    }
}

fn character_index(c: CharacterId) -> (r: u64)
    ensures
        r == character_tag(c),
{
    match c {
        CharacterId::Balanced => 0,
        CharacterId::Ranged => 1,
        CharacterId::Rushdown => 2,
    }
}

fn push_body(bytes: &mut Vec<u8>, p: &PlayerState)
    ensures
        final(bytes)@ == old(bytes)@ + body_bytes(*p),
{
    push_fp(bytes, p.position_x);
    push_fp(bytes, p.position_y);
    push_fp(bytes, p.velocity_x);
    push_fp(bytes, p.velocity_y);
    push_u32(bytes, p.damage_percent);
    bytes.push(p.stocks);
    bytes.push(p.invincibility_frames);
    assert(bytes@ =~= old(bytes)@ + body_bytes(*p));
}

fn push_flags(bytes: &mut Vec<u8>, p: &PlayerState)
    ensures
        final(bytes)@ == old(bytes)@ + flag_bytes(*p),
{
    bytes.push(byte_of(p.facing_right));
    bytes.push(byte_of(p.grounded));
    bytes.push(p.jumps_remaining);
    bytes.push(byte_of(p.jump_held));
    bytes.push(byte_of(p.attack_held));
    bytes.push(byte_of(p.special_held));
    bytes.push(byte_of(p.grab_held));
    assert(bytes@ =~= old(bytes)@ + flag_bytes(*p));
}

fn push_action_state(bytes: &mut Vec<u8>, p: &PlayerState)
    ensures
        final(bytes)@ == old(bytes)@ + action_state_bytes(*p),
{
    push_action(bytes, p.action);
    let mut hp = u16_to_le_bytes(p.shield_hp);
    bytes.append(&mut hp);
    bytes.push(byte_of(p.hit_this_attack));
    bytes.push(byte_of(p.shield_held));
    push_word(bytes, attack_index(p.current_attack));
    assert(bytes@ =~= old(bytes)@ + action_state_bytes(*p));
}

fn push_misc(bytes: &mut Vec<u8>, p: &PlayerState)
    ensures
        final(bytes)@ == old(bytes)@ + misc_bytes(*p),
{
    bytes.push(byte_of(p.has_ledge_grab));
    bytes.push(byte_of(p.has_up_special));
    bytes.push(byte_of(p.is_running));
    bytes.push(p.run_frames);
    bytes.push(byte_of(p.is_crouching));
    bytes.push(p.drop_through_frames);
    bytes.push(byte_of(p.drop_through_active));
    push_word(bytes, character_index(p.character));
    assert(bytes@ =~= old(bytes)@ + misc_bytes(*p));
}

fn push_player(bytes: &mut Vec<u8>, p: &PlayerState)
    ensures
        final(bytes)@ == old(bytes)@ + player_bytes(*p),
{
    push_body(bytes, p);
    push_flags(bytes, p);
    push_action_state(bytes, p);
    push_misc(bytes, p);
    assert(bytes@ =~= old(bytes)@ + player_bytes(*p));
}

fn push_projectile(bytes: &mut Vec<u8>, p: &Projectile)
    ensures
        final(bytes)@ == old(bytes)@ + projectile_bytes(*p),
{
    bytes.push(byte_of(p.active));
    bytes.push(p.owner);
    push_fp(bytes, p.position_x);
    push_fp(bytes, p.position_y);
    push_fp(bytes, p.velocity_x);
    bytes.push(p.lifetime);
    assert(bytes@ =~= old(bytes)@ + projectile_bytes(*p));
}

fn push_projectiles(bytes: &mut Vec<u8>, projectiles: &[Projectile; 6])
    ensures
        final(bytes)@ == old(bytes)@ + projectile_bytes_upto(*projectiles, 6),
{
    let mut k: usize = 0;
    while k < 6
        invariant
            k <= 6,
            bytes@ == old(bytes)@ + projectile_bytes_upto(*projectiles, k as int),
        decreases 6 - k,
    {
        push_projectile(bytes, &projectiles[k]);
        proof {
            assert(bytes@ =~= old(bytes)@ + projectile_bytes_upto(*projectiles, k + 1));
        }
        k += 1;
    }
}

fn push_match(bytes: &mut Vec<u8>, state: &GameState)
    ensures
        final(bytes)@ == old(bytes)@ + match_bytes(*state),
{
    push_u32(bytes, state.frame);
    bytes.push(byte_of(state.match_over));
    match state.winner {
        Some(w) => {
            push_word(bytes, 1);
            bytes.push(w);
        },
        None => push_word(bytes, 0),
    }
    assert(bytes@ =~= old(bytes)@ + match_bytes(*state));
}

/// The bytes of a state, in order.
fn encode_state(state: &GameState) -> (r: Vec<u8>)
    ensures
        r@ == state_bytes(*state),
{
    let mut bytes: Vec<u8> = Vec::new();
    push_word(&mut bytes, 2);
    push_player(&mut bytes, &state.players[0]);
    push_player(&mut bytes, &state.players[1]);
    push_word(&mut bytes, 6);
    push_projectiles(&mut bytes, &state.projectiles);
    push_match(&mut bytes, state);
    assert(bytes@ =~= state_bytes(*state));
    bytes
}

/// Compute a checksum of the full game state for desync detection.
pub fn state_checksum(state: &GameState) -> (r: u64)
    ensures
        r == spec_state_checksum(*state),
{
    let bytes = encode_state(state);
    let mut hasher = DefaultHasher::new();
    hasher.write(bytes.as_slice());
    proof {
        assert(hasher@ =~= seq![bytes@]);
    }
    hasher.finish()
}

} // verus!
