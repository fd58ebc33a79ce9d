use ejkore::combat::{apply_di, calculate_knockback, cos_deg, sin_deg, HitData, Rect};
use ejkore::fixed::Fp;
use ejkore::state::{
    advance_frame, character_stats, default_state, is_frame_ready, match_start_state,
    player_hurtbox, ActionState, CharacterId, PlayerInput, BLAST_BOTTOM, GROUND_Y, STAGE_RIGHT,
    STARTING_STOCKS,
};

fn hit(base: i32, scaling: i32, damage: i32, angle: i32) -> HitData {
    HitData {
        base_knockback: Fp::from_int(base),
        knockback_scaling: Fp::from_int(scaling),
        knockback_angle: angle,
        damage: Fp::from_int(damage),
    }
}

#[test]
fn knockback_exact_value() {
    // 2 + (0 + 5) * 1 / 100 * (200 / (100 + 100)), in 16.16 fixed point
    let kb = calculate_knockback(&hit(2, 1, 5, 45), 0, Fp::from_int(100));
    assert_eq!(kb.raw(), 131072 + 3276);
}

#[test]
fn knockback_past_100_follows_the_formula() {
    // 40 + (200 + 12) * 100 / 100 * 200 / (100 + 100): no extra factor
    let kb = calculate_knockback(&hit(40, 100, 12, 45), 200, Fp::from_int(100));
    assert_eq!(kb, Fp::from_int(252));
}

#[test]
fn knockback_uses_damage_before_the_hit() {
    let d = default_state().players[1];
    let r = ejkore::hit::apply_hit(d, &hit(28, 60, 6, 45), PlayerInput(0), true);
    assert_eq!(r.damage_percent, 6);
    assert!(!r.grounded);
    assert_eq!(r.action, ejkore::state::ActionState::Hitstun { frames_left: 6 });
}

#[test]
fn holding_up_bends_the_launch_upward() {
    let d = default_state().players[1];
    let r = ejkore::hit::apply_hit(d, &hit(40, 100, 12, 0), PlayerInput(PlayerInput::UP), true);
    assert!(r.velocity_x.raw() > 0);
    assert!(r.velocity_y.raw() < 0);
    let down = ejkore::hit::apply_hit(d, &hit(40, 100, 12, 0), PlayerInput(PlayerInput::DOWN), true);
    assert!(down.velocity_y.raw() > 0);
}

#[test]
fn knockback_grows_with_damage_examples() {
    let h = hit(3, 1, 8, 45);
    let mut prev = calculate_knockback(&h, 0, Fp::from_int(100));
    for d in [10u32, 50, 99, 100, 101, 150, 250, 300] {
        let kb = calculate_knockback(&h, d, Fp::from_int(100));
        assert!(kb.raw() >= prev.raw(), "damage {}", d);
        prev = kb;
    }
}

#[test]
fn lighter_character_flies_further_example() {
    let h = hit(3, 1, 8, 45);
    let light = calculate_knockback(&h, 80, Fp::from_int(80));
    let heavy = calculate_knockback(&h, 80, Fp::from_int(120));
    assert!(light.raw() > heavy.raw());
}

#[test]
fn no_di_keeps_angle() {
    for angle in [0, 30, 45, 90, 135, 200, 270, 359] {
        assert_eq!(apply_di(angle, 0, 0), angle);
    }
}

#[test]
fn di_shift_stays_within_fifteen_degrees() {
    for angle in [0, 30, 45, 90, 135, 180, 225, 270, 315] {
        for (dx, dy) in [(1, 0), (-1, 0), (0, 1), (0, -1), (1, 1), (-1, -1), (1, -1), (-1, 1)] {
            let r = apply_di(angle, dx, dy);
            assert!((r - angle).abs() <= 15, "angle {} di ({}, {}) gave {}", angle, dx, dy, r);
        }
    }
}

#[test]
fn sine_and_cosine_table_values() {
    assert_eq!(sin_deg(0), 0);
    assert_eq!(sin_deg(30), 50);
    assert_eq!(sin_deg(90), 100);
    assert_eq!(sin_deg(270), -100);
    assert_eq!(sin_deg(-90), -100);
    assert_eq!(sin_deg(450), 100);
    assert_eq!(cos_deg(0), 100);
    assert_eq!(cos_deg(180), 0 - 100);
    assert_eq!(cos_deg(60), 50);
}

#[test]
fn fixed_point_int_roundtrip() {
    for n in [-32768, -1000, -1, 0, 1, 7, 640, 32767] {
        assert_eq!(Fp::from_int(n).to_int(), n);
    }
}

#[test]
fn fixed_point_arithmetic() {
    let a = Fp::from_int(3);
    let b = Fp::from_int(2);
    assert_eq!(a.plus(b).to_int(), 5);
    assert_eq!(a.minus(b).to_int(), 1);
    assert_eq!(a.negated().to_int(), -3);
    assert_eq!(a.times(b).to_int(), 6);
    assert_eq!(a.divided_by(b).raw(), 3 * 65536 / 2);
    assert_eq!(Fp::from_raw(12345).raw(), 12345);
    assert_eq!(Fp::zero().raw(), 0);
    assert_eq!(Fp::one().raw(), 65536);
}

#[test]
fn rect_overlap_edges() {
    let a = Rect { x: Fp::from_int(0), y: Fp::from_int(0), w: Fp::from_int(10), h: Fp::from_int(10) };
    let touching = Rect { x: Fp::from_int(10), y: Fp::from_int(0), w: Fp::from_int(5), h: Fp::from_int(5) };
    let inside = Rect { x: Fp::from_int(2), y: Fp::from_int(2), w: Fp::from_int(2), h: Fp::from_int(2) };
    assert!(!a.overlaps(&touching));
    assert!(a.overlaps(&inside));
    assert!(inside.overlaps(&a));
}

#[test]
fn hurtbox_is_centered_on_the_player() {
    let s = default_state();
    let p = s.players[0];
    let r = player_hurtbox(&p);
    assert_eq!(r.x.raw() + r.w.raw() / 2, p.position_x.raw());
    assert_eq!(r.y.raw() + r.h.raw(), p.position_y.raw());
}

#[test]
fn ko_resets_damage_and_takes_a_stock() {
    let mut s = default_state();
    s.players[0].damage_percent = 120;
    s.players[0].position_y = Fp::from_raw(BLAST_BOTTOM + 65536);
    s.players[0].grounded = false;
    assert!(is_frame_ready(&s));
    advance_frame(&mut s, [PlayerInput(0), PlayerInput(0)]);
    assert_eq!(s.players[0].stocks, STARTING_STOCKS - 1);
    assert_eq!(s.players[0].damage_percent, 0);
}

#[test]
fn last_stock_lost_ends_the_match_for_good() {
    let mut s = default_state();
    s.players[1].stocks = 1;
    s.players[1].position_y = Fp::from_raw(BLAST_BOTTOM + 65536);
    s.players[1].grounded = false;
    advance_frame(&mut s, [PlayerInput(0), PlayerInput(0)]);
    assert!(s.match_over);
    assert_eq!(s.winner, Some(0));
    let frozen = s;
    advance_frame(&mut s, [PlayerInput(PlayerInput::ATTACK), PlayerInput(PlayerInput::RIGHT)]);
    assert_eq!(s, frozen);
}

#[test]
fn frame_counter_advances_and_stocks_never_grow() {
    let mut s = default_state();
    for i in 0..120u32 {
        let before = s;
        let inputs = [PlayerInput((i % 7) as u16 * 16), PlayerInput(PlayerInput::LEFT)];
        advance_frame(&mut s, inputs);
        assert_eq!(s.frame, before.frame + 1);
        assert!(s.players[0].stocks <= before.players[0].stocks);
        assert!(s.players[1].stocks <= before.players[1].stocks);
    }
}

#[test]
fn frame_not_ready_past_damage_limit() {
    let mut s = default_state();
    assert!(is_frame_ready(&s));
    s.players[1].damage_percent = 32448;
    assert!(is_frame_ready(&s));
    s.players[1].damage_percent = 32449;
    assert!(!is_frame_ready(&s));
}

#[test]
fn match_start_uses_picked_characters() {
    let s = match_start_state(CharacterId::Ranged, CharacterId::Rushdown);
    let d = default_state();
    assert_eq!(s.players[0].character, CharacterId::Ranged);
    assert_eq!(s.players[1].character, CharacterId::Rushdown);
    assert_eq!(s.players[0].position_x, d.players[0].position_x);
    assert_eq!(s.frame, 0);
    assert!(!s.match_over);
    assert!(is_frame_ready(&s));
}

#[test]
fn rushdown_is_lighter_than_ranged() {
    let r = character_stats(CharacterId::Rushdown);
    let g = character_stats(CharacterId::Ranged);
    assert!(r.weight.raw() < g.weight.raw());
}

#[test]
fn respawn_clears_the_ledge_grab() {
    let mut s = default_state();
    s.players[0].has_ledge_grab = true;
    s.players[0].position_y = Fp::from_raw(BLAST_BOTTOM + 65536);
    s.players[0].grounded = false;
    advance_frame(&mut s, [PlayerInput(0), PlayerInput(0)]);
    assert_eq!(s.players[0].stocks, STARTING_STOCKS - 1);
    assert!(!s.players[0].has_ledge_grab);
}

fn hitstun_of(p: ejkore::state::PlayerState) -> u8 {
    match p.action {
        ejkore::state::ActionState::Hitstun { frames_left } => frames_left,
        other => panic!("not in hitstun: {:?}", other),
    }
}

#[test]
fn harder_hits_stun_longer() {
    let d = default_state().players[1];
    let weak = ejkore::hit::apply_hit(d, &hit(1, 1, 5, 45), PlayerInput(0), true);
    let strong = ejkore::hit::apply_hit(d, &hit(8, 1, 5, 45), PlayerInput(0), true);
    assert_eq!(weak.damage_percent, 5);
    assert!(hitstun_of(strong) >= hitstun_of(weak));
    assert!(hitstun_of(weak) >= 1 && hitstun_of(strong) <= 60);
}

#[test]
fn second_grab_forces_the_first_player_off_the_ledge() {
    let mut s = default_state();
    s.players[1].action = ActionState::LedgeHang;
    s.players[1].position_x = Fp::from_raw(STAGE_RIGHT);
    s.players[1].position_y = Fp::from_raw(GROUND_Y);
    s.players[1].grounded = false;
    s.players[1].has_ledge_grab = true;
    s.players[0].position_x = Fp::from_raw(STAGE_RIGHT).plus(Fp::from_int(5));
    s.players[0].position_y = Fp::from_raw(GROUND_Y).minus(Fp::from_int(10));
    s.players[0].grounded = false;
    s.players[0].velocity_y = Fp::from_int(2);
    advance_frame(&mut s, [PlayerInput(0), PlayerInput(0)]);
    assert_eq!(s.players[0].action, ActionState::LedgeHang);
    assert_ne!(s.players[1].action, ActionState::LedgeHang);
}

#[test]
fn a_hit_restores_the_ledge_grab() {
    let mut d = default_state().players[1];
    d.has_ledge_grab = true;
    d.grounded = false;
    let r = ejkore::hit::apply_hit(d, &hit(5, 10, 3, 45), PlayerInput(0), true);
    assert!(!r.has_ledge_grab);
}

#[test]
fn finished_match_stays_frozen_whatever_its_state() {
    let mut s = default_state();
    s.match_over = true;
    s.winner = Some(1);
    s.players[0].damage_percent = 40000;
    let before = s;
    advance_frame(&mut s, [PlayerInput(PlayerInput::ATTACK), PlayerInput(0)]);
    assert_eq!(s, before);
}

#[test]
fn player_far_off_stage_is_knocked_out() {
    let mut s = default_state();
    s.players[0].position_x = ejkore::fixed::Fp(15000 * 65536);
    s.players[0].grounded = false;
    assert!(is_frame_ready(&s));
    advance_frame(&mut s, [PlayerInput(0), PlayerInput(0)]);
    assert_eq!(s.players[0].stocks, 2);
    assert_eq!(s.frame, 1);
    s.players[0].position_x = ejkore::fixed::Fp(15001 * 65536);
    assert!(!is_frame_ready(&s));
}
