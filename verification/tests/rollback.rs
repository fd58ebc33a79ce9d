use ejkore::state::{
    GameState,
    PlayerInput,
    advance_frame,
    default_state,
    state_checksum,
};
use ejkore::rollback::{RollbackManager, INPUT_DELAY};
fn run_reference(frames: &[(PlayerInput, PlayerInput)]) -> GameState {
    let mut state = default_state();
    for (p1, p2) in frames {
        advance_frame(&mut state, [*p1, *p2]);
    }
    state
}

#[test]
fn no_rollback_when_inputs_on_time() {
    let mut mgr = RollbackManager::new(default_state(), 0);
    let right = PlayerInput(PlayerInput::RIGHT);
    let left = PlayerInput(PlayerInput::LEFT);

    for _ in 0..10 {
        mgr.add_local_input(right);
        mgr.add_remote_input(mgr.current_frame + INPUT_DELAY, left);
        mgr.advance();
    }
    assert_eq!(mgr.last_rollback_count, 0);
}

#[test]
fn rollback_on_late_remote_input() {
    let mut mgr = RollbackManager::new(default_state(), 0);
    let no = PlayerInput::default();
    let right = PlayerInput(PlayerInput::RIGHT);

    for _ in 0..5 {
        mgr.add_local_input(no);
        mgr.advance();
    }

    // Late remote input that differs from prediction
    mgr.add_remote_input(2, right);
    assert!(mgr.last_rollback_count > 0);
}

#[test]
fn prediction_correct_no_rollback() {
    let mut mgr = RollbackManager::new(default_state(), 0);
    let no = PlayerInput::default();

    for _ in 0..5 {
        mgr.add_local_input(no);
        mgr.advance();
    }

    // Remote confirms default inputs — matches prediction
    for f in 0..5u32 {
        mgr.add_remote_input(f, no);
    }
    assert_eq!(mgr.last_rollback_count, 0);
}

#[test]
fn input_delay_offsets_correctly() {
    let mut mgr = RollbackManager::new(default_state(), 0);
    let right = PlayerInput(PlayerInput::RIGHT);
    let target = mgr.add_local_input(right);
    assert_eq!(target, INPUT_DELAY);
}

#[test]
fn determinism_through_rollback() {
    let right = PlayerInput(PlayerInput::RIGHT);
    let left = PlayerInput(PlayerInput::LEFT);
    let no = PlayerInput::default();

    let sequence = vec![
        (right, left),
        (right, left),
        (right, no),
        (no, left),
        (right, left),
        (no, no),
        (right, right),
        (no, left),
    ];
    let reference = run_reference(&sequence);

    let mut mgr = RollbackManager::new(default_state(), 0);

    // Pre-load all local (P1) inputs
    for (f, (p1, _)) in sequence.iter().enumerate() {
        mgr.inputs.set(f as u32, 0, *p1, true);
    }

    // Advance 4 frames with remote predicted (no remote input yet)
    for _ in 0..4 {
        mgr.advance();
    }

    // Deliver all 8 remote inputs (first 4 are late, triggers rollback)
    for (f, (_, p2)) in sequence.iter().enumerate() {
        mgr.add_remote_input(f as u32, *p2);
    }

    // Advance remaining 4 frames
    for _ in 4..8 {
        mgr.advance();
    }

    assert_eq!(mgr.state, reference, "rollback simulation must match reference");
}

#[test]
fn checksum_detects_desync() {
    let mut mgr = RollbackManager::new(default_state(), 0);
    let no = PlayerInput::default();

    for _ in 0..5 {
        mgr.add_local_input(no);
        mgr.add_remote_input(mgr.current_frame, no);
        mgr.advance();
    }

    let correct = mgr.checksum_for_frame(3);
    mgr.check_remote_checksum(3, correct);
    assert!(!mgr.desync_detected);

    mgr.check_remote_checksum(3, correct.wrapping_add(1));
    assert!(mgr.desync_detected);
}

#[test]
fn state_checksum_deterministic() {
    let a = default_state();
    let b = default_state();
    assert_eq!(state_checksum(&a), state_checksum(&b));

    let mut c = default_state();
    advance_frame(&mut c, [PlayerInput(PlayerInput::RIGHT), PlayerInput::default()]);
    assert_ne!(state_checksum(&a), state_checksum(&c));
}
