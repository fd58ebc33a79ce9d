use ejkore::net::{
    encode_char_select, encode_checksum, encode_input_bundle, encode_start_game,
    parse_checksum, parse_input_bundle, split_message, ConnectionState, PeerLink,
    MSG_CHAR_SELECT, MSG_CHECKSUM, MSG_INPUT, MSG_START_GAME,
};
use ejkore::online::{online_frame, CHECKSUM_INTERVAL};
use ejkore::rollback::{RollbackManager, INPUT_DELAY};
use ejkore::signal::signaling_url;
use ejkore::state::{advance_frame, default_state, state_checksum, GameState, PlayerInput};

#[test]
fn input_bundle_bytes_exact() {
    let m = encode_input_bundle(0x0102_0304, [0x0506, 0x0708, 0x090a]);
    assert_eq!(m, vec![MSG_INPUT, 4, 3, 2, 1, 6, 5, 8, 7, 10, 9]);
}

#[test]
fn input_bundle_roundtrip() {
    let m = encode_input_bundle(123456, [16, 2, 0xffff]);
    let (t, payload) = split_message(&m).unwrap();
    assert_eq!(t, MSG_INPUT);
    assert_eq!(parse_input_bundle(&payload), Some((123456, [16, 2, 0xffff])));
}

#[test]
fn checksum_roundtrip() {
    let m = encode_checksum(77, 0xdead_beef_0123_4567);
    assert_eq!(m.len(), 13);
    let (t, payload) = split_message(&m).unwrap();
    assert_eq!(t, MSG_CHECKSUM);
    assert_eq!(parse_checksum(&payload), Some((77, 0xdead_beef_0123_4567)));
}

#[test]
fn short_payloads_are_refused() {
    assert_eq!(parse_input_bundle(&[1, 2, 3, 4, 5, 6, 7, 8, 9]), None);
    assert_eq!(parse_checksum(&[0; 11]), None);
    assert_eq!(split_message(&[]), None);
}

#[test]
fn small_messages() {
    assert_eq!(encode_char_select(2, true), vec![MSG_CHAR_SELECT, 2, 1]);
    assert_eq!(encode_char_select(0, false), vec![MSG_CHAR_SELECT, 0, 0]);
    assert_eq!(encode_start_game(1), vec![MSG_START_GAME, 1]);
    assert_eq!(split_message(&[9]), Some((9, vec![])));
}

#[test]
fn peer_link_transitions() {
    let mut link = PeerLink::new();
    assert_eq!(link.connection_state, ConnectionState::Connecting);
    link.settle();
    assert_eq!(link.connection_state, ConnectionState::WaitingForPeer);
    assert!(!link.is_connected());
    link.peer_connected(42);
    assert!(link.is_connected());
    assert_eq!(link.peer, Some(42));
    link.peer_disconnected(7);
    assert!(link.is_connected());
    link.peer_disconnected(42);
    assert_eq!(link.peer, None);
    assert_eq!(link.connection_state, ConnectionState::Disconnected);
    link.settle();
    assert_eq!(link.connection_state, ConnectionState::Disconnected);
}

#[test]
fn signaling_url_from_query() {
    assert_eq!(signaling_url("?signal=192.168.1.5:3536", "http:", "a:8080", "a"), "ws://192.168.1.5:3536");
    assert_eq!(signaling_url("?x=1&signal=h:1&signal=other", "https:", "a", "a"), "ws://h:1");
    assert_eq!(signaling_url("??signal=h:2", "http:", "a", "a"), "ws://h:2");
}

#[test]
fn signaling_url_skips_empty_signal() {
    assert_eq!(signaling_url("?signal=&signal=s:9", "http:", "a", "a"), "ws://s:9");
    assert_eq!(signaling_url("?signal=", "http:", "game.local:8000", "game.local"), "ws://game.local:3536");
}

#[test]
fn signaling_url_from_location() {
    assert_eq!(signaling_url("", "https:", "fight.example.com", "fight.example.com"), "wss://fight.example.com/ws");
    assert_eq!(signaling_url("", "http:", "localhost:8080", "localhost"), "ws://localhost:3536");
    assert_eq!(signaling_url("?sig=1", "http:", "h:1", "h"), "ws://h:3536");
}

#[test]
fn checksum_tells_states_apart() {
    let a = default_state();
    let mut b = a;
    assert_eq!(state_checksum(&a), state_checksum(&b));
    b.players[1].damage_percent = 1;
    assert_ne!(state_checksum(&a), state_checksum(&b));
    let mut c = a;
    c.frame = 1;
    assert_ne!(state_checksum(&a), state_checksum(&c));
}

fn straight(frames: &[(u16, u16)]) -> GameState {
    let mut s = default_state();
    for (a, b) in frames {
        advance_frame(&mut s, [PlayerInput(*a), PlayerInput(*b)]);
    }
    s
}

#[test]
fn late_remote_input_gives_straight_simulation() {
    let mut rb = RollbackManager::new(default_state(), 0);
    for f in 0..6u32 {
        let target = rb.add_local_input(PlayerInput(PlayerInput::RIGHT));
        assert_eq!(target, f + INPUT_DELAY);
        rb.advance();
    }
    // the remote held LEFT from frame 2 on, but says so only now
    for f in 2..6u32 {
        assert!(rb.accepts_remote_input(f, PlayerInput(PlayerInput::LEFT)));
        rb.add_remote_input(f, PlayerInput(PlayerInput::LEFT));
    }
    assert!(rb.last_rollback_count > 0);
    // local input starts at frame INPUT_DELAY; remote LEFT from frame 2
    let expect = straight(&[
        (0, 0),
        (0, 0),
        (PlayerInput::RIGHT, PlayerInput::LEFT),
        (PlayerInput::RIGHT, PlayerInput::LEFT),
        (PlayerInput::RIGHT, PlayerInput::LEFT),
        (PlayerInput::RIGHT, PlayerInput::LEFT),
    ]);
    assert_eq!(rb.state, expect);
    assert!(rb.within_limits());
}

#[test]
fn contradicting_a_confirmed_input_is_not_accepted() {
    let mut rb = RollbackManager::new(default_state(), 1);
    rb.add_local_input(PlayerInput(0));
    rb.add_remote_input(0, PlayerInput(PlayerInput::UP));
    rb.advance();
    rb.advance();
    assert!(rb.accepts_remote_input(0, PlayerInput(PlayerInput::UP)));
    assert!(!rb.accepts_remote_input(0, PlayerInput(PlayerInput::DOWN)));
    assert!(!rb.accepts_remote_input(500, PlayerInput(PlayerInput::DOWN)));
}

#[test]
fn desync_detected_on_wrong_checksum() {
    let mut rb = RollbackManager::new(default_state(), 0);
    rb.advance();
    rb.advance();
    let good = rb.checksum_for_frame(1);
    rb.check_remote_checksum(1, good);
    assert!(!rb.desync_detected);
    // a frame not simulated yet is not checked
    rb.check_remote_checksum(5, good ^ 1);
    assert!(!rb.desync_detected);
    rb.check_remote_checksum(1, good ^ 1);
    assert!(rb.desync_detected);
}

#[test]
fn online_frame_sends_input_and_takes_remote_bundle() {
    let mut rb = RollbackManager::new(default_state(), 0);
    let mut timer = 0u32;
    let none: Vec<(u8, Vec<u8>)> = Vec::new();
    let out = online_frame(&mut rb, &none, PlayerInput(PlayerInput::ATTACK), &mut timer, true).unwrap();
    assert_eq!(out.input_frame, INPUT_DELAY);
    assert_eq!(out.input, PlayerInput(PlayerInput::ATTACK));
    assert!(out.checksum.is_none());
    assert!(out.remote_inputs_agree);
    assert_eq!(timer, 1);
    assert_eq!(rb.current_frame, 1);

    let bundle = encode_input_bundle(2, [PlayerInput::LEFT, PlayerInput::LEFT, 0]);
    let (t, payload) = split_message(&bundle).unwrap();
    let msgs = vec![(t, payload)];
    let out = online_frame(&mut rb, &msgs, PlayerInput(0), &mut timer, true).unwrap();
    assert!(out.remote_inputs_agree);
    assert_eq!(out.input_frame, 1 + INPUT_DELAY);
    assert_eq!(rb.current_frame, 2);
}

#[test]
fn online_frame_checksum_every_interval() {
    let mut rb = RollbackManager::new(default_state(), 0);
    // the frames before the first delayed local input count as confirmed
    rb.inputs.set(0, 0, PlayerInput(0), true);
    rb.inputs.set(1, 0, PlayerInput(0), true);
    let mut timer = 0u32;
    let mut sent = 0;
    for f in 0..(3 * CHECKSUM_INTERVAL) {
        // the remote's inputs arrive on time, so frames get confirmed
        let bundle = encode_input_bundle(f + INPUT_DELAY, [0, 0, 0]);
        let (t, payload) = split_message(&bundle).unwrap();
        let out = online_frame(&mut rb, &vec![(t, payload)], PlayerInput(0), &mut timer, true).unwrap();
        if let Some((frame, hash)) = out.checksum {
            sent += 1;
            assert_eq!(timer, 0);
            assert!(frame > 0);
            assert_eq!(hash, rb.checksum_for_frame(frame));
        }
    }
    assert!(sent >= 2);
}

#[test]
fn online_frame_without_connection_sends_no_checksum() {
    let mut rb = RollbackManager::new(default_state(), 0);
    let mut timer = 29u32;
    let none: Vec<(u8, Vec<u8>)> = Vec::new();
    let out = online_frame(&mut rb, &none, PlayerInput(0), &mut timer, false).unwrap();
    assert!(out.checksum.is_none());
    assert_eq!(timer, 29);
}

#[test]
fn online_frame_refuses_state_past_limits() {
    let mut s = default_state();
    s.players[0].damage_percent = 31000;
    let mut rb = RollbackManager::new(s, 0);
    let mut timer = 0u32;
    let none: Vec<(u8, Vec<u8>)> = Vec::new();
    assert!(!rb.within_limits());
    assert!(online_frame(&mut rb, &none, PlayerInput(0), &mut timer, true).is_none());
    assert_eq!(rb.current_frame, 0);
}

#[test]
fn late_input_in_a_reused_slot_rolls_back() {
    let mut m = RollbackManager::new(default_state(), 0);
    m.add_remote_input(0, PlayerInput(PlayerInput::RIGHT));
    for _ in 0..130 {
        m.advance();
    }
    m.add_remote_input(128, PlayerInput(0));
    assert_eq!(m.last_rollback_count, 2);
}

#[test]
fn checksums_of_the_last_buffer_of_frames() {
    let mut m = RollbackManager::new(default_state(), 0);
    let mut starts = Vec::new();
    for f in 0..140u32 {
        starts.push(m.state);
        m.add_local_input(PlayerInput(if f % 20 < 10 { PlayerInput::RIGHT } else { PlayerInput::LEFT }));
        m.advance();
    }
    assert_eq!(m.checksum_for_frame(139), state_checksum(&starts[139]));
    for f in 12..140u32 {
        assert_eq!(m.checksum_for_frame(f), state_checksum(&starts[f as usize]), "frame {}", f);
    }
}

#[test]
fn online_frame_plays_the_peer_bundle_frames() {
    let mut rb = RollbackManager::new(default_state(), 0);
    let mut timer = 0u32;
    let none: Vec<(u8, Vec<u8>)> = Vec::new();
    online_frame(&mut rb, &none, PlayerInput(0), &mut timer, true).unwrap();
    // the peer's inputs for frame 2 and the two frames before it
    let bundle = encode_input_bundle(2, [0, PlayerInput::LEFT, PlayerInput::RIGHT]);
    let (t, payload) = split_message(&bundle).unwrap();
    online_frame(&mut rb, &vec![(t, payload)], PlayerInput(0), &mut timer, true).unwrap();
    assert_eq!(rb.current_frame, 2);
    // frame 0 is replayed with the confirmed remote input
    let mut expected = default_state();
    advance_frame(&mut expected, [PlayerInput(0), PlayerInput(PlayerInput::RIGHT)]);
    advance_frame(&mut expected, [PlayerInput(0), PlayerInput(PlayerInput::LEFT)]);
    assert!(rb.state == expected);
    // the confirmed inputs stand: a different one for the same frames no longer fits
    assert!(rb.accepts_remote_input(0, PlayerInput(PlayerInput::RIGHT)));
    assert!(!rb.accepts_remote_input(0, PlayerInput(0)));
    assert!(!rb.accepts_remote_input(1, PlayerInput(PlayerInput::RIGHT)));
}

#[test]
fn online_frame_flags_a_disagreeing_checksum() {
    let mut rb = RollbackManager::new(default_state(), 0);
    let mut timer = 0u32;
    let none: Vec<(u8, Vec<u8>)> = Vec::new();
    online_frame(&mut rb, &none, PlayerInput(0), &mut timer, true).unwrap();
    let good = rb.checksum_for_frame(0);
    let (t, payload) = split_message(&encode_checksum(0, good)).unwrap();
    online_frame(&mut rb, &vec![(t, payload)], PlayerInput(0), &mut timer, true).unwrap();
    assert!(!rb.desync_detected);
    let (t, payload) = split_message(&encode_checksum(0, good.wrapping_add(1))).unwrap();
    online_frame(&mut rb, &vec![(t, payload)], PlayerInput(0), &mut timer, true).unwrap();
    assert!(rb.desync_detected);
}

#[test]
fn online_frame_ignores_unparsable_messages() {
    let mut rb = RollbackManager::new(default_state(), 0);
    let mut timer = 0u32;
    let msgs = vec![(MSG_CHECKSUM, vec![1u8, 2, 3]), (MSG_INPUT, vec![0u8; 4]), (0x7f, vec![0u8; 16])];
    online_frame(&mut rb, &msgs, PlayerInput(0), &mut timer, true).unwrap();
    assert!(!rb.desync_detected);
    let mut expected = default_state();
    advance_frame(&mut expected, [PlayerInput(0), PlayerInput(0)]);
    assert!(rb.state == expected);
}

fn derived_hash(s: &GameState) -> u64 {
    let mut h = std::collections::hash_map::DefaultHasher::new();
    std::hash::Hash::hash(s, &mut h);
    std::hash::Hasher::finish(&h)
}

#[test]
fn checksum_is_the_hash_of_the_state() {
    let mut s = default_state();
    assert_eq!(state_checksum(&s), derived_hash(&s));
    for _ in 0..20 {
        advance_frame(&mut s, [PlayerInput(PlayerInput::RIGHT), PlayerInput(PlayerInput::SPECIAL)]);
    }
    assert_eq!(state_checksum(&s), derived_hash(&s));
    s.players[0].action = ejkore::state::ActionState::Rolling { frames_left: 3, direction: -1 };
    s.players[1].action = ejkore::state::ActionState::Hitstun { frames_left: 12 };
    s.players[1].position_x = ejkore::fixed::Fp(-123456);
    s.projectiles[4].active = true;
    s.projectiles[4].velocity_x = ejkore::fixed::Fp(-7);
    s.match_over = true;
    s.winner = Some(1);
    assert_eq!(state_checksum(&s), derived_hash(&s));
    s.winner = None;
    assert_eq!(state_checksum(&s), derived_hash(&s));
}

#[test]
fn manager_holds_any_starting_state() {
    let mut s = default_state();
    s.players[0].position_x = ejkore::fixed::Fp(20000 * 65536);
    let mut rb = RollbackManager::new(s, 1);
    assert_eq!(rb.current_frame, 0);
    assert_eq!(rb.local_player, 1);
    assert!(rb.state == s);
    assert_eq!(rb.checksum_for_frame(0), state_checksum(&s));
    assert!(!rb.within_limits());
    let mut timer = 0u32;
    let none: Vec<(u8, Vec<u8>)> = Vec::new();
    assert!(online_frame(&mut rb, &none, PlayerInput(0), &mut timer, true).is_none());
    assert_eq!(rb.current_frame, 0);
}
