use ejkore::bindings::KeyBindings;
use ejkore::input::{
    action_bit, assign_gamepads, combined_input, gamepad_bits, key_display, keyboard_bits,
    keyboard_input, menu_edges, menu_pad_player, MenuInput, ACTION_ATTACK, ACTION_LEFT,
};
use ejkore::keys::menu_key;
use ejkore::menu::{
    char_at, char_desc, char_name, menu_nav, GameMode, MenuAction, MenuState, MenuTaps, Screen,
};
use ejkore::online::{is_text_after, online_char_select, peer_joined};
use ejkore::net::{MSG_CHAR_SELECT, MSG_START_GAME};
use ejkore::state::{CharacterId, PlayerInput};

fn keys(down: &[&str]) -> Vec<String> {
    down.iter().map(|k| k.to_string()).collect()
}

fn p1() -> KeyBindings {
    KeyBindings::default_p1()
}

fn p2() -> KeyBindings {
    KeyBindings::default_p2()
}

// === Input bits ===

#[test]
fn keyboard_bits_per_action() {
    let mut held = [false; 9];
    held[0] = true;
    held[4] = true;
    assert_eq!(keyboard_bits(&held), PlayerInput::LEFT | PlayerInput::ATTACK);
    assert_eq!(keyboard_bits(&[false; 9]), 0);
    assert_eq!(keyboard_bits(&[true; 9]), 0x1ff);
    assert_eq!(action_bit(8), PlayerInput::SMASH);
}

#[test]
fn keyboard_input_from_keys_down() {
    assert_eq!(keyboard_input(&keys(&["a", "j"]), &p1()), PlayerInput::LEFT | PlayerInput::ATTACK);
    // a one-letter binding also answers to its upper-case key (Shift held)
    assert_eq!(keyboard_input(&keys(&["D", "Shift"]), &p1()), PlayerInput::RIGHT);
    assert_eq!(keyboard_input(&keys(&["ArrowUp", "1"]), &p2()), PlayerInput::UP | PlayerInput::ATTACK);
    // a longer name must match exactly
    assert_eq!(keyboard_input(&keys(&["ARROWUP", "arrowup"]), &p2()), 0);
    assert_eq!(keyboard_input(&keys(&[]), &p1()), 0);
}

#[test]
fn gamepad_standard_mapping() {
    let mut pressed = [false; 16];
    assert_eq!(gamepad_bits([true, false, false, true], &pressed), PlayerInput::LEFT | PlayerInput::DOWN);
    pressed[0] = true;
    pressed[5] = true;
    pressed[12] = true;
    assert_eq!(
        gamepad_bits([false; 4], &pressed),
        PlayerInput::ATTACK | PlayerInput::SHIELD | PlayerInput::UP
    );
    let mut others = [false; 16];
    others[1] = true;
    others[2] = true;
    others[3] = true;
    others[13] = true;
    others[14] = true;
    others[15] = true;
    others[4] = true;
    assert_eq!(
        gamepad_bits([false; 4], &others),
        PlayerInput::SPECIAL | PlayerInput::GRAB | PlayerInput::SMASH | PlayerInput::DOWN
            | PlayerInput::LEFT | PlayerInput::RIGHT
    );
}

#[test]
fn touch_counts_for_player_one_only() {
    assert_eq!(combined_input(0, 1, 2, 16, true), PlayerInput(1 | 2 | 16));
    assert_eq!(combined_input(1, 1, 2, 16, true), PlayerInput(3));
    assert_eq!(combined_input(0, 1, 2, 16, false), PlayerInput(3));
}

#[test]
fn gamepads_assigned_in_order() {
    assert_eq!(assign_gamepads(&vec![]), (None, None));
    assert_eq!(assign_gamepads(&vec![3]), (Some(3), None));
    assert_eq!(assign_gamepads(&vec![1, 4, 7]), (Some(1), Some(4)));
    assert_eq!(menu_pad_player(Some(0), Some(1)), Some(0));
    assert_eq!(menu_pad_player(None, Some(1)), Some(1));
    assert_eq!(menu_pad_player(None, None), None);
}

#[test]
fn menu_edges_only_new_presses() {
    let m = menu_edges(PlayerInput::LEFT | PlayerInput::ATTACK, PlayerInput::LEFT);
    assert_eq!(m, MenuInput { confirm: true, ..MenuInput::default() });
    let m = menu_edges(PlayerInput::SPECIAL | PlayerInput::DOWN | PlayerInput::UP | PlayerInput::RIGHT, 0);
    assert_eq!(m, MenuInput { back: true, down: true, up: true, right: true, ..MenuInput::default() });
    assert_eq!(menu_edges(0x1ff, 0x1ff), MenuInput::default());
}

#[test]
fn key_display_names() {
    assert_eq!(key_display(" "), "SPACE");
    assert_eq!(key_display("ArrowLeft"), "LEFT");
    assert_eq!(key_display("Escape"), "ESC");
    assert_eq!(key_display("Tab"), "TAB");
    assert_eq!(key_display("k"), "k");
}

// === Key bindings ===

#[test]
fn default_bindings() {
    assert_eq!(p1().keys[ACTION_LEFT as usize], "a");
    assert_eq!(p1().keys[ACTION_ATTACK as usize], "j");
    assert_eq!(p2().keys[ACTION_LEFT as usize], "ArrowLeft");
    assert_eq!(p2().keys[8], "4");
}

#[test]
fn bindings_json_exact() {
    assert_eq!(p1().to_json(), r#"["a","d","w","s","j","k","l",";","h"]"#);
}

#[test]
fn bindings_json_roundtrip() {
    for kb in [p1(), p2()] {
        let back = KeyBindings::from_json(&kb.to_json()).unwrap();
        assert_eq!(back.keys, kb.keys);
    }
    let mut odd = p1();
    odd.set_key(3, "\"".to_string());
    odd.set_key(4, "\\".to_string());
    odd.set_key(5, " ".to_string());
    let back = KeyBindings::from_json(&odd.to_json()).unwrap();
    assert_eq!(back.keys, odd.keys);
}

#[test]
fn bindings_json_accepts_white_space() {
    let kb = KeyBindings::from_json(r#"  [ "a" , "d","w","s","j","k","l",";", "h" ]  "#).unwrap();
    assert_eq!(kb.keys, p1().keys);
}

#[test]
fn bindings_json_errors() {
    assert!(KeyBindings::from_json("").is_none());
    assert!(KeyBindings::from_json(r#""a","b""#).is_none());
    assert!(KeyBindings::from_json(r#"["a","d","w","s","j","k","l",";"]"#).is_none());
    assert!(KeyBindings::from_json(r#"["a","d","w","s","j","k","l",";","h","x"]"#).is_none());
    assert!(KeyBindings::from_json(r#"["a","d","w","s","j","k","l",";",h]"#).is_none());
    // a key with a comma is split by the reader
    let mut comma = p1();
    comma.set_key(0, ",".to_string());
    assert!(KeyBindings::from_json(&comma.to_json()).is_none());
}

#[test]
fn set_key_returns_old_binding() {
    let mut kb = p2();
    let old = kb.set_key(4, "Enter".to_string());
    assert_eq!(old, "1");
    assert_eq!(kb.keys[4], "Enter");
}

// === Menus ===

#[test]
fn character_names() {
    assert_eq!(char_name(CharacterId::Balanced), "BALANCED");
    assert_eq!(char_name(char_at(2)), "RUSHDOWN");
    assert_eq!(char_desc(CharacterId::Ranged), "Slower, more projectiles. Controls space.");
}

#[test]
fn gamepad_menu_wraps_and_picks() {
    let mut s = MenuState::new();
    let up = MenuInput { up: true, ..MenuInput::default() };
    let acts = menu_nav(&mut s, &up, &MenuTaps::default());
    assert!(acts.is_empty());
    assert_eq!(s.menu_cursor, 2);
    let confirm = MenuInput { confirm: true, ..MenuInput::default() };
    menu_nav(&mut s, &confirm, &MenuTaps::default());
    assert_eq!(s.screen, Screen::Settings);
    let back = MenuInput { back: true, ..MenuInput::default() };
    let acts = menu_nav(&mut s, &back, &MenuTaps::default());
    assert_eq!(acts, vec![MenuAction::SaveBindings]);
    assert_eq!(s.screen, Screen::MainMenu);
}

#[test]
fn tap_online_opens_lobby() {
    let mut s = MenuState::new();
    let acts = menu_nav(&mut s, &MenuInput::default(), &MenuTaps { online: true, ..MenuTaps::default() });
    assert_eq!(acts, vec![MenuAction::StartOnline]);
    assert_eq!(s.screen, Screen::OnlineLobby);
    assert_eq!(s.mode, GameMode::Online);
}

#[test]
fn local_match_starts_when_both_ready() {
    let mut s = MenuState::new();
    menu_key(&mut s, "1", &p1(), &p2());
    assert_eq!(s.screen, Screen::CharSelect);
    menu_key(&mut s, "d", &p1(), &p2());
    assert_eq!(s.p1_char_idx, 1);
    menu_key(&mut s, "ArrowLeft", &p1(), &p2());
    assert_eq!(s.p2_char_idx, 2);
    let acts = menu_key(&mut s, "J", &p1(), &p2());
    assert!(acts.is_empty());
    assert!(s.p1_ready);
    let acts = menu_key(&mut s, "1", &p1(), &p2());
    assert_eq!(acts, vec![MenuAction::StartGame]);
    assert_eq!(s.screen, Screen::Fighting);
}

#[test]
fn ready_player_cannot_change_pick() {
    let mut s = MenuState::new();
    menu_key(&mut s, "1", &p1(), &p2());
    menu_key(&mut s, "j", &p1(), &p2());
    menu_key(&mut s, "a", &p1(), &p2());
    assert_eq!(s.p1_char_idx, 0);
    menu_key(&mut s, "Escape", &p1(), &p2());
    assert_eq!(s.screen, Screen::MainMenu);
    assert!(!s.p1_ready);
}

#[test]
fn settings_rebinding_keys() {
    let mut s = MenuState::new();
    menu_key(&mut s, "3", &p1(), &p2());
    assert_eq!(s.screen, Screen::Settings);
    menu_key(&mut s, "5", &p1(), &p2());
    assert_eq!(s.rebind_target, Some((0, 4)));
    let acts = menu_key(&mut s, "q", &p1(), &p2());
    assert_eq!(acts, vec![MenuAction::Rebind { player: 0, action: 4 }]);
    assert_eq!(s.rebind_target, None);
    let acts = menu_key(&mut s, "F9", &p1(), &p2());
    assert_eq!(acts, vec![MenuAction::PreventDefault]);
    assert_eq!(s.rebind_target, Some((1, 8)));
    let acts = menu_key(&mut s, "Escape", &p1(), &p2());
    assert!(acts.is_empty());
    assert_eq!(s.rebind_target, None);
    assert_eq!(menu_key(&mut s, "R", &p1(), &p2()), vec![MenuAction::ResetBindings]);
    assert_eq!(menu_key(&mut s, "Escape", &p1(), &p2()), vec![MenuAction::SaveBindings]);
    assert_eq!(s.screen, Screen::MainMenu);
}

#[test]
fn restart_keys_after_and_during_a_match() {
    let mut s = MenuState::new();
    s.screen = Screen::Fighting;
    assert_eq!(menu_key(&mut s, "r", &p1(), &p2()), vec![MenuAction::StartGame]);
    s.screen = Screen::GameOver;
    s.p1_ready = true;
    assert!(menu_key(&mut s, "r", &p1(), &p2()).is_empty());
    assert_eq!(s.screen, Screen::CharSelect);
    assert!(!s.p1_ready);
    s.mode = GameMode::Online;
    s.screen = Screen::GameOver;
    assert_eq!(menu_key(&mut s, "R", &p1(), &p2()), vec![MenuAction::EndOnlineMatch]);
    assert_eq!(s.screen, Screen::MainMenu);
}

// === Online lobby and picks ===

#[test]
fn text_order() {
    assert!(is_text_after("m", "local"));
    assert!(is_text_after("locals", "local"));
    assert!(!is_text_after("local", "local"));
    assert!(!is_text_after("PeerId(1234)", "local"));
}

#[test]
fn peer_joining_opens_character_select() {
    let mut s = MenuState::new();
    menu_key(&mut s, "2", &p1(), &p2());
    assert_eq!(s.screen, Screen::OnlineLobby);
    peer_joined(&mut s, "PeerId(0f1e2d3c-0000-0000-0000-000000000000)");
    assert_eq!(s.screen, Screen::CharSelect);
    assert_eq!(s.local_player, 1);
    // only in the lobby
    peer_joined(&mut s, "zzz");
    assert_eq!(s.local_player, 1);
}

#[test]
fn online_pick_is_sent_to_the_peer() {
    let mut s = MenuState::new();
    menu_key(&mut s, "2", &p1(), &p2());
    peer_joined(&mut s, "zzz");
    assert_eq!(s.local_player, 0);
    let acts = menu_key(&mut s, "d", &p1(), &p2());
    assert_eq!(acts, vec![MenuAction::SendCharSelect { index: 1, ready: false }]);
    let acts = menu_key(&mut s, "j", &p1(), &p2());
    assert_eq!(acts, vec![MenuAction::SendCharSelect { index: 1, ready: true }]);
    // player 2's keys do nothing online
    assert!(menu_key(&mut s, "ArrowLeft", &p1(), &p2()).is_empty());
    assert_eq!(s.p2_char_idx, 0);
}

#[test]
fn host_starts_online_match_when_both_ready() {
    let mut s = MenuState::new();
    menu_key(&mut s, "2", &p1(), &p2());
    peer_joined(&mut s, "zzz");
    menu_key(&mut s, "j", &p1(), &p2());
    let msgs = vec![(MSG_CHAR_SELECT, vec![2, 1]), (0x7f, vec![])];
    let acts = online_char_select(&mut s, &msgs);
    assert_eq!(acts, vec![MenuAction::SendStartGame { remote_player: 1 }, MenuAction::StartGame]);
    assert_eq!(s.p2_char_idx, 2);
    assert_eq!(s.screen, Screen::Fighting);
}

#[test]
fn guest_swaps_picks_before_starting() {
    let mut s = MenuState::new();
    menu_key(&mut s, "2", &p1(), &p2());
    peer_joined(&mut s, "PeerId(x)");
    menu_key(&mut s, "d", &p1(), &p2());
    menu_key(&mut s, "j", &p1(), &p2());
    let acts = online_char_select(&mut s, &vec![(MSG_CHAR_SELECT, vec![2, 1])]);
    assert_eq!(acts, vec![MenuAction::SendStartGame { remote_player: 0 }, MenuAction::StartGame]);
    assert_eq!(s.p1_char_idx, 2);
    assert_eq!(s.p2_char_idx, 1);
}

#[test]
fn peer_messages_out_of_range_are_ignored() {
    let mut s = MenuState::new();
    menu_key(&mut s, "2", &p1(), &p2());
    peer_joined(&mut s, "zzz");
    let acts = online_char_select(&mut s, &vec![(MSG_CHAR_SELECT, vec![3, 1]), (MSG_CHAR_SELECT, vec![1])]);
    assert!(acts.is_empty());
    assert_eq!(s.p2_char_idx, 0);
    assert!(!s.p2_ready);
    let acts = online_char_select(&mut s, &vec![(MSG_START_GAME, vec![1])]);
    assert_eq!(acts, vec![MenuAction::StartGame]);
    assert_eq!(s.local_player, 1);
    assert_eq!(s.screen, Screen::Fighting);
}
