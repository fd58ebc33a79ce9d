//! Turning held keys, gamepad buttons and touches into player inputs and
//! menu presses, and the players' key bindings with their storage format.
use vstd::prelude::*;

use crate::bindings::{push_char, views, KeyBindings};
use crate::signal::push_text;
use crate::state::PlayerInput;

verus! {

// Action indices for rebinding
pub const ACTION_LEFT: u8 = 0;

pub const ACTION_RIGHT: u8 = 1;

pub const ACTION_UP: u8 = 2;

pub const ACTION_DOWN: u8 = 3;

pub const ACTION_ATTACK: u8 = 4;

pub const ACTION_SPECIAL: u8 = 5;

pub const ACTION_SHIELD: u8 = 6;

pub const ACTION_GRAB: u8 = 7;

pub const ACTION_SMASH: u8 = 8;

pub const ACTION_COUNT: u8 = 9;

/// The name shown for each action.
pub open spec fn spec_action_name(action: int) -> Seq<char> {
    if action == 0 {
        "LEFT"@
    } else if action == 1 {
        "RIGHT"@
    } else if action == 2 {
        "UP"@
    } else if action == 3 {
        "DOWN"@
    } else if action == 4 {
        "ATTACK"@
    } else if action == 5 {
        "SPECIAL"@
    } else if action == 6 {
        "SHIELD"@
    } else if action == 7 {
        "GRAB"@
    } else {
        "SMASH"@
    }
}

pub fn action_name(action: u8) -> (r: &'static str)
    requires
        action < ACTION_COUNT,
    ensures
        r@ == spec_action_name(action as int),
{
    match action {
        0 => "LEFT",
        1 => "RIGHT",
        2 => "UP",
        3 => "DOWN",
        4 => "ATTACK",
        5 => "SPECIAL",
        6 => "SHIELD",
        7 => "GRAB",
        _ => "SMASH",
    }
}

/// The input bit of each action.
pub open spec fn spec_action_bit(action: int) -> u16 {
    if action == 0 {
        PlayerInput::LEFT
    } else if action == 1 {
        PlayerInput::RIGHT
    } else if action == 2 {
        PlayerInput::UP
    } else if action == 3 {
        PlayerInput::DOWN
    } else if action == 4 {
        PlayerInput::ATTACK
    } else if action == 5 {
        PlayerInput::SPECIAL
    } else if action == 6 {
        PlayerInput::SHIELD
    } else if action == 7 {
        PlayerInput::GRAB
    } else if action == 8 {
        PlayerInput::SMASH
    } else {
        0
    }
}

pub fn action_bit(action: u8) -> (r: u16)
    requires
        action < ACTION_COUNT,
    ensures
        r == spec_action_bit(action as int),
{
    match action {
        0 => PlayerInput::LEFT,
        1 => PlayerInput::RIGHT,
        2 => PlayerInput::UP,
        3 => PlayerInput::DOWN,
        4 => PlayerInput::ATTACK,
        5 => PlayerInput::SPECIAL,
        6 => PlayerInput::SHIELD,
        7 => PlayerInput::GRAB,
        _ => PlayerInput::SMASH,
    }
}

/// The bits of the first `n` actions whose keys are held.
pub open spec fn held_bits(held: [bool; 9], n: int) -> u16
    decreases n,
{
    if n <= 0 {
        0
    } else {
        held_bits(held, n - 1) | (if held[n - 1] {
            spec_action_bit(n - 1)
        } else {
            0
        })
    }
}

/// The input of a player's keyboard: the bit of every action whose bound
/// key is held.
pub fn keyboard_bits(held: &[bool; 9]) -> (r: u16)
    ensures
        r == held_bits(*held, 9),
{
    let mut bits: u16 = 0;
    let mut i: u8 = 0;
    while i < ACTION_COUNT
        invariant
            i <= ACTION_COUNT,
            bits == held_bits(*held, i as int),
        decreases ACTION_COUNT - i,
    {
        if held[i as usize] {
            bits = bits | action_bit(i);
        } else {
            assert(bits | 0u16 == bits) by (bit_vector);
        }
        i += 1;
    }
    bits
}

/// A single lower-case ASCII letter in upper case; any other key name
/// unchanged (the upper-case form of a one-byte key name).
pub open spec fn ascii_upper(key: Seq<char>) -> Seq<char> {
    if key.len() == 1 && 'a' <= key[0] <= 'z' {
        seq![((key[0] as u32 - 32) as u8) as char]
    } else {
        key
    }
}

/// A bound key counts as held when its name is among the keys down, or,
/// for a one-letter name, its upper-case form is (Shift or Caps Lock).
pub open spec fn key_held(down: Seq<Seq<char>>, key: Seq<char>) -> bool {
    down.contains(key) || down.contains(ascii_upper(key))
}

/// Which of the nine bound keys are held.
pub open spec fn held_actions(down: Seq<Seq<char>>, keys: Seq<Seq<char>>) -> [bool; 9] {
    [
        key_held(down, keys[0]),
        key_held(down, keys[1]),
        key_held(down, keys[2]),
        key_held(down, keys[3]),
        key_held(down, keys[4]),
        key_held(down, keys[5]),
        key_held(down, keys[6]),
        key_held(down, keys[7]),
        key_held(down, keys[8]),
    ]
}

fn upper_ascii(key: &str) -> (r: String)
    ensures
        r@ == ascii_upper(key@),
{
    let mut out = String::new();
    if key.unicode_len() == 1 {
        let c = key.get_char(0);
        if 'a' <= c && c <= 'z' {
            let u: u8 = (c as u32 - 32) as u8;
            push_char(&mut out, u as char);
            return out;
        }
    }
    push_text(&mut out, key);
    out
}

/// Whether the name is among the keys down.
fn is_down(down: &Vec<String>, key: &str) -> (r: bool)
    ensures
        r == views(down@).contains(key@),
{
    let mut i: usize = 0;
    while i < down.len()
        invariant
            i <= down.len(),
            forall|j: int| 0 <= j < i ==> down@[j]@ != key@,
        decreases down.len() - i,
    {
        if same_text(down[i].as_str(), key) {
            assert(views(down@)[i as int] == key@);
            return true;
        }
        i += 1;
    }
    assert forall|j: int| 0 <= j < views(down@).len() implies views(down@)[j] != key@ by {
        assert(views(down@)[j] == down@[j]@);
    }
    false
}

fn is_held(down: &Vec<String>, key: &str) -> (r: bool)
    ensures
        r == key_held(views(down@), key@),
{
    if is_down(down, key) {
        return true;
    }
    let upper = upper_ascii(key);
    is_down(down, upper.as_str())
}

/// The input of a player's keyboard from the names of the keys down now:
/// the bit of every action whose bound key is held.
pub fn keyboard_input(down: &Vec<String>, binds: &KeyBindings) -> (r: u16)
    ensures
        r == held_bits(held_actions(views(down@), binds@), 9),
{
    let held = [
        is_held(down, binds.keys[0].as_str()),
        is_held(down, binds.keys[1].as_str()),
        is_held(down, binds.keys[2].as_str()),
        is_held(down, binds.keys[3].as_str()),
        is_held(down, binds.keys[4].as_str()),
        is_held(down, binds.keys[5].as_str()),
        is_held(down, binds.keys[6].as_str()),
        is_held(down, binds.keys[7].as_str()),
        is_held(down, binds.keys[8].as_str()),
    ];
    proof {
        assert(held =~= held_actions(views(down@), binds@));
    }
    keyboard_bits(&held)
}

/// The input of a gamepad in the standard mapping: the stick directions,
/// then A/Cross attack, B/Circle special, X/Square grab, Y/Triangle smash,
/// RB/R1 shield, and the d-pad (buttons 12 to 15: up, down, left, right).
pub open spec fn spec_gamepad_bits(stick: [bool; 4], pressed: [bool; 16]) -> u16 {
    (if stick[0] { PlayerInput::LEFT } else { 0 }) | (if stick[1] { PlayerInput::RIGHT } else { 0 })
        | (if stick[2] { PlayerInput::UP } else { 0 }) | (if stick[3] { PlayerInput::DOWN } else { 0 })
        | (if pressed[0] { PlayerInput::ATTACK } else { 0 }) | (if pressed[1] {
        PlayerInput::SPECIAL
    } else {
        0
    }) | (if pressed[2] { PlayerInput::GRAB } else { 0 }) | (if pressed[3] {
        PlayerInput::SMASH
    } else {
        0
    }) | (if pressed[5] { PlayerInput::SHIELD } else { 0 }) | (if pressed[12] {
        PlayerInput::UP
    } else {
        0
    }) | (if pressed[13] { PlayerInput::DOWN } else { 0 }) | (if pressed[14] {
        PlayerInput::LEFT
    } else {
        0
    }) | (if pressed[15] { PlayerInput::RIGHT } else { 0 })
}

/// The input of a gamepad, from its stick directions past the dead zone
/// (left, right, up, down) and its pressed buttons.
pub fn gamepad_bits(stick: [bool; 4], pressed: &[bool; 16]) -> (r: u16)
    ensures
        r == spec_gamepad_bits(stick, *pressed),
{
    // Axes: left stick
    let left: u16 = if stick[0] { PlayerInput::LEFT } else { 0 };
    let right: u16 = if stick[1] { PlayerInput::RIGHT } else { 0 };
    let up: u16 = if stick[2] { PlayerInput::UP } else { 0 };
    let down: u16 = if stick[3] { PlayerInput::DOWN } else { 0 };
    // Standard gamepad mapping
    let attack: u16 = if pressed[0] { PlayerInput::ATTACK } else { 0 };  // A / Cross
    let special: u16 = if pressed[1] { PlayerInput::SPECIAL } else { 0 };  // B / Circle
    let grab: u16 = if pressed[2] { PlayerInput::GRAB } else { 0 };  // X / Square
    let smash: u16 = if pressed[3] { PlayerInput::SMASH } else { 0 };  // Y / Triangle
    let shield: u16 = if pressed[5] { PlayerInput::SHIELD } else { 0 };  // RB / R1
    // D-pad
    let pad_up: u16 = if pressed[12] { PlayerInput::UP } else { 0 };
    let pad_down: u16 = if pressed[13] { PlayerInput::DOWN } else { 0 };
    let pad_left: u16 = if pressed[14] { PlayerInput::LEFT } else { 0 };
    let pad_right: u16 = if pressed[15] { PlayerInput::RIGHT } else { 0 };
    left | right | up | down | attack | special | grab | smash | shield | pad_up | pad_down
        | pad_left | pad_right
}

/// A player's input: keyboard and gamepad, and for player 0 on a touch
/// device the on-screen controls too.
pub fn combined_input(player: usize, keyboard: u16, gamepad: u16, touch: u16, is_touch_device: bool) -> (r:
    PlayerInput)
    ensures
        r == PlayerInput(
            keyboard | gamepad | (if player == 0 && is_touch_device {
                touch
            } else {
                0
            }),
        ),
{
    let mut bits: u16 = 0;
    bits |= keyboard;
    bits |= gamepad;
    if player == 0 && is_touch_device {
        bits |= touch;
    }
    proof {
        assert(0u16 | keyboard == keyboard) by (bit_vector);
        assert((keyboard | gamepad) | 0u16 == keyboard | gamepad) by (bit_vector);
    }
    PlayerInput(bits)
}

/// Gamepads in connection order: the first is player 1's, the second
/// player 2's.
pub fn assign_gamepads(connected: &Vec<u32>) -> (r: (Option<u32>, Option<u32>))
    ensures
        r.0 == (if connected@.len() > 0 {
            Some(connected@[0])
        } else {
            None::<u32>
        }),
        r.1 == (if connected@.len() > 1 {
            Some(connected@[1])
        } else {
            None::<u32>
        }),
{
    let first = if connected.len() > 0 {
        Some(connected[0])
    } else {
        None
    };
    let second = if connected.len() > 1 {
        Some(connected[1])
    } else {
        None
    };
    (first, second)
}

/// Whose gamepad drives the menus: player 1's if assigned, else player
/// 2's, else none.
pub fn menu_pad_player(p1_pad: Option<u32>, p2_pad: Option<u32>) -> (r: Option<usize>)
    ensures
        r == (if p1_pad is Some {
            Some(0usize)
        } else if p2_pad is Some {
            Some(1usize)
        } else {
            None
        }),
{
    // Check P1 gamepad first, then any connected
    if p1_pad.is_some() {
        Some(0)
    } else if p2_pad.is_some() {
        Some(1)
    } else {
        None
    }
}

// ---------------------------------------------------------------------------
// Menu presses
// ---------------------------------------------------------------------------

/// Buttons that were just pressed this frame (not held from last frame).
/// Used for menu navigation where we want single-press, not repeat.
#[derive(Clone, Copy, Debug, Default, PartialEq, Eq, Structural)]
pub struct MenuInput {
    pub left: bool,
    pub right: bool,
    pub up: bool,
    pub down: bool,
    pub confirm: bool,  // A button / attack
    pub back: bool,  // B button / special
}

/// The menu presses of the buttons down now but not on the previous frame.
pub open spec fn spec_menu_edges(current: u16, previous: u16) -> MenuInput {
    let just = current & !previous;
    MenuInput {
        left: just & PlayerInput::LEFT != 0,
        right: just & PlayerInput::RIGHT != 0,
        up: just & PlayerInput::UP != 0,
        down: just & PlayerInput::DOWN != 0,
        confirm: just & PlayerInput::ATTACK != 0,
        back: just & PlayerInput::SPECIAL != 0,
    }
}

pub fn menu_edges(current: u16, previous: u16) -> (r: MenuInput)
    ensures
        r == spec_menu_edges(current, previous),
{
    let just = current & !previous;
    MenuInput {
        left: just & PlayerInput::LEFT != 0,
        right: just & PlayerInput::RIGHT != 0,
        up: just & PlayerInput::UP != 0,
        down: just & PlayerInput::DOWN != 0,
        confirm: just & PlayerInput::ATTACK != 0,
        back: just & PlayerInput::SPECIAL != 0,
    }
}

// ---------------------------------------------------------------------------
// Key names
// ---------------------------------------------------------------------------

/// Whether two texts are the same.
pub(crate) fn same_text(a: &str, b: &str) -> (r: bool)
    ensures
        r == (a@ == b@),
{
    let n = a.unicode_len();
    if n != b.unicode_len() {
        return false;
    }
    let mut j: usize = 0;
    while j < n
        invariant
            j <= n,
            n == a@.len(),
            n == b@.len(),
            a@.take(j as int) == b@.take(j as int),
        decreases n - j,
    {
        if a.get_char(j) != b.get_char(j) {
            return false;
        }
        j += 1;
        assert(a@.take(j as int) =~= b@.take(j as int));
    }
    assert(a@.take(n as int) =~= a@);
    assert(b@.take(n as int) =~= b@);
    true
}

/// The short name shown for a key: named keys abbreviated, others as they
/// are.
pub open spec fn spec_key_display(key: Seq<char>) -> Seq<char> {
    if key == " "@ {
        "SPACE"@
    } else if key == "ArrowLeft"@ {
        "LEFT"@
    } else if key == "ArrowRight"@ {
        "RIGHT"@
    } else if key == "ArrowUp"@ {
        "UP"@
    } else if key == "ArrowDown"@ {
        "DOWN"@
    } else if key == "Escape"@ {
        "ESC"@
    } else if key == "Shift"@ {
        "SHIFT"@
    } else if key == "Control"@ {
        "CTRL"@
    } else if key == "Alt"@ {
        "ALT"@
    } else if key == "Enter"@ {
        "ENTER"@
    } else if key == "Backspace"@ {
        "BKSP"@
    } else if key == "Tab"@ {
        "TAB"@
    } else {
        key
    }
}

/// Get display name for a key
pub fn key_display<'a>(key: &'a str) -> (r: &'a str)
    ensures
        r@ == spec_key_display(key@),
{
    if same_text(key, " ") {
        "SPACE"
    } else if same_text(key, "ArrowLeft") {
        "LEFT"
    } else if same_text(key, "ArrowRight") {
        "RIGHT"
    } else if same_text(key, "ArrowUp") {
        "UP"
    } else if same_text(key, "ArrowDown") {
        "DOWN"
    } else if same_text(key, "Escape") {
        "ESC"
    } else if same_text(key, "Shift") {
        "SHIFT"
    } else if same_text(key, "Control") {
        "CTRL"
    } else if same_text(key, "Alt") {
        "ALT"
    } else if same_text(key, "Enter") {
        "ENTER"
    } else if same_text(key, "Backspace") {
        "BKSP"
    } else if same_text(key, "Tab") {
        "TAB"
    } else {
        key
    }
}

} // verus!
