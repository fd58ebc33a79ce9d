//! Screen control from the keyboard: the keys that move between screens,
//! pick characters, rebind actions and restart matches.
use vstd::prelude::*;

use crate::bindings::KeyBindings;
use crate::input::{same_text, ACTION_ATTACK, ACTION_LEFT, ACTION_RIGHT};
use crate::menu::{
    menu_wf, open_settings, p1_next, p1_prev, p1_toggle, p2_next, p2_prev, p2_toggle,
    start_local, start_online, GameMode, MenuAction, MenuState, Nav, Screen, CHAR_COUNT,
};

verus! {

/// A text in lower case, as `str::to_lowercase` maps it (Unicode's case
/// mapping, which depends on the text alone).
pub uninterp spec fn lowercase(s: Seq<char>) -> Seq<char>;

/// `str::to_lowercase`: the text in lower case. Unicode's case mapping
/// takes tables to state, so the result is only named, by `lowercase`.
#[verifier::external_body]
fn to_lower(s: &str) -> (r: String)
    ensures
        r@ == lowercase(s@),
{
    s.to_lowercase()
}

/// The key restarts: `r` or `R`.
pub open spec fn is_restart_key(key: Seq<char>) -> bool {
    key == "r"@ || key == "R"@
}

/// `1` to `9` name the action slots 0 to 8.
pub open spec fn digit_slot(key: Seq<char>) -> Option<u8> {
    if key.len() == 1 && '1' <= key[0] <= '9' {
        Some((key[0] as int - '1' as int) as u8)
    } else {
        None
    }
}

/// `F1` to `F9` name the action slots 0 to 8.
pub open spec fn function_slot(key: Seq<char>) -> Option<u8> {
    if key.len() == 2 && key[0] == 'F' && '1' <= key[1] <= '9' {
        Some((key[1] as int - '1' as int) as u8)
    } else {
        None
    }
}

/// Settings: while an action waits for a key, the key pressed becomes its
/// binding (Escape cancels). Otherwise Escape saves and leaves, `r`
/// restores the defaults, `1`-`9` pick one of player 1's actions to rebind
/// and `F1`-`F9` one of player 2's.
pub open spec fn settings_key(s: MenuState, key: Seq<char>) -> Nav {
    match s.rebind_target {
        Some(target) => (
            MenuState { rebind_target: None, ..s },
            if key != "Escape"@ {
                seq![MenuAction::Rebind { player: target.0, action: target.1 }]
            } else {
                Seq::empty()
            },
        ),
        None => if key == "Escape"@ {
            (MenuState { screen: Screen::MainMenu, ..s }, seq![MenuAction::SaveBindings])
        } else if is_restart_key(key) {
            (s, seq![MenuAction::ResetBindings])
        } else if digit_slot(key) is Some {
            (
                MenuState { rebind_target: Some((0usize, digit_slot(key)->0)), ..s },
                Seq::empty(),
            )
        } else if function_slot(key) is Some {
            (
                MenuState { rebind_target: Some((1usize, function_slot(key)->0)), ..s },
                seq![MenuAction::PreventDefault],
            )
        } else {
            (s, Seq::empty())
        },
    }
}

/// Character select: player 1's left, right and attack keys (matched
/// without regard to case) cycle and ready their pick; when local, player
/// 2's keys (matched exactly) do the same for theirs.
pub open spec fn char_select_pick(
    n: Nav,
    key: Seq<char>,
    p1: Seq<Seq<char>>,
    p2: Seq<Seq<char>>,
    online: bool,
) -> Nav {
    let kl = lowercase(key);
    if kl == lowercase(p1[ACTION_LEFT as int]) {
        p1_prev(n, online)
    } else if kl == lowercase(p1[ACTION_RIGHT as int]) {
        p1_next(n, online)
    } else if kl == lowercase(p1[ACTION_ATTACK as int]) {
        p1_toggle(n, online)
    } else if !online {
        if key == p2[ACTION_LEFT as int] {
            p2_prev(n)
        } else if key == p2[ACTION_RIGHT as int] {
            p2_next(n)
        } else if key == p2[ACTION_ATTACK as int] {
            p2_toggle(n)
        } else {
            n
        }
    } else {
        n
    }
}

/// Character select: picking, then Escape backs out (to the lobby when
/// online) and nobody is ready; a local match starts once both are ready.
pub open spec fn char_select_key(
    s: MenuState,
    key: Seq<char>,
    p1: Seq<Seq<char>>,
    p2: Seq<Seq<char>>,
) -> Nav {
    let online = s.mode == GameMode::Online;
    let n1 = char_select_pick((s, Seq::empty()), key, p1, p2, online);
    let n2 = if key == "Escape"@ {
        (
            MenuState {
                screen: if online {
                    Screen::OnlineLobby
                } else {
                    Screen::MainMenu
                },
                p1_ready: false,
                p2_ready: false,
                ..n1.0
            },
            n1.1,
        )
    } else {
        n1
    };
    if !online && n2.0.p1_ready && n2.0.p2_ready {
        (MenuState { screen: Screen::Fighting, ..n2.0 }, n2.1.push(MenuAction::StartGame))
    } else {
        n2
    }
}

/// What a key press does on each screen (the fight itself reads held keys
/// elsewhere).
pub open spec fn spec_menu_key(
    s: MenuState,
    key: Seq<char>,
    p1: Seq<Seq<char>>,
    p2: Seq<Seq<char>>,
) -> Nav {
    let n: Nav = (s, Seq::empty());
    match s.screen {
        Screen::MainMenu => if key == "1"@ {
            start_local(n)
        } else if key == "2"@ {
            start_online(n)
        } else if key == "3"@ {
            open_settings(n)
        } else {
            n
        },
        Screen::Settings => settings_key(s, key),
        Screen::OnlineLobby => if key == "Escape"@ {
            (MenuState { screen: Screen::MainMenu, ..s }, seq![MenuAction::CloseNetwork])
        } else {
            n
        },
        Screen::CharSelect => char_select_key(s, key, p1, p2),
        Screen::GameOver => if is_restart_key(key) {
            if s.mode == GameMode::Online {
                (
                    MenuState { screen: Screen::MainMenu, p1_ready: false, p2_ready: false, ..s },
                    seq![MenuAction::EndOnlineMatch],
                )
            } else {
                (
                    MenuState { screen: Screen::CharSelect, p1_ready: false, p2_ready: false, ..s },
                    Seq::empty(),
                )
            }
        } else {
            n
        },
        Screen::Fighting => if is_restart_key(key) && s.mode == GameMode::Local {
            (s, seq![MenuAction::StartGame])
        } else {
            n
        },
    }
}

fn is_restart(key: &str) -> (r: bool)
    ensures
        r == is_restart_key(key@),
{
    same_text(key, "r") || same_text(key, "R")
}

fn digit_of(key: &str) -> (r: Option<u8>)
    ensures
        r == digit_slot(key@),
{
    if key.unicode_len() == 1 {
        let c = key.get_char(0);
        if '1' <= c && c <= '9' {
            return Some((c as u32 - '1' as u32) as u8);
        }
    }
    None
}

fn function_key_of(key: &str) -> (r: Option<u8>)
    ensures
        r == function_slot(key@),
{
    if key.unicode_len() == 2 {
        let f = key.get_char(0);
        let c = key.get_char(1);
        if f == 'F' && '1' <= c && c <= '9' {
            return Some((c as u32 - '1' as u32) as u8);
        }
    }
    None
}

fn settings_key_exec(s: &mut MenuState, key: &str) -> (r: Vec<MenuAction>)
    requires
        old(s).screen == Screen::Settings,
    ensures
        (*final(s), r@) == settings_key(*old(s), key@),
{
    let mut acts: Vec<MenuAction> = Vec::new();
    if let Some((player, action)) = s.rebind_target {
        // Capture this key as the new binding
        if !same_text(key, "Escape") {
            acts.push(MenuAction::Rebind { player, action });
        }
        s.rebind_target = None;
    } else if same_text(key, "Escape") {
        acts.push(MenuAction::SaveBindings);
        s.screen = Screen::MainMenu;
    } else if is_restart(key) {
        acts.push(MenuAction::ResetBindings);
    } else if let Some(d) = digit_of(key) {
        s.rebind_target = Some((0, d));
    } else if let Some(d) = function_key_of(key) {
        acts.push(MenuAction::PreventDefault);
        s.rebind_target = Some((1, d));
    }
    proof {
        assert(acts@ =~= settings_key(*old(s), key@).1);
    }
    acts
}

fn p1_pick(s: &mut MenuState, acts: &mut Vec<MenuAction>, prev: bool, online: bool)
    requires
        menu_wf(*old(s)),
    ensures
        (*final(s), final(acts)@) == (if prev {
            p1_prev((*old(s), old(acts)@), online)
        } else {
            p1_next((*old(s), old(acts)@), online)
        }),
        menu_wf(*final(s)),
{
    if !s.p1_ready {
        if prev {
            s.p1_char_idx = (s.p1_char_idx + CHAR_COUNT - 1) % CHAR_COUNT;
        } else {
            s.p1_char_idx = (s.p1_char_idx + 1) % CHAR_COUNT;
        }
        if online {
            acts.push(MenuAction::SendCharSelect { index: s.p1_char_idx as u8, ready: false });
        }
    }
}

fn char_select_pick_exec(
    s: &mut MenuState,
    key: &str,
    p1: &KeyBindings,
    p2: &KeyBindings,
    online: bool,
) -> (r: Vec<MenuAction>)
    requires
        menu_wf(*old(s)),
    ensures
        (*final(s), r@) == char_select_pick((*old(s), Seq::empty()), key@, p1@, p2@, online),
        menu_wf(*final(s)),
{
    let mut acts: Vec<MenuAction> = Vec::new();
    // Use P1 LEFT/RIGHT/ATTACK bindings for char select navigation
    let key_lower = to_lower(key);
    let p1_left_lower = to_lower(p1.keys[ACTION_LEFT as usize].as_str());
    let p1_right_lower = to_lower(p1.keys[ACTION_RIGHT as usize].as_str());
    let p1_attack_lower = to_lower(p1.keys[ACTION_ATTACK as usize].as_str());
    if key_lower == p1_left_lower {
        p1_pick(s, &mut acts, true, online);
    } else if key_lower == p1_right_lower {
        p1_pick(s, &mut acts, false, online);
    } else if key_lower == p1_attack_lower {
        s.p1_ready = !s.p1_ready;
        if online {
            acts.push(MenuAction::SendCharSelect { index: s.p1_char_idx as u8, ready: s.p1_ready });
        }
    } else if !online {
        // P2 char select (local only)
        if same_text(key, p2.keys[ACTION_LEFT as usize].as_str()) {
            if !s.p2_ready {
                s.p2_char_idx = (s.p2_char_idx + CHAR_COUNT - 1) % CHAR_COUNT;
            }
        } else if same_text(key, p2.keys[ACTION_RIGHT as usize].as_str()) {
            if !s.p2_ready {
                s.p2_char_idx = (s.p2_char_idx + 1) % CHAR_COUNT;
            }
        } else if same_text(key, p2.keys[ACTION_ATTACK as usize].as_str()) {
            s.p2_ready = !s.p2_ready;
        }
    }
    acts
}

fn char_select_key_exec(s: &mut MenuState, key: &str, p1: &KeyBindings, p2: &KeyBindings) -> (r:
    Vec<MenuAction>)
    requires
        menu_wf(*old(s)),
        old(s).screen == Screen::CharSelect,
    ensures
        (*final(s), r@) == char_select_key(*old(s), key@, p1@, p2@),
        menu_wf(*final(s)),
{
    let is_online = s.mode == GameMode::Online;
    let mut acts = char_select_pick_exec(s, key, p1, p2, is_online);
    if same_text(key, "Escape") {
        if is_online {
            s.screen = Screen::OnlineLobby;
        } else {
            s.screen = Screen::MainMenu;
        }
        s.p1_ready = false;
        s.p2_ready = false;
    }
    if !is_online && s.p1_ready && s.p2_ready {
        s.screen = Screen::Fighting;
        acts.push(MenuAction::StartGame);
    }
    acts
}

/// Handle a key press on the screens around the fight: the main menu
/// (`1` local, `2` online, `3` settings), the settings (rebinding), the
/// lobby and character select (Escape backs out), and after a match
/// (`r` goes on, or restarts a local fight).
pub fn menu_key(state: &mut MenuState, key: &str, p1: &KeyBindings, p2: &KeyBindings) -> (r: Vec<
    MenuAction,
>)
    requires
        menu_wf(*old(state)),
    ensures
        (*final(state), r@) == spec_menu_key(*old(state), key@, p1@, p2@),
        menu_wf(*final(state)),
{
    let mut acts: Vec<MenuAction> = Vec::new();
    match state.screen {
        Screen::MainMenu => {
            if same_text(key, "1") {
                state.mode = GameMode::Local;
                state.screen = Screen::CharSelect;
                state.p1_ready = false;
                state.p2_ready = false;
                acts.push(MenuAction::StartLocal);
            } else if same_text(key, "2") {
                state.mode = GameMode::Online;
                state.screen = Screen::OnlineLobby;
                state.p1_ready = false;
                state.p2_ready = false;
                acts.push(MenuAction::StartOnline);
            } else if same_text(key, "3") {
                state.screen = Screen::Settings;
                state.rebind_target = None;
            }
        },
        Screen::Settings => {
            acts = settings_key_exec(state, key);
        },
        Screen::OnlineLobby => {
            if same_text(key, "Escape") {
                acts.push(MenuAction::CloseNetwork);
                state.screen = Screen::MainMenu;
            }
        },
        Screen::CharSelect => {
            acts = char_select_key_exec(state, key, p1, p2);
        },
        Screen::GameOver => {
            if is_restart(key) {
                if state.mode == GameMode::Online {
                    state.screen = Screen::MainMenu;
                    acts.push(MenuAction::EndOnlineMatch);
                } else {
                    state.screen = Screen::CharSelect;
                }
                state.p1_ready = false;
                state.p2_ready = false;
            }
        },
        Screen::Fighting => {
            if is_restart(key) && state.mode == GameMode::Local {
                acts.push(MenuAction::StartGame);
            }
        },
    }
    proof {
        assert(acts@ =~= spec_menu_key(*old(state), key@, p1@, p2@).1);
    }
    acts
}

/// A ready player's pick stands: while a player is ready, no key changes
/// that player's character.
pub proof fn lemma_ready_pick_stands_key(
    s: MenuState,
    key: Seq<char>,
    p1: Seq<Seq<char>>,
    p2: Seq<Seq<char>>,
)
    ensures
        s.p1_ready ==> spec_menu_key(s, key, p1, p2).0.p1_char_idx == s.p1_char_idx,
        s.p2_ready ==> spec_menu_key(s, key, p1, p2).0.p2_char_idx == s.p2_char_idx,
{
}

} // verus!
