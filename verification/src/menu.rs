//! Menu navigation with a gamepad or touch: which screen the client shows,
//! the menu cursor, the character picks and readiness, and what the client
//! has to do in response (start a match, open or close the network, save
//! bindings, tell the peer about a pick).
use vstd::prelude::*;

use crate::input::MenuInput;
use crate::state::CharacterId;

verus! {

#[derive(Clone, Copy, Debug, PartialEq, Eq, Structural)]
pub enum Screen {
    MainMenu,
    Settings,
    CharSelect,
    OnlineLobby,
    Fighting,
    GameOver,
}

#[derive(Clone, Copy, Debug, PartialEq, Eq, Structural)]
pub enum GameMode {
    Local,
    Online,
}

/// The characters in selection order.
pub const CHAR_COUNT: usize = 3;

pub open spec fn spec_char_at(idx: int) -> CharacterId {
    if idx == 0 {
        CharacterId::Balanced
    } else if idx == 1 {
        CharacterId::Ranged
    } else {
        CharacterId::Rushdown
    }
}

pub fn char_at(idx: usize) -> (r: CharacterId)
    requires
        idx < CHAR_COUNT,
    ensures
        r == spec_char_at(idx as int),
{
    match idx {
        0 => CharacterId::Balanced,
        1 => CharacterId::Ranged,
        _ => CharacterId::Rushdown,
    }
}

/// The menu side of the client's state.
#[derive(Clone, Copy, Debug)]
pub struct MenuState {
    pub screen: Screen,
    pub mode: GameMode,
    pub p1_char_idx: usize,
    pub p2_char_idx: usize,
    pub p1_ready: bool,
    pub p2_ready: bool,
    /// Main menu item under the cursor: local (0), online (1), settings (2).
    pub menu_cursor: usize,
    /// (player_index, action_index) currently being rebound, None if not rebinding
    pub rebind_target: Option<(usize, u8)>,
    /// The player this client controls in an online match.
    pub local_player: usize,
}

/// Which on-screen areas were tapped this frame.
#[derive(Clone, Copy, Debug, Default, PartialEq, Eq, Structural)]
pub struct MenuTaps {
    /// Main menu items.
    pub local: bool,
    pub online: bool,
    pub settings: bool,
    /// "Back to Menu" on the settings screen.
    pub settings_back: bool,
    /// "Back" in the online lobby.
    pub lobby_back: bool,
    /// Character select arrows and ready areas.
    pub p1_left: bool,
    pub p1_right: bool,
    pub p1_ready: bool,
    pub p2_left: bool,
    pub p2_right: bool,
    pub p2_ready: bool,
    /// Anywhere at all.
    pub any: bool,
}

/// What the client does in response to menu navigation, in order.
#[derive(Clone, Copy, Debug, PartialEq, Eq, Structural)]
pub enum MenuAction {
    /// Drop any network and rollback state for a local match.
    StartLocal,
    /// Open the network connection for an online match.
    StartOnline,
    /// Store the key bindings.
    SaveBindings,
    /// Close the network connection.
    CloseNetwork,
    /// Close the network connection and drop the rollback state.
    EndOnlineMatch,
    /// Tell the peer our character pick and readiness.
    SendCharSelect { index: u8, ready: bool },
    /// Start the match with the picked characters.
    StartGame,
    /// Tell the peer to start the match as the given player.
    SendStartGame { remote_player: u8 },
    /// Bind the key just pressed to an action of a player.
    Rebind { player: usize, action: u8 },
    /// Restore the default key bindings.
    ResetBindings,
    /// Keep the browser from acting on the key just pressed.
    PreventDefault,
}

/// Indices in range; while picking characters online, this client is one
/// of the two players.
pub open spec fn menu_wf(s: MenuState) -> bool {
    &&& s.p1_char_idx < CHAR_COUNT
    &&& s.p2_char_idx < CHAR_COUNT
    &&& s.menu_cursor < 3
    &&& (s.mode == GameMode::Online && s.screen == Screen::CharSelect ==> s.local_player < 2)
}

impl MenuState {
    /// The state the client starts in: the main menu, a local match,
    /// the first character for both players.
    pub fn new() -> (r: Self)
        ensures
            menu_wf(r),
            r == (MenuState {
                screen: Screen::MainMenu,
                mode: GameMode::Local,
                p1_char_idx: 0,
                p2_char_idx: 0,
                p1_ready: false,
                p2_ready: false,
                menu_cursor: 0,
                rebind_target: None,
                local_player: 0,
            }),
    {
        MenuState {
            screen: Screen::MainMenu,
            mode: GameMode::Local,
            p1_char_idx: 0,
            p2_char_idx: 0,
            p1_ready: false,
            p2_ready: false,
            menu_cursor: 0,
            rebind_target: None,
            local_player: 0,
        }
    }
}

pub open spec fn spec_char_name(id: CharacterId) -> Seq<char> {
    match id {
        CharacterId::Balanced => "BALANCED"@,
        CharacterId::Ranged => "RANGED"@,
        CharacterId::Rushdown => "RUSHDOWN"@,
    }
}

/// The name shown for a character.
pub fn char_name(id: CharacterId) -> (r: &'static str)
    ensures
        r@ == spec_char_name(id),
{
    match id {
        CharacterId::Balanced => "BALANCED",
        CharacterId::Ranged => "RANGED",
        CharacterId::Rushdown => "RUSHDOWN",
    }
}

pub open spec fn spec_char_desc(id: CharacterId) -> Seq<char> {
    match id {
        CharacterId::Balanced => "Medium speed, medium weight. Well-rounded."@,
        CharacterId::Ranged => "Slower, more projectiles. Controls space."@,
        CharacterId::Rushdown => "Fast, light. Aggressive pressure."@,
    }
}

/// The one-line description shown for a character.
pub fn char_desc(id: CharacterId) -> (r: &'static str)
    ensures
        r@ == spec_char_desc(id),
{
    match id {
        CharacterId::Balanced => "Medium speed, medium weight. Well-rounded.",
        CharacterId::Ranged => "Slower, more projectiles. Controls space.",
        CharacterId::Rushdown => "Fast, light. Aggressive pressure.",
    }
}

pub open spec fn prev_index(i: usize, n: usize) -> usize {
    ((i + n - 1) % (n as int)) as usize
}

pub open spec fn next_index(i: usize, n: usize) -> usize {
    ((i + 1) % (n as int)) as usize
}

/// The state of navigation: menu state and the actions so far.
pub type Nav = (MenuState, Seq<MenuAction>);

pub open spec fn start_local(n: Nav) -> Nav {
    (
        MenuState {
            mode: GameMode::Local,
            screen: Screen::CharSelect,
            p1_ready: false,
            p2_ready: false,
            ..n.0
        },
        n.1.push(MenuAction::StartLocal),
    )
}

pub open spec fn start_online(n: Nav) -> Nav {
    (
        MenuState {
            mode: GameMode::Online,
            screen: Screen::OnlineLobby,
            p1_ready: false,
            p2_ready: false,
            ..n.0
        },
        n.1.push(MenuAction::StartOnline),
    )
}

pub open spec fn open_settings(n: Nav) -> Nav {
    (MenuState { screen: Screen::Settings, rebind_target: None, ..n.0 }, n.1)
}

/// Back to the main menu with the cursor on the first item.
pub open spec fn to_main_menu(n: Nav) -> Nav {
    (MenuState { screen: Screen::MainMenu, menu_cursor: 0, ..n.0 }, n.1)
}

/// The main menu: up and down move the cursor (wrapping), confirm picks
/// the item under it, and tapping an item picks it.
pub open spec fn spec_main_menu(n: Nav, menu: MenuInput, taps: MenuTaps) -> Nav {
    let c0 = n.0.menu_cursor;
    let c1 = if menu.up {
        prev_index(c0, 3)
    } else {
        c0
    };
    let c2 = if menu.down {
        next_index(c1, 3)
    } else {
        c1
    };
    let n1: Nav = (MenuState { menu_cursor: c2, ..n.0 }, n.1);
    let n2 = if menu.confirm {
        if c2 == 0 {
            start_local(n1)
        } else if c2 == 1 {
            start_online(n1)
        } else if c2 == 2 {
            open_settings(n1)
        } else {
            n1
        }
    } else {
        n1
    };
    let n3 = if taps.local {
        start_local(n2)
    } else {
        n2
    };
    let n4 = if taps.online {
        start_online(n3)
    } else {
        n3
    };
    if taps.settings {
        open_settings(n4)
    } else {
        n4
    }
}

/// Leaving the settings: the bindings are saved.
pub open spec fn leave_settings(n: Nav) -> Nav {
    to_main_menu((n.0, n.1.push(MenuAction::SaveBindings)))
}

/// Leaving the lobby: the connection is closed.
pub open spec fn leave_lobby(n: Nav) -> Nav {
    to_main_menu((n.0, n.1.push(MenuAction::CloseNetwork)))
}

/// Player 1 picks the previous character (unless ready), telling the peer
/// when online.
pub open spec fn p1_prev(n: Nav, online: bool) -> Nav {
    if n.0.p1_ready {
        n
    } else {
        let i = prev_index(n.0.p1_char_idx, CHAR_COUNT);
        (
            MenuState { p1_char_idx: i, ..n.0 },
            if online {
                n.1.push(MenuAction::SendCharSelect { index: i as u8, ready: false })
            } else {
                n.1
            },
        )
    }
}

/// Player 1 picks the next character (unless ready), telling the peer when
/// online.
pub open spec fn p1_next(n: Nav, online: bool) -> Nav {
    if n.0.p1_ready {
        n
    } else {
        let i = next_index(n.0.p1_char_idx, CHAR_COUNT);
        (
            MenuState { p1_char_idx: i, ..n.0 },
            if online {
                n.1.push(MenuAction::SendCharSelect { index: i as u8, ready: false })
            } else {
                n.1
            },
        )
    }
}

/// Player 1 toggles readiness, telling the peer when online.
pub open spec fn p1_toggle(n: Nav, online: bool) -> Nav {
    let ready = !n.0.p1_ready;
    (
        MenuState { p1_ready: ready, ..n.0 },
        if online {
            n.1.push(MenuAction::SendCharSelect { index: n.0.p1_char_idx as u8, ready })
        } else {
            n.1
        },
    )
}

pub open spec fn p2_prev(n: Nav) -> Nav {
    if n.0.p2_ready {
        n
    } else {
        (MenuState { p2_char_idx: prev_index(n.0.p2_char_idx, CHAR_COUNT), ..n.0 }, n.1)
    }
}

pub open spec fn p2_next(n: Nav) -> Nav {
    if n.0.p2_ready {
        n
    } else {
        (MenuState { p2_char_idx: next_index(n.0.p2_char_idx, CHAR_COUNT), ..n.0 }, n.1)
    }
}

pub open spec fn p2_toggle(n: Nav) -> Nav {
    (MenuState { p2_ready: !n.0.p2_ready, ..n.0 }, n.1)
}

/// Backing out of character select: to the lobby when online, else to the
/// main menu; nobody is ready any more.
pub open spec fn leave_char_select(n: Nav, online: bool) -> Nav {
    let n1 = if online {
        (MenuState { screen: Screen::OnlineLobby, ..n.0 }, n.1)
    } else {
        to_main_menu(n)
    };
    (MenuState { p1_ready: false, p2_ready: false, ..n1.0 }, n1.1)
}

/// Character select, gamepad: left/right cycle player 1's pick, confirm
/// toggles readiness, back leaves.
pub open spec fn char_select_buttons(n: Nav, menu: MenuInput, online: bool) -> Nav {
    let n1 = if menu.left {
        p1_prev(n, online)
    } else {
        n
    };
    let n2 = if menu.right {
        p1_next(n1, online)
    } else {
        n1
    };
    let n3 = if menu.confirm {
        p1_toggle(n2, online)
    } else {
        n2
    };
    if menu.back {
        leave_char_select(n3, online)
    } else {
        n3
    }
}

/// Character select, touch: player 1's arrows and ready area.
pub open spec fn p1_taps(n: Nav, taps: MenuTaps, online: bool) -> Nav {
    let n1 = if taps.p1_left {
        p1_prev(n, online)
    } else {
        n
    };
    let n2 = if taps.p1_right {
        p1_next(n1, online)
    } else {
        n1
    };
    if taps.p1_ready {
        p1_toggle(n2, online)
    } else {
        n2
    }
}

/// Character select, touch: player 2's arrows and ready area (local only).
pub open spec fn p2_taps(n: Nav, taps: MenuTaps, online: bool) -> Nav {
    let n1 = if !online && taps.p2_left {
        p2_prev(n)
    } else {
        n
    };
    let n2 = if !online && taps.p2_right {
        p2_next(n1)
    } else {
        n1
    };
    if !online && taps.p2_ready {
        p2_toggle(n2)
    } else {
        n2
    }
}

/// Character select, touch: the arrows and ready areas, for both players
/// when local.
pub open spec fn char_select_taps(n: Nav, taps: MenuTaps, online: bool) -> Nav {
    p2_taps(p1_taps(n, taps, online), taps, online)
}

/// Character select: gamepad, then touch; a local match starts once both
/// players are ready.
pub open spec fn spec_char_select(n: Nav, menu: MenuInput, taps: MenuTaps) -> Nav {
    let online = n.0.mode == GameMode::Online;
    let n1 = char_select_taps(char_select_buttons(n, menu, online), taps, online);
    if !online && n1.0.p1_ready && n1.0.p2_ready {
        (MenuState { screen: Screen::Fighting, ..n1.0 }, n1.1.push(MenuAction::StartGame))
    } else {
        n1
    }
}

/// After a match: online back to the main menu (closing the connection),
/// local back to character select; nobody is ready any more.
pub open spec fn continue_after_match(n: Nav) -> Nav {
    let n1 = if n.0.mode == GameMode::Online {
        (MenuState { screen: Screen::MainMenu, ..n.0 }, n.1.push(MenuAction::EndOnlineMatch))
    } else {
        (MenuState { screen: Screen::CharSelect, ..n.0 }, n.1)
    };
    (MenuState { p1_ready: false, p2_ready: false, menu_cursor: 0, ..n1.0 }, n1.1)
}

/// Gamepad and touch navigation on a screen other than the fight.
pub open spec fn spec_menu_nav(s: MenuState, menu: MenuInput, taps: MenuTaps) -> Nav {
    let n: Nav = (s, Seq::empty());
    match s.screen {
        Screen::MainMenu => spec_main_menu(n, menu, taps),
        Screen::Settings => {
            let n1 = if menu.back {
                leave_settings(n)
            } else {
                n
            };
            if taps.settings_back {
                leave_settings(n1)
            } else {
                n1
            }
        },
        Screen::OnlineLobby => {
            let n1 = if menu.back {
                leave_lobby(n)
            } else {
                n
            };
            if taps.lobby_back {
                leave_lobby(n1)
            } else {
                n1
            }
        },
        Screen::CharSelect => spec_char_select(n, menu, taps),
        Screen::GameOver => {
            let n1 = if menu.confirm {
                continue_after_match(n)
            } else {
                n
            };
            if taps.any {
                continue_after_match(n1)
            } else {
                n1
            }
        },
        Screen::Fighting => n,
    }
}

fn do_start_local(s: &mut MenuState, acts: &mut Vec<MenuAction>)
    ensures
        (*final(s), final(acts)@) == start_local((*old(s), old(acts)@)),
{
    s.mode = GameMode::Local;
    s.screen = Screen::CharSelect;
    s.p1_ready = false;
    s.p2_ready = false;
    acts.push(MenuAction::StartLocal);
}

fn do_start_online(s: &mut MenuState, acts: &mut Vec<MenuAction>)
    ensures
        (*final(s), final(acts)@) == start_online((*old(s), old(acts)@)),
{
    s.mode = GameMode::Online;
    s.screen = Screen::OnlineLobby;
    s.p1_ready = false;
    s.p2_ready = false;
    acts.push(MenuAction::StartOnline);
}

fn do_open_settings(s: &mut MenuState)
    ensures
        *final(s) == open_settings((*old(s), Seq::<MenuAction>::empty())).0,
{
    s.screen = Screen::Settings;
    s.rebind_target = None;
}

fn main_menu(s: &mut MenuState, acts: &mut Vec<MenuAction>, menu: &MenuInput, taps: &MenuTaps)
    requires
        menu_wf(*old(s)),
    ensures
        (*final(s), final(acts)@) == spec_main_menu((*old(s), old(acts)@), *menu, *taps),
        menu_wf(*final(s)),
{
    // 3 items: Local(0), Online(1), Settings(2)
    let item_count: usize = 3;
    if menu.up {
        s.menu_cursor = (s.menu_cursor + item_count - 1) % item_count;
    }
    if menu.down {
        s.menu_cursor = (s.menu_cursor + 1) % item_count;
    }
    if menu.confirm {
        match s.menu_cursor {
            0 => do_start_local(s, acts),
            1 => do_start_online(s, acts),
            2 => do_open_settings(s),
            _ => {},
        }
    }
    // Touch: tap on menu items
    if taps.local {
        do_start_local(s, acts);
    }
    if taps.online {
        do_start_online(s, acts);
    }
    if taps.settings {
        do_open_settings(s);
    }
}

fn do_leave_settings(s: &mut MenuState, acts: &mut Vec<MenuAction>)
    ensures
        (*final(s), final(acts)@) == leave_settings((*old(s), old(acts)@)),
{
    acts.push(MenuAction::SaveBindings);
    s.screen = Screen::MainMenu;
    s.menu_cursor = 0;
}

fn do_leave_lobby(s: &mut MenuState, acts: &mut Vec<MenuAction>)
    ensures
        (*final(s), final(acts)@) == leave_lobby((*old(s), old(acts)@)),
{
    acts.push(MenuAction::CloseNetwork);
    s.screen = Screen::MainMenu;
    s.menu_cursor = 0;
}

fn do_p1_prev(s: &mut MenuState, acts: &mut Vec<MenuAction>, online: bool)
    requires
        menu_wf(*old(s)),
    ensures
        (*final(s), final(acts)@) == p1_prev((*old(s), old(acts)@), online),
        menu_wf(*final(s)),
{
    if !s.p1_ready {
        s.p1_char_idx = (s.p1_char_idx + CHAR_COUNT - 1) % CHAR_COUNT;
        if online {
            acts.push(MenuAction::SendCharSelect { index: s.p1_char_idx as u8, ready: false });
        }
    }
}

fn do_p1_next(s: &mut MenuState, acts: &mut Vec<MenuAction>, online: bool)
    requires
        menu_wf(*old(s)),
    ensures
        (*final(s), final(acts)@) == p1_next((*old(s), old(acts)@), online),
        menu_wf(*final(s)),
{
    if !s.p1_ready {
        s.p1_char_idx = (s.p1_char_idx + 1) % CHAR_COUNT;
        if online {
            acts.push(MenuAction::SendCharSelect { index: s.p1_char_idx as u8, ready: false });
        }
    }
}

fn do_p1_toggle(s: &mut MenuState, acts: &mut Vec<MenuAction>, online: bool)
    ensures
        (*final(s), final(acts)@) == p1_toggle((*old(s), old(acts)@), online),
{
    s.p1_ready = !s.p1_ready;
    if online {
        acts.push(MenuAction::SendCharSelect { index: s.p1_char_idx as u8, ready: s.p1_ready });
    }
}

fn do_leave_char_select(s: &mut MenuState, online: bool)
    ensures
        *final(s) == leave_char_select((*old(s), Seq::<MenuAction>::empty()), online).0,
{
    if online {
        s.screen = Screen::OnlineLobby;
    } else {
        s.screen = Screen::MainMenu;
        s.menu_cursor = 0;
    }
    s.p1_ready = false;
    s.p2_ready = false;
}

fn char_select_gamepad(s: &mut MenuState, acts: &mut Vec<MenuAction>, menu: &MenuInput, online: bool)
    requires
        menu_wf(*old(s)),
        old(s).mode == GameMode::Online <==> online,
    ensures
        (*final(s), final(acts)@) == char_select_buttons((*old(s), old(acts)@), *menu, online),
        menu_wf(*final(s)),
        final(s).mode == old(s).mode,
{
    // Gamepad: left/right to cycle char, confirm to ready
    if menu.left {
        do_p1_prev(s, acts, online);
    }
    if menu.right {
        do_p1_next(s, acts, online);
    }
    if menu.confirm {
        do_p1_toggle(s, acts, online);
    }
    if menu.back {
        do_leave_char_select(s, online);
    }
}

fn char_select_p1_touch(s: &mut MenuState, acts: &mut Vec<MenuAction>, taps: &MenuTaps, online: bool)
    requires
        menu_wf(*old(s)),
    ensures
        (*final(s), final(acts)@) == p1_taps((*old(s), old(acts)@), *taps, online),
        menu_wf(*final(s)),
        final(s).mode == old(s).mode,
{
    // Touch: tap arrows and ready area
    if taps.p1_left {
        do_p1_prev(s, acts, online);
    }
    if taps.p1_right {
        do_p1_next(s, acts, online);
    }
    if taps.p1_ready {
        do_p1_toggle(s, acts, online);
    }
}

fn char_select_p2_touch(s: &mut MenuState, taps: &MenuTaps, online: bool)
    requires
        menu_wf(*old(s)),
    ensures
        *final(s) == p2_taps((*old(s), Seq::<MenuAction>::empty()), *taps, online).0,
        menu_wf(*final(s)),
        final(s).mode == old(s).mode,
{
    // P2 touch (local only)
    if !online {
        if taps.p2_left && !s.p2_ready {
            s.p2_char_idx = (s.p2_char_idx + CHAR_COUNT - 1) % CHAR_COUNT;
        }
        if taps.p2_right && !s.p2_ready {
            s.p2_char_idx = (s.p2_char_idx + 1) % CHAR_COUNT;
        }
        if taps.p2_ready {
            s.p2_ready = !s.p2_ready;
        }
    }
}

fn char_select(s: &mut MenuState, acts: &mut Vec<MenuAction>, menu: &MenuInput, taps: &MenuTaps)
    requires
        menu_wf(*old(s)),
    ensures
        (*final(s), final(acts)@) == spec_char_select((*old(s), old(acts)@), *menu, *taps),
        menu_wf(*final(s)),
{
    let is_online = s.mode == GameMode::Online;
    char_select_gamepad(s, acts, menu, is_online);
    char_select_p1_touch(s, acts, taps, is_online);
    char_select_p2_touch(s, taps, is_online);
    if !is_online && s.p1_ready && s.p2_ready {
        s.screen = Screen::Fighting;
        acts.push(MenuAction::StartGame);
    }
}

fn do_continue_after_match(s: &mut MenuState, acts: &mut Vec<MenuAction>)
    ensures
        (*final(s), final(acts)@) == continue_after_match((*old(s), old(acts)@)),
{
    if s.mode == GameMode::Online {
        s.screen = Screen::MainMenu;
        acts.push(MenuAction::EndOnlineMatch);
    } else {
        s.screen = Screen::CharSelect;
    }
    s.p1_ready = false;
    s.p2_ready = false;
    s.menu_cursor = 0;
}

/// Handle gamepad and touch navigation on non-fighting screens.
pub fn menu_nav(state: &mut MenuState, menu: &MenuInput, taps: &MenuTaps) -> (r: Vec<MenuAction>)
    requires
        menu_wf(*old(state)),
    ensures
        (*final(state), r@) == spec_menu_nav(*old(state), *menu, *taps),
        menu_wf(*final(state)),
{
    let mut acts: Vec<MenuAction> = Vec::new();
    match state.screen {
        Screen::MainMenu => main_menu(state, &mut acts, menu, taps),
        Screen::Settings => {
            if menu.back {
                do_leave_settings(state, &mut acts);
            }
            // Touch: tap "Back to Menu" area at bottom
            if taps.settings_back {
                do_leave_settings(state, &mut acts);
            }
        },
        Screen::OnlineLobby => {
            if menu.back {
                do_leave_lobby(state, &mut acts);
            }
            if taps.lobby_back {
                do_leave_lobby(state, &mut acts);
            }
        },
        Screen::CharSelect => char_select(state, &mut acts, menu, taps),
        Screen::GameOver => {
            if menu.confirm {
                do_continue_after_match(state, &mut acts);
            }
            // Touch: tap anywhere to continue
            if taps.any {
                do_continue_after_match(state, &mut acts);
            }
        },
        Screen::Fighting => {},  // handled by game loop
    }
    acts
}

/// A ready player's pick stands: while player 2 is ready, no button or tap
/// changes player 2's character, and while player 1 is ready neither does
/// anything but a confirm press; a confirm (for player 1) or back press
/// takes the readiness back first, so a tap in the same frame may then
/// change the pick.
pub proof fn lemma_ready_pick_stands_nav(s: MenuState, menu: MenuInput, taps: MenuTaps)
    ensures
        s.p2_ready && !menu.back ==> spec_menu_nav(s, menu, taps).0.p2_char_idx
            == s.p2_char_idx,
        s.p1_ready && !menu.confirm && !menu.back ==> spec_menu_nav(s, menu, taps).0.p1_char_idx
            == s.p1_char_idx,
{
    let n: Nav = (s, Seq::empty());
    if s.screen == Screen::CharSelect {
        let online = s.mode == GameMode::Online;
        let b = char_select_buttons(n, menu, online);
        let b1 = if menu.left { p1_prev(n, online) } else { n };
        let b2 = if menu.right { p1_next(b1, online) } else { b1 };
        let b3 = if menu.confirm { p1_toggle(b2, online) } else { b2 };
        assert(b2.0.p2_char_idx == s.p2_char_idx && b2.0.p2_ready == s.p2_ready);
        assert(b.0.p2_char_idx == s.p2_char_idx);
        assert(!menu.back ==> b.0.p2_ready == s.p2_ready);
        if s.p1_ready {
            assert(b1.0.p1_char_idx == s.p1_char_idx && b1.0.p1_ready);
            assert(b2.0.p1_char_idx == s.p1_char_idx && b2.0.p1_ready);
        }
        let t = p1_taps(b, taps, online);
        let t1 = if taps.p1_left { p1_prev(b, online) } else { b };
        let t2 = if taps.p1_right { p1_next(t1, online) } else { t1 };
        assert(t.0.p2_char_idx == s.p2_char_idx && t.0.p2_ready == b.0.p2_ready);
        if s.p1_ready && !menu.confirm && !menu.back {
            assert(b.0.p1_ready && b.0.p1_char_idx == s.p1_char_idx);
            assert(t1.0.p1_ready && t1.0.p1_char_idx == s.p1_char_idx);
            assert(t2.0.p1_char_idx == s.p1_char_idx);
            assert(t.0.p1_char_idx == s.p1_char_idx);
        }
        let u = p2_taps(t, taps, online);
        let u1 = if !online && taps.p2_left { p2_prev(t) } else { t };
        let u2 = if !online && taps.p2_right { p2_next(u1) } else { u1 };
        assert(u.0.p1_char_idx == t.0.p1_char_idx);
        if s.p2_ready && !menu.back {
            assert(u1.0.p2_ready && u1.0.p2_char_idx == s.p2_char_idx);
            assert(u2.0.p2_char_idx == s.p2_char_idx);
            assert(u.0.p2_char_idx == s.p2_char_idx);
        }
        assert(char_select_taps(b, taps, online) == u);
    }
}

} // verus!
