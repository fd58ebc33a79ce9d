//! The online session around the fight: who plays which side once a peer
//! joins, the character picks exchanged with the peer, and one frame of
//! an online fight (the peer's messages, the local input, the rollback
//! step and what goes back to the peer).
use vstd::prelude::*;

use crate::checksum::spec_state_checksum;
use crate::menu::{menu_wf, GameMode, MenuAction, MenuState, Nav, Screen, CHAR_COUNT};
use crate::net::{
    parse_checksum, parse_input_bundle, spec_parse_checksum, spec_parse_input_bundle,
    MSG_CHAR_SELECT, MSG_CHECKSUM, MSG_INPUT, MSG_START_GAME,
};
use crate::rollback::{
    advance_step, checksum_step, lemma_slots_differ, local_input_step, remote_input_step, run, set_at,
    slot, RollbackManager, BUFFER_SIZE, INPUT_DELAY,
};
use crate::state::PlayerInput;

verus! {

// ---------------------------------------------------------------------------
// The lobby
// ---------------------------------------------------------------------------

/// `a` comes after `b` in lexicographic order of characters (the order of
/// their UTF-8 bytes), comparing from position `i` on.
pub open spec fn text_after_from(a: Seq<char>, b: Seq<char>, i: int) -> bool
    decreases a.len() - i,
{
    if i < 0 || i >= a.len() {
        false
    } else if i >= b.len() {
        true
    } else if a[i] != b[i] {
        (a[i] as u32) > (b[i] as u32)
    } else {
        text_after_from(a, b, i + 1)
    }
}

/// `a` comes after `b` in lexicographic order.
pub open spec fn text_after(a: Seq<char>, b: Seq<char>) -> bool {
    text_after_from(a, b, 0)
}

/// Whether `a` comes after `b` in lexicographic order.
pub fn is_text_after(a: &str, b: &str) -> (r: bool)
    ensures
        r == text_after(a@, b@),
{
    let la = a.unicode_len();
    let lb = b.unicode_len();
    let mut i: usize = 0;
    while i < la && i < lb
        invariant
            la == a@.len(),
            lb == b@.len(),
            i <= la,
            i <= lb,
            text_after(a@, b@) == text_after_from(a@, b@, i as int),
        decreases la - i,
    {
        let ca = a.get_char(i);
        let cb = b.get_char(i);
        if ca != cb {
            return (ca as u32) > (cb as u32);
        }
        i += 1;
    }
    la > lb
}

/// A peer has joined the lobby: the side this client plays is decided by
/// comparing the peer's printed id with `"local"` (after it: player 0,
/// else player 1), and character select opens with nobody ready.
pub open spec fn spec_peer_joined(s: MenuState, peer_text: Seq<char>) -> MenuState {
    MenuState {
        local_player: if text_after(peer_text, "local"@) {
            0
        } else {
            1
        },
        screen: Screen::CharSelect,
        p1_ready: false,
        p2_ready: false,
        ..s
    }
}

/// In the online lobby, once connected to a peer (`peer_text` is the peer
/// id as printed), move on to character select.
pub fn peer_joined(state: &mut MenuState, peer_text: &str)
    requires
        menu_wf(*old(state)),
    ensures
        *final(state) == (if old(state).screen == Screen::OnlineLobby {
            spec_peer_joined(*old(state), peer_text@)
        } else {
            *old(state)
        }),
        menu_wf(*final(state)),
{
    if state.screen == Screen::OnlineLobby {
        // Connected to peer — determine player assignment
        let we_are_lower = is_text_after(peer_text, "local");
        state.local_player = if we_are_lower {
            0
        } else {
            1
        };
        state.screen = Screen::CharSelect;
        state.p1_ready = false;
        state.p2_ready = false;
    }
}

// ---------------------------------------------------------------------------
// Character select with a peer
// ---------------------------------------------------------------------------

/// One message from the peer during character select: its pick and
/// readiness (an index out of range is ignored), or the order to start
/// the match as the player it names.
pub open spec fn char_select_message(n: Nav, msg_type: u8, payload: Seq<u8>) -> Nav {
    if msg_type == MSG_CHAR_SELECT {
        if payload.len() >= 2 && (payload[0] as int) < CHAR_COUNT {
            (MenuState { p2_char_idx: payload[0] as usize, p2_ready: payload[1] != 0, ..n.0 }, n.1)
        } else {
            n
        }
    } else if msg_type == MSG_START_GAME {
        if payload.len() >= 1 {
            (
                MenuState { local_player: payload[0] as usize, screen: Screen::Fighting, ..n.0 },
                n.1.push(MenuAction::StartGame),
            )
        } else {
            n
        }
    } else {
        n
    }
}

/// The peer's messages, in order.
pub open spec fn char_select_messages(n: Nav, msgs: Seq<(u8, Vec<u8>)>) -> Nav
    decreases msgs.len(),
{
    if msgs.len() == 0 {
        n
    } else {
        let prev = char_select_messages(n, msgs.drop_last());
        char_select_message(prev, msgs.last().0, msgs.last().1@)
    }
}

/// Both players ready while still picking: player 0's client starts the
/// match and tells the peer; as player 1 the picks are swapped first, so
/// that each pick lands on its player's side.
pub open spec fn start_when_ready(n: Nav) -> Nav {
    let s = n.0;
    if s.p1_ready && s.p2_ready && s.screen == Screen::CharSelect {
        let s1 = if s.local_player == 1 {
            MenuState { p1_char_idx: s.p2_char_idx, p2_char_idx: s.p1_char_idx, ..s }
        } else {
            s
        };
        (
            MenuState { screen: Screen::Fighting, ..s1 },
            n.1.push(MenuAction::SendStartGame { remote_player: (1 - s.local_player) as u8 }).push(
                MenuAction::StartGame,
            ),
        )
    } else {
        n
    }
}

pub open spec fn spec_online_char_select(s: MenuState, msgs: Seq<(u8, Vec<u8>)>) -> Nav {
    start_when_ready(char_select_messages((s, Seq::empty()), msgs))
}

fn char_select_message_exec(
    state: &mut MenuState,
    acts: &mut Vec<MenuAction>,
    msg_type: u8,
    payload: &Vec<u8>,
)
    requires
        menu_wf(*old(state)),
        old(state).mode == GameMode::Online,
    ensures
        (*final(state), final(acts)@) == char_select_message(
            (*old(state), old(acts)@),
            msg_type,
            payload@,
        ),
        menu_wf(*final(state)),
        final(state).mode == GameMode::Online,
{
    if msg_type == MSG_CHAR_SELECT {
        if payload.len() >= 2 {
            let char_idx = payload[0] as usize;
            let ready = payload[1] != 0;
            if char_idx < CHAR_COUNT {
                state.p2_char_idx = char_idx;
                state.p2_ready = ready;
            }
        }
    } else if msg_type == MSG_START_GAME {
        if payload.len() >= 1 {
            state.local_player = payload[0] as usize;
            state.screen = Screen::Fighting;
            acts.push(MenuAction::StartGame);
        }
    }
}

/// Character select in an online match: take in the peer's messages, then
/// start the match once both players are ready.
pub fn online_char_select(state: &mut MenuState, messages: &Vec<(u8, Vec<u8>)>) -> (r: Vec<
    MenuAction,
>)
    requires
        menu_wf(*old(state)),
        old(state).mode == GameMode::Online,
    ensures
        (*final(state), r@) == spec_online_char_select(*old(state), messages@),
        menu_wf(*final(state)),
{
    let mut acts: Vec<MenuAction> = Vec::new();
    let mut i: usize = 0;
    while i < messages.len()
        invariant
            i <= messages.len(),
            menu_wf(*state),
            state.mode == GameMode::Online,
            (*state, acts@) == char_select_messages(
                (*old(state), Seq::empty()),
                messages@.take(i as int),
            ),
        decreases messages.len() - i,
    {
        char_select_message_exec(state, &mut acts, messages[i].0, &messages[i].1);
        proof {
            assert(messages@.take(i + 1).drop_last() =~= messages@.take(i as int));
        }
        i += 1;
    }
    proof {
        assert(messages@.take(messages.len() as int) =~= messages@);
    }
    // If both ready in online mode, host (player 0) sends start
    if state.p1_ready && state.p2_ready && state.screen == Screen::CharSelect {
        let local = state.local_player;
        if local == 1 {
            let tmp = state.p1_char_idx;
            state.p1_char_idx = state.p2_char_idx;
            state.p2_char_idx = tmp;
        }
        let remote_player = 1 - local;
        acts.push(MenuAction::SendStartGame { remote_player: remote_player as u8 });
        state.screen = Screen::Fighting;
        acts.push(MenuAction::StartGame);
    }
    acts
}

// ---------------------------------------------------------------------------
// A frame of an online fight
// ---------------------------------------------------------------------------

/// Frames between two checksums sent to the peer.
pub const CHECKSUM_INTERVAL: u32 = 30;

/// What one frame of an online fight sends to the peer.
#[derive(Clone, Copy, Debug)]
pub struct FrameOutput {
    /// The frame the local input is for, and the input (sent three times).
    pub input_frame: u32,
    pub input: PlayerInput,
    /// A confirmed frame and the checksum of its state, when one is due.
    pub checksum: Option<(u32, u64)>,
    /// Whether every remote input received fitted what was already known
    /// (see `RollbackManager::accepts_remote`).
    pub remote_inputs_agree: bool,
}

/// What the rollback manager keeps through the peer's messages.
pub open spec fn keeps_session(old_rb: RollbackManager, rb: RollbackManager, agree: bool) -> bool {
    &&& rb.wf()
    &&& rb.current_frame == old_rb.current_frame
    &&& rb.local_player == old_rb.local_player
    &&& rb.origin() == old_rb.origin()
    &&& old_rb.desync_detected ==> rb.desync_detected
    &&& old_rb.consistent() && agree ==> rb.consistent()
}

/// The frame `k` frames before `frame`, or frame 0.
pub open spec fn frame_before(frame: u32, k: int) -> u32 {
    if frame >= k {
        (frame - k) as u32
    } else {
        0
    }
}

/// The first `done` of the three remote inputs of a bundle taken in, the
/// oldest first: `t` holds the managers along the way, starting from the
/// one before the bundle.
pub open spec fn bundle_prefix(frame: u32, inputs: [u16; 3], t: Seq<RollbackManager>, done: int) -> bool {
    &&& t.len() == done + 1
    &&& done >= 1 ==> remote_input_step(t[0], frame_before(frame, 2), PlayerInput(inputs[2]), t[1])
    &&& done >= 2 ==> remote_input_step(t[1], frame_before(frame, 1), PlayerInput(inputs[1]), t[2])
    &&& done >= 3 ==> remote_input_step(t[2], frame_before(frame, 0), PlayerInput(inputs[0]), t[3])
}

/// A bundle from the peer (its inputs for `frame` and the two frames
/// before it) taken in as three remote inputs, the oldest first.
pub open spec fn bundle_along(frame: u32, inputs: [u16; 3], t: Seq<RollbackManager>) -> bool {
    bundle_prefix(frame, inputs, t, 3)
}

/// The peer's inputs for a frame and the two before it.
fn take_input_bundle(rb: &mut RollbackManager, frame: u32, inputs: [u16; 3], agree_so_far: bool) -> (r: (
    bool,
    bool,
    Ghost<Seq<RollbackManager>>,
))
    requires
        old(rb).wf(),
    ensures
        keeps_session(*old(rb), *final(rb), r.1),
        r.1 ==> agree_so_far,
        r.0 ==> final(rb).in_limits(),
        !r.0 ==> !final(rb).in_limits(),
        r.0 ==> bundle_along(frame, inputs, r.2@) && r.2@[0] == *old(rb) && r.2@.last() == *final(rb),
{
    let mut agree = agree_so_far;
    let mut k: usize = 3;
    let ghost mut t: Seq<RollbackManager> = seq![*rb];
    while k > 0
        invariant
            k <= 3,
            keeps_session(*old(rb), *rb, agree),
            agree ==> agree_so_far,
            bundle_prefix(frame, inputs, t, 3 - k),
            t[0] == *old(rb),
            t.last() == *rb,
        decreases k,
    {
        k -= 1;
        if !rb.within_limits() {
            return (false, agree, Ghost(t));
        }
        let f = frame.saturating_sub(k as u32);
        let input = PlayerInput(inputs[k]);
        if !rb.accepts_remote_input(f, input) {
            agree = false;
        }
        let ghost before = *rb;
        rb.add_remote_input(f, input);
        proof {
            assert(f == frame_before(frame, k as int));
            let t0 = t;
            t = t.push(*rb);
            assert(t[3 - k - 1] == before);
            assert(forall|j: int| 0 <= j < t0.len() ==> t[j] == t0[j]);
        }
    }
    (rb.within_limits(), agree, Ghost(t))
}

/// One message from the peer taken in: `t` holds the managers along the
/// way, starting from the one before the message. A parsable input bundle
/// is three remote inputs, a parsable checksum is compared with the local
/// one, and anything else changes nothing.
pub open spec fn message_along(msg_type: u8, payload: Seq<u8>, t: Seq<RollbackManager>) -> bool {
    if msg_type == MSG_INPUT && spec_parse_input_bundle(payload) is Some {
        let (frame, inputs) = spec_parse_input_bundle(payload).unwrap();
        bundle_along(frame, inputs, t)
    } else if msg_type == MSG_CHECKSUM && spec_parse_checksum(payload) is Some {
        let (frame, hash) = spec_parse_checksum(payload).unwrap();
        t.len() == 2 && checksum_step(t[0], frame, hash, t[1])
    } else {
        t.len() == 1
    }
}

/// The peer's messages taken in, in order, from the manager `m` to `n`:
/// `ts[i]` holds the managers along the way through message `i`, each
/// starting where the one before ended.
pub open spec fn messages_along(
    m: RollbackManager,
    msgs: Seq<(u8, Vec<u8>)>,
    ts: Seq<Seq<RollbackManager>>,
    n: RollbackManager,
) -> bool
    decreases msgs.len(),
{
    if msgs.len() == 0 {
        ts.len() == 0 && n == m
    } else {
        &&& ts.len() == msgs.len()
        &&& messages_along(m, msgs.drop_last(), ts.drop_last(), ts.last()[0])
        &&& message_along(msgs.last().0, msgs.last().1@, ts.last())
        &&& ts.last().last() == n
    }
}

/// Take in the peer's messages: input bundles and checksums.
fn take_messages(rb: &mut RollbackManager, messages: &Vec<(u8, Vec<u8>)>) -> (r: (
    bool,
    bool,
    Ghost<Seq<Seq<RollbackManager>>>,
))
    requires
        old(rb).wf(),
        old(rb).in_limits(),
    ensures
        keeps_session(*old(rb), *final(rb), r.1),
        r.0 ==> final(rb).in_limits(),
        !r.0 ==> !final(rb).in_limits(),
        r.0 ==> messages_along(*old(rb), messages@, r.2@, *final(rb)),
{
    let mut agree = true;
    let mut i: usize = 0;
    let ghost mut ts: Seq<Seq<RollbackManager>> = Seq::empty();
    while i < messages.len()
        invariant
            i <= messages.len(),
            keeps_session(*old(rb), *rb, agree),
            rb.in_limits(),
            messages_along(*old(rb), messages@.take(i as int), ts, *rb),
        decreases messages.len() - i,
    {
        let ghost start = *rb;
        let ghost mut t: Seq<RollbackManager> = seq![*rb];
        let msg_type = messages[i].0;
        if msg_type == MSG_INPUT {
            if let Some((frame, inputs)) = parse_input_bundle(messages[i].1.as_slice()) {
                let (ok, a, tb) = take_input_bundle(rb, frame, inputs, agree);
                agree = a;
                if !ok {
                    return (false, agree, Ghost(ts));
                }
                proof {
                    t = tb@;
                }
            }
        } else if msg_type == MSG_CHECKSUM {
            if let Some((frame, hash)) = parse_checksum(messages[i].1.as_slice()) {
                let ghost before = *rb;
                rb.check_remote_checksum(frame, hash);
                proof {
                    t = seq![before, *rb];
                    assert(rb.snapshots() == before.snapshots());
                    assert(rb.history() == before.history());
                    if before.consistent() {
                        assert forall|f: int| rb.window_start() <= f < rb.current_frame implies {
                            &&& #[trigger] rb.snapshot_at(f) == run(rb.origin(), rb.history().take(f))
                            &&& rb.history()[f] == rb.inputs.input_at(f)
                        } by {
                            assert(before.snapshot_at(f) == run(
                                before.origin(),
                                before.history().take(f),
                            ));
                        }
                        assert forall|f: int| rb.snapshot_start() <= f < rb.current_frame implies #[trigger] rb.snapshot_at(f)
                            == run(rb.origin(), rb.history().take(f)) by {
                            assert(before.snapshot_at(f) == run(
                                before.origin(),
                                before.history().take(f),
                            ));
                        }
                    }
                }
            }
        }
        proof {
            assert(message_along(messages@[i as int].0, messages@[i as int].1@, t));
            assert(t[0] == start);
            assert(t.last() == *rb);
            let ts0 = ts;
            ts = ts.push(t);
            assert(messages@.take(i + 1).drop_last() =~= messages@.take(i as int));
            assert(ts.drop_last() =~= ts0);
            assert(messages@.take(i + 1).last() == messages@[i as int]);
        }
        i += 1;
    }
    proof {
        assert(messages@.take(messages.len() as int) =~= messages@);
    }
    (true, agree, Ghost(ts))
}

/// The checksum clock: with a connection it ticks, and once it reaches
/// `CHECKSUM_INTERVAL` with a confirmed frame past the start, the checksum
/// of that frame is sent and the clock starts over.
pub open spec fn sends_checksum(
    connected: bool,
    timer: u32,
    new_timer: u32,
    rb: RollbackManager,
    checksum: Option<(u32, u64)>,
) -> bool {
    if !connected {
        new_timer == timer && checksum is None
    } else if timer + 1 >= CHECKSUM_INTERVAL && rb.last_confirmed_frame > 0 {
        &&& new_timer == 0
        &&& checksum == Some(
            (
                rb.last_confirmed_frame,
                spec_state_checksum(rb.snapshot_at(rb.last_confirmed_frame as int)),
            ),
        )
    } else {
        new_timer == timer + 1 && checksum is None
    }
}

/// A checksum message from the peer that disagrees with the local checksum
/// of its frame held by `m`.
pub open spec fn checksum_disagrees(msg_type: u8, payload: Seq<u8>, m: RollbackManager) -> bool {
    &&& msg_type == MSG_CHECKSUM
    &&& spec_parse_checksum(payload) matches Some((frame, hash)) && frame < m.current_frame
        && spec_state_checksum(m.snapshot_at(frame as int)) != hash
}

/// Taking in the peer's messages sets the desync flag exactly when it was
/// set before or one of the checksums received disagrees with the local
/// checksum of its frame as it stood when that checksum arrived.
pub proof fn lemma_messages_desync(
    m: RollbackManager,
    msgs: Seq<(u8, Vec<u8>)>,
    ts: Seq<Seq<RollbackManager>>,
    n: RollbackManager,
)
    requires
        messages_along(m, msgs, ts, n),
    ensures
        n.desync_detected == (m.desync_detected || exists|i: int|
            0 <= i < msgs.len() && #[trigger] checksum_disagrees(msgs[i].0, msgs[i].1@, ts[i][0])),
    decreases msgs.len(),
{
    if msgs.len() > 0 {
        let k = msgs.len() - 1;
        let mid = ts.last()[0];
        lemma_messages_desync(m, msgs.drop_last(), ts.drop_last(), mid);
        let t = ts.last();
        if msgs.last().0 == MSG_INPUT && spec_parse_input_bundle(msgs.last().1@) is Some {
            assert(n.desync_detected == mid.desync_detected);
        } else if msgs.last().0 == MSG_CHECKSUM && spec_parse_checksum(msgs.last().1@) is Some {
            assert(n == t[1]);
        } else {
            assert(n == mid);
        }
        if exists|i: int| 0 <= i < msgs.len() && #[trigger] checksum_disagrees(msgs[i].0, msgs[i].1@, ts[i][0]) {
            let i = choose|i: int| 0 <= i < msgs.len() && #[trigger] checksum_disagrees(msgs[i].0, msgs[i].1@, ts[i][0]);
            if i < k {
                assert(msgs.drop_last()[i] == msgs[i]);
                assert(ts.drop_last()[i] == ts[i]);
            }
        }
        if exists|i: int| 0 <= i < k && #[trigger] checksum_disagrees(msgs.drop_last()[i].0, msgs.drop_last()[i].1@, ts.drop_last()[i][0]) {
            let i = choose|i: int| 0 <= i < k && #[trigger] checksum_disagrees(msgs.drop_last()[i].0, msgs.drop_last()[i].1@, ts.drop_last()[i][0]);
            assert(msgs.drop_last()[i] == msgs[i]);
            assert(ts.drop_last()[i] == ts[i]);
            assert(checksum_disagrees(msgs[i].0, msgs[i].1@, ts[i][0]));
        }
        if checksum_disagrees(msgs[k].0, msgs[k].1@, ts[k][0]) {
            assert(msgs.last() == msgs[k]);
        }
    }
}

/// A frame of an online fight sets the desync flag exactly when it was set
/// before or one of the checksums received from the peer disagrees with
/// the local checksum of its frame as it stood when that checksum arrived.
pub proof fn lemma_frame_desync(
    m: RollbackManager,
    msgs: Seq<(u8, Vec<u8>)>,
    input: PlayerInput,
    target: u32,
    ts: Seq<Seq<RollbackManager>>,
    m1: RollbackManager,
    m2: RollbackManager,
    n: RollbackManager,
)
    requires
        frame_along(m, msgs, input, target, ts, m1, m2, n),
    ensures
        n.desync_detected == (m.desync_detected || exists|i: int|
            0 <= i < msgs.len() && #[trigger] checksum_disagrees(msgs[i].0, msgs[i].1@, ts[i][0])),
{
    lemma_messages_desync(m, msgs, ts, m1);
}

/// A frame of an online fight played from the manager `m` to `n`: the
/// peer's messages taken in through `ts` (ending at `m1`), the local input
/// recorded for frame `target` (giving `m2`), and one frame advanced.
pub open spec fn frame_along(
    m: RollbackManager,
    msgs: Seq<(u8, Vec<u8>)>,
    input: PlayerInput,
    target: u32,
    ts: Seq<Seq<RollbackManager>>,
    m1: RollbackManager,
    m2: RollbackManager,
    n: RollbackManager,
) -> bool {
    &&& messages_along(m, msgs, ts, m1)
    &&& local_input_step(m1, input, target, m2)
    &&& advance_step(m2, n)
}

/// One frame of an online fight: take in the peer's messages, record the
/// local input, advance the simulation, and say what to send back (the
/// local input, and every `CHECKSUM_INTERVAL` frames a checksum of the
/// last confirmed frame). `connected` is whether a connection to the peer
/// is open; without one nothing is sent and the checksum clock stands.
/// On success the manager went from the old one to the new one exactly as
/// `frame_along` describes, through the messages in order.
/// Returns `None`, with the frame not advanced, when a state held comes so
/// close to the game's numeric limits that a rollback could overflow them.
#[verifier::spinoff_prover]
#[verifier::rlimit(40)]
pub fn online_frame(
    rb: &mut RollbackManager,
    messages: &Vec<(u8, Vec<u8>)>,
    local_input: PlayerInput,
    checksum_timer: &mut u32,
    connected: bool,
) -> (r: Option<FrameOutput>)
    requires
        old(rb).inputs.wf(),
        old(rb).snapshots().len() == BUFFER_SIZE,
        *old(checksum_timer) < u32::MAX,
    ensures
        final(rb).inputs.wf(),
        final(rb).snapshots().len() == BUFFER_SIZE,
        old(rb).wf() ==> final(rb).wf(),
        final(rb).local_player == old(rb).local_player,
        final(rb).origin() == old(rb).origin(),
        old(rb).desync_detected ==> final(rb).desync_detected,
        r is None ==> !(final(rb).wf() && final(rb).in_limits()) && final(rb).current_frame
            == old(rb).current_frame && *final(checksum_timer) == *old(checksum_timer),
        r matches Some(out) ==> {
            &&& old(rb).wf()
            &&& final(rb).wf()
            &&& out.input_frame == old(rb).current_frame + INPUT_DELAY
            &&& out.input == local_input
            &&& final(rb).current_frame == old(rb).current_frame + 1
            &&& final(rb).last_rollback_count == 0
            &&& final(rb).inputs.input_at(out.input_frame as int)[old(rb).local_player as int]
                == local_input
            &&& final(rb).inputs.confirmed_at(out.input_frame as int)[old(rb).local_player as int]
            &&& old(rb).consistent() && out.remote_inputs_agree ==> final(rb).consistent()
            &&& sends_checksum(connected, *old(checksum_timer), *final(checksum_timer), *final(rb), out.checksum)
            &&& exists|ts: Seq<Seq<RollbackManager>>, m1: RollbackManager, m2: RollbackManager|
                #[trigger] frame_along(*old(rb), messages@, local_input, out.input_frame, ts, m1, m2, *final(rb))
        },
{
    if !rb.within_limits() {
        return None;
    }
    let (ok, agree, trace) = take_messages(rb, messages);
    if !ok {
        return None;
    }
    // Add local input
    let ghost before_local = *rb;
    let target_frame = rb.add_local_input(local_input);
    let ghost before_advance = *rb;
    // Advance simulation
    rb.advance();
    proof {
        assert(frame_along(*old(rb), messages@, local_input, target_frame, trace@, before_local, before_advance, *rb));
        let cf = before_advance.current_frame as int;
        lemma_slots_differ(cf, target_frame as int);
        rb.inputs.lemma_view_len();
        before_advance.inputs.lemma_view_len();
        let i = slot(target_frame as int);
        let lp = before_advance.local_player as int;
        let now = before_advance.inputs.claimed(cf);
        assert(now.0[i] == before_advance.inputs@.0[i]);
        assert(now.1[i] == before_advance.inputs@.1[i]);
        assert(rb.inputs@.0[i] == before_advance.inputs@.0[i]);
        assert(rb.inputs@.1[i] == before_advance.inputs@.1[i]);
        before_local.inputs.lemma_view_len();
        let seen = before_local.inputs.claimed(target_frame as int);
        let row = seen.0[i];
        let flags = seen.1[i];
        assert(before_advance.inputs@.0[i] == set_at(row, lp, local_input));
        assert(before_advance.inputs@.1[i] == set_at(flags, lp, true));
        if lp == 0 {
            assert(set_at(row, lp, local_input)[0] == local_input);
            assert(set_at(flags, lp, true)[0]);
        } else {
            assert(set_at(row, lp, local_input)[1] == local_input);
            assert(set_at(flags, lp, true)[1]);
        }
        assert(before_advance.inputs@.0[i][lp] == local_input);
        assert(before_advance.inputs@.1[i][lp]);
    }
    let mut checksum: Option<(u32, u64)> = None;
    // Send input + periodic checksum
    if connected {
        *checksum_timer = *checksum_timer + 1;
        if *checksum_timer >= CHECKSUM_INTERVAL && rb.last_confirmed_frame > 0 {
            *checksum_timer = 0;
            let cf = rb.last_confirmed_frame;
            checksum = Some((cf, rb.checksum_for_frame(cf)));
        }
    }
    Some(FrameOutput { input_frame: target_frame, input: local_input, checksum, remote_inputs_agree: agree })
}

} // verus!
