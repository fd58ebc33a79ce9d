//! Rollback netcode: inputs and snapshots kept in ring buffers, local inputs
//! delayed, missing remote inputs predicted, and the recent past
//! re-simulated when a prediction turns out wrong.
use vstd::prelude::*;

use crate::checksum::{spec_state_checksum, state_checksum};
use crate::frame::{is_state_bounded, state_bounded};
use crate::hit::DAMAGE_LIMIT;
use crate::state::{
    advance_frame, frame_ready, spec_advance_frame, GameState, PlayerInput, MAX_FRAME_DAMAGE,
    MAX_PLAYERS,
};

verus! {

pub const INPUT_DELAY: u32 = 2;

pub const MAX_ROLLBACK_FRAMES: u32 = 8;

pub const BUFFER_SIZE: usize = 128;

/// The ring-buffer slot of a frame.
pub open spec fn slot(frame: int) -> int {
    frame % 128
}

fn idx(frame: u32) -> (r: usize)
    ensures
        r == slot(frame as int),
        r < BUFFER_SIZE,
{
    frame as usize % BUFFER_SIZE
}

/// A pair with entry `i` replaced by `v`.
pub open spec fn set_at<T>(a: [T; 2], i: int, v: T) -> [T; 2] {
    if i == 0 {
        [v, a[1]]
    } else {
        [a[0], v]
    }
}

/// The input played for `player` at `frame`: the stored one, or, where it
/// is not confirmed, the previous frame's (prediction by repetition).
pub open spec fn predicted_input(
    v: (Seq<[PlayerInput; MAX_PLAYERS]>, Seq<[bool; MAX_PLAYERS]>),
    frame: int,
    player: int,
) -> PlayerInput {
    if frame > 0 && !v.1[slot(frame)][player] {
        v.0[slot(frame - 1)][player]
    } else {
        v.0[slot(frame)][player]
    }
}

/// Both players' inputs for `frame`, missing ones predicted.
pub open spec fn predicted_row(
    v: (Seq<[PlayerInput; MAX_PLAYERS]>, Seq<[bool; MAX_PLAYERS]>),
    frame: int,
) -> [PlayerInput; MAX_PLAYERS] {
    [predicted_input(v, frame, 0), predicted_input(v, frame, 1)]
}

/// The buffer once the inputs of `frame` are filled in by prediction.
pub open spec fn with_predictions(
    v: (Seq<[PlayerInput; MAX_PLAYERS]>, Seq<[bool; MAX_PLAYERS]>),
    frame: int,
) -> (Seq<[PlayerInput; MAX_PLAYERS]>, Seq<[bool; MAX_PLAYERS]>) {
    (v.0.update(slot(frame), predicted_row(v, frame)), v.1)
}

/// Inputs of the last `BUFFER_SIZE` frames, with whether each is confirmed
/// and which frame each slot holds.
pub struct InputBuffer {
    inputs: Vec<[PlayerInput; MAX_PLAYERS]>,
    confirmed: Vec<[bool; MAX_PLAYERS]>,
    frames: Vec<u32>,
}

impl View for InputBuffer {
    type V = (Seq<[PlayerInput; MAX_PLAYERS]>, Seq<[bool; MAX_PLAYERS]>);

    closed spec fn view(&self) -> Self::V {
        (self.inputs@, self.confirmed@)
    }
}

impl InputBuffer {
    /// One row per slot.
    pub closed spec fn wf(&self) -> bool {
        &&& self.inputs@.len() == BUFFER_SIZE
        &&& self.confirmed@.len() == BUFFER_SIZE
        &&& self.frames@.len() == BUFFER_SIZE
    }

    /// The frame whose inputs each slot holds.
    pub closed spec fn frames(&self) -> Seq<u32> {
        self.frames@
    }

    /// Whether the slot of `frame` holds that frame's inputs.
    pub open spec fn holds(&self, frame: int) -> bool {
        self.frames()[slot(frame)] == frame
    }

    /// The buffer as `frame` finds it: its slot as stored when it holds
    /// `frame`, else emptied (no input, nothing confirmed), since what is
    /// there belongs to another frame.
    pub open spec fn claimed(&self, frame: int) -> (Seq<[PlayerInput; MAX_PLAYERS]>, Seq<[bool; MAX_PLAYERS]>) {
        if self.holds(frame) {
            self@
        } else {
            (
                self@.0.update(slot(frame), [PlayerInput(0), PlayerInput(0)]),
                self@.1.update(slot(frame), [false, false]),
            )
        }
    }

    /// The stored inputs of a frame.
    pub open spec fn input_at(&self, frame: int) -> [PlayerInput; MAX_PLAYERS] {
        self@.0[slot(frame)]
    }

    /// Which stored inputs of a frame are confirmed.
    pub open spec fn confirmed_at(&self, frame: int) -> [bool; MAX_PLAYERS] {
        self@.1[slot(frame)]
    }

    pub proof fn lemma_view_len(&self)
        requires
            self.wf(),
        ensures
            self@.0.len() == BUFFER_SIZE,
            self@.1.len() == BUFFER_SIZE,
            self.frames().len() == BUFFER_SIZE,
    {
    }

    /// All inputs empty, none confirmed.
    fn new() -> (r: Self)
        ensures
            r.wf(),
            forall|i: int| 0 <= i < BUFFER_SIZE ==> #[trigger] r@.0[i] == [PlayerInput(0), PlayerInput(0)],
            forall|i: int| 0 <= i < BUFFER_SIZE ==> #[trigger] r@.1[i] == [false, false],
    {
        let mut inputs: Vec<[PlayerInput; MAX_PLAYERS]> = Vec::new();
        let mut confirmed: Vec<[bool; MAX_PLAYERS]> = Vec::new();
        let mut frames: Vec<u32> = Vec::new();
        let mut k: usize = 0;
        while k < BUFFER_SIZE
            invariant
                k <= BUFFER_SIZE,
                inputs@.len() == k,
                confirmed@.len() == k,
                frames@.len() == k,
                forall|i: int| 0 <= i < k ==> #[trigger] inputs@[i] == [PlayerInput(0), PlayerInput(0)],
                forall|i: int| 0 <= i < k ==> #[trigger] confirmed@[i] == [false, false],
            decreases BUFFER_SIZE - k,
        {
            inputs.push([PlayerInput(0), PlayerInput(0)]);
            confirmed.push([false, false]);
            frames.push(k as u32);
            k += 1;
        }
        InputBuffer { inputs, confirmed, frames }
    }

    /// Take the slot of `frame` for that frame: if it held another frame,
    /// empty it first.
    fn claim(&mut self, frame: u32)
        requires
            old(self).wf(),
        ensures
            final(self).wf(),
            final(self)@ == old(self).claimed(frame as int),
            final(self).frames() == old(self).frames().update(slot(frame as int), frame),
    {
        let i = idx(frame);
        if self.frames[i] != frame {
            self.inputs.set(i, [PlayerInput(0), PlayerInput(0)]);
            self.confirmed.set(i, [false, false]);
            self.frames.set(i, frame);
        } else {
            proof {
                assert(self.frames@.update(i as int, frame) =~= self.frames@);
            }
        }
    }

    /// Store `player`'s input for `frame`, confirmed or not; a slot that
    /// held another frame is emptied first.
    pub fn set(&mut self, frame: u32, player: usize, input: PlayerInput, is_confirmed: bool)
        requires
            old(self).wf(),
            player < MAX_PLAYERS,
        ensures
            final(self).wf(),
            final(self)@.0 == old(self).claimed(frame as int).0.update(
                slot(frame as int),
                set_at(old(self).claimed(frame as int).0[slot(frame as int)], player as int, input),
            ),
            final(self)@.1 == old(self).claimed(frame as int).1.update(
                slot(frame as int),
                set_at(
                    old(self).claimed(frame as int).1[slot(frame as int)],
                    player as int,
                    is_confirmed,
                ),
            ),
            final(self).frames() == old(self).frames().update(slot(frame as int), frame),
    {
        self.claim(frame);
        let i = idx(frame);
        let row = self.inputs[i];
        let new_row = if player == 0 {
            [input, row[1]]
        } else {
            [row[0], input]
        };
        self.inputs.set(i, new_row);
        let flags = self.confirmed[i];
        let new_flags = if player == 0 {
            [is_confirmed, flags[1]]
        } else {
            [flags[0], is_confirmed]
        };
        self.confirmed.set(i, new_flags);
    }

    fn get(&self, frame: u32) -> (r: [PlayerInput; MAX_PLAYERS])
        requires
            self.wf(),
        ensures
            r == self.input_at(frame as int),
    {
        self.inputs[idx(frame)]
    }

    /// The input stored for `player` at `frame` and whether it is
    /// confirmed; nothing, unconfirmed, where the slot holds another frame.
    fn stored_for(&self, frame: u32, player: usize) -> (r: (PlayerInput, bool))
        requires
            self.wf(),
            player < MAX_PLAYERS,
        ensures
            r.0 == self.claimed(frame as int).0[slot(frame as int)][player as int],
            r.1 == self.claimed(frame as int).1[slot(frame as int)][player as int],
    {
        let i = idx(frame);
        if self.frames[i] == frame {
            (self.inputs[i][player], self.confirmed[i][player])
        } else {
            (PlayerInput(0), false)
        }
    }

    fn is_confirmed(&self, frame: u32, player: usize) -> (r: bool)
        requires
            self.wf(),
            player < MAX_PLAYERS,
        ensures
            r == self.confirmed_at(frame as int)[player as int],
    {
        self.confirmed[idx(frame)][player]
    }

    /// Without a confirmed input, repeat the previous frame's.
    fn predict(&mut self, frame: u32, player: usize)
        requires
            old(self).wf(),
            player < MAX_PLAYERS,
        ensures
            final(self).wf(),
            final(self).frames() == old(self).frames(),
            final(self)@ == (
                old(self)@.0.update(
                    slot(frame as int),
                    set_at(
                        old(self)@.0[slot(frame as int)],
                        player as int,
                        predicted_input(old(self)@, frame as int, player as int),
                    ),
                ),
                old(self)@.1,
            ),
    {
        if frame > 0 && !self.confirmed[idx(frame)][player] {
            let previous = self.inputs[idx(frame - 1)][player];
            let i = idx(frame);
            let row = self.inputs[i];
            let new_row = if player == 0 {
                [previous, row[1]]
            } else {
                [row[0], previous]
            };
            self.inputs.set(i, new_row);
        } else {
            proof {
                let v = old(self)@;
                let i = slot(frame as int);
                assert(set_at(v.0[i], player as int, v.0[i][player as int]) =~= v.0[i]);
                assert(v.0.update(i, v.0[i]) =~= v.0);
            }
        }
    }
}

/// Game states at the start of each of the last `BUFFER_SIZE` frames.
pub struct SnapshotBuffer {
    states: Vec<GameState>,
}

impl View for SnapshotBuffer {
    type V = Seq<GameState>;

    closed spec fn view(&self) -> Seq<GameState> {
        self.states@
    }
}

impl SnapshotBuffer {
    fn new(initial: GameState) -> (r: Self)
        ensures
            r@.len() == BUFFER_SIZE,
            forall|i: int| 0 <= i < BUFFER_SIZE ==> #[trigger] r@[i] == initial,
    {
        let mut states: Vec<GameState> = Vec::new();
        let mut k: usize = 0;
        while k < BUFFER_SIZE
            invariant
                k <= BUFFER_SIZE,
                states@.len() == k,
                forall|i: int| 0 <= i < k ==> #[trigger] states@[i] == initial,
            decreases BUFFER_SIZE - k,
        {
            states.push(initial);
            k += 1;
        }
        SnapshotBuffer { states }
    }

    fn save(&mut self, frame: u32, state: &GameState)
        requires
            old(self)@.len() == BUFFER_SIZE,
        ensures
            final(self)@ == old(self)@.update(slot(frame as int), *state),
    {
        self.states.set(idx(frame), *state);
    }

    fn get(&self, i: usize) -> (r: GameState)
        requires
            i < self@.len(),
        ensures
            r == self@[i as int],
    {
        self.states[i]
    }

    fn load(&self, frame: u32) -> (r: GameState)
        requires
            self@.len() == BUFFER_SIZE,
        ensures
            r == self@[slot(frame as int)],
    {
        self.states[idx(frame)]
    }
}

/// The state reached by playing `ins` frame by frame from `s`.
pub open spec fn run(s: GameState, ins: Seq<[PlayerInput; MAX_PLAYERS]>) -> GameState
    decreases ins.len(),
{
    if ins.len() == 0 {
        s
    } else {
        spec_advance_frame(run(s, ins.drop_last()), ins.last())
    }
}

pub proof fn lemma_run_push(s: GameState, ins: Seq<[PlayerInput; MAX_PLAYERS]>, x: [PlayerInput; MAX_PLAYERS])
    ensures
        run(s, ins.push(x)) == spec_advance_frame(run(s, ins), x),
{
    assert(ins.push(x).drop_last() =~= ins);
}

/// Playing two input sequences one after the other is playing their
/// concatenation.
pub proof fn lemma_run_append(
    s: GameState,
    a: Seq<[PlayerInput; MAX_PLAYERS]>,
    b: Seq<[PlayerInput; MAX_PLAYERS]>,
)
    ensures
        run(s, a + b) == run(run(s, a), b),
    decreases b.len(),
{
    if b.len() == 0 {
        assert(a + b =~= a);
    } else {
        lemma_run_append(s, a, b.drop_last());
        assert((a + b).drop_last() =~= a + b.drop_last());
        assert((a + b).last() == b.last());
    }
}

/// Frames within a ring's length of each other fall in different slots.
pub proof fn lemma_slots_differ(a: int, b: int)
    requires
        0 < b - a < 128,
    ensures
        slot(a) != slot(b),
{
    assert(a % 128 != b % 128) by (nonlinear_arith)
        requires
            0 < b - a < 128,
    ;
}

/// The input buffer after filling in predictions for the frames `from`
/// up to (not including) `to`, in order.
pub open spec fn predict_from(
    v: (Seq<[PlayerInput; MAX_PLAYERS]>, Seq<[bool; MAX_PLAYERS]>),
    from: int,
    to: int,
) -> (Seq<[PlayerInput; MAX_PLAYERS]>, Seq<[bool; MAX_PLAYERS]>)
    decreases to - from,
{
    if from >= to {
        v
    } else {
        predict_from(with_predictions(v, from), from + 1, to)
    }
}

/// The stored inputs of the frames `from` up to `to`.
pub open spec fn rows(
    v: (Seq<[PlayerInput; MAX_PLAYERS]>, Seq<[bool; MAX_PLAYERS]>),
    from: int,
    to: int,
) -> Seq<[PlayerInput; MAX_PLAYERS]> {
    Seq::new((to - from) as nat, |j: int| v.0[slot(from + j)])
}

/// The first frame from `from` on (but before `to`) without both inputs
/// confirmed, or `to`.
pub open spec fn confirmed_run_end(
    v: (Seq<[PlayerInput; MAX_PLAYERS]>, Seq<[bool; MAX_PLAYERS]>),
    from: int,
    to: int,
) -> int
    decreases to - from,
{
    if from >= to {
        from
    } else if v.1[slot(from)][0] && v.1[slot(from)][1] {
        confirmed_run_end(v, from + 1, to)
    } else {
        from
    }
}

/// Predicting one frame further is predicting that frame last.
pub proof fn lemma_predict_from_step(
    v: (Seq<[PlayerInput; MAX_PLAYERS]>, Seq<[bool; MAX_PLAYERS]>),
    from: int,
    to: int,
)
    requires
        from <= to,
    ensures
        predict_from(v, from, to + 1) == with_predictions(predict_from(v, from, to), to),
    decreases to - from,
{
    let w = with_predictions(v, from);
    assert(predict_from(v, from, to + 1) == predict_from(w, from + 1, to + 1));
    if from < to {
        lemma_predict_from_step(w, from + 1, to);
        assert(predict_from(v, from, to) == predict_from(w, from + 1, to));
    } else {
        assert(predict_from(w, from + 1, to + 1) == w);
    }
}

/// Predicting frame `f` leaves the stored inputs of the frames before it
/// (within a ring's length) alone, and stores the predicted row at `f`.
pub proof fn lemma_rows_after_prediction(
    v: (Seq<[PlayerInput; MAX_PLAYERS]>, Seq<[bool; MAX_PLAYERS]>),
    from: int,
    f: int,
)
    requires
        0 <= from <= f < from + 128,
        v.0.len() == BUFFER_SIZE,
    ensures
        rows(with_predictions(v, f), from, f + 1) == rows(v, from, f).push(predicted_row(v, f)),
{
    let w = with_predictions(v, f);
    assert forall|j: int| 0 <= j < f - from implies #[trigger] w.0[slot(from + j)] == v.0[slot(
        from + j,
    )] by {
        lemma_slots_differ(from + j, f);
    }
    assert(rows(w, from, f + 1) =~= rows(v, from, f).push(predicted_row(v, f)));
}

/// Predicting frames `from..to` leaves the stored inputs of an earlier
/// frame within a ring's length alone.
pub proof fn lemma_predict_from_keeps(
    v: (Seq<[PlayerInput; MAX_PLAYERS]>, Seq<[bool; MAX_PLAYERS]>),
    from: int,
    to: int,
    g: int,
)
    requires
        0 <= g < from <= to,
        to - g < 128,
        v.0.len() == BUFFER_SIZE,
    ensures
        predict_from(v, from, to).0[slot(g)] == v.0[slot(g)],
        predict_from(v, from, to).0.len() == BUFFER_SIZE,
        predict_from(v, from, to).1 == v.1,
    decreases to - from,
{
    if from < to {
        lemma_slots_differ(g, from);
        lemma_predict_from_keeps(with_predictions(v, from), from + 1, to, g);
    }
}

/// Predictions never touch confirmed inputs, nor the confirmation flags.
pub proof fn lemma_predict_from_keeps_confirmed(
    v: (Seq<[PlayerInput; MAX_PLAYERS]>, Seq<[bool; MAX_PLAYERS]>),
    from: int,
    to: int,
)
    requires
        v.0.len() == BUFFER_SIZE,
        v.1.len() == BUFFER_SIZE,
    ensures
        predict_from(v, from, to).1 == v.1,
        predict_from(v, from, to).0.len() == BUFFER_SIZE,
        forall|i: int, p: int|
            0 <= i < BUFFER_SIZE && 0 <= p < 2 && v.1[i][p] ==> #[trigger] predict_from(
                v,
                from,
                to,
            ).0[i][p] == v.0[i][p],
    decreases to - from,
{
    if from < to {
        let w = with_predictions(v, from);
        lemma_predict_from_keeps_confirmed(w, from + 1, to);
        assert forall|i: int, p: int|
            0 <= i < BUFFER_SIZE && 0 <= p < 2 && v.1[i][p] implies #[trigger] w.0[i][p]
            == v.0[i][p] by {
        }
    }
}

/// Damage up to which a state can be re-simulated through a full rollback
/// window.
pub const ROLLBACK_DAMAGE_LIMIT: u32 = DAMAGE_LIMIT - MAX_ROLLBACK_FRAMES * MAX_FRAME_DAMAGE;

/// Damage and frame counter leave room for a full rollback window.
pub open spec fn snapshot_in_limits(s: GameState) -> bool {
    &&& s.players[0].damage_percent <= ROLLBACK_DAMAGE_LIMIT
    &&& s.players[1].damage_percent <= ROLLBACK_DAMAGE_LIMIT
    &&& !s.match_over ==> s.frame < u32::MAX - MAX_ROLLBACK_FRAMES
}

pub struct RollbackManager {
    /// The next frame to simulate.
    pub current_frame: u32,
    /// The last frame where all players' inputs are confirmed.
    pub last_confirmed_frame: u32,
    /// Which player index we are (0 or 1).
    pub local_player: usize,
    /// Current game state.
    pub state: GameState,
    /// How many frames were re-simulated in the last update.
    pub last_rollback_count: u32,
    /// Whether a desync has been detected.
    pub desync_detected: bool,
    pub inputs: InputBuffer,
    pub snapshots: SnapshotBuffer,
    /// The state the match started from.
    pub origin: Ghost<GameState>,
    /// The inputs each simulated frame was played with.
    pub history: Ghost<Seq<[PlayerInput; MAX_PLAYERS]>>,
}

/// What `add_local_input(input)` makes of the manager `m`: `n`, with `r`
/// the frame the input is for.
pub open spec fn local_input_step(m: RollbackManager, input: PlayerInput, r: u32, n: RollbackManager) -> bool {
    &&& r == m.current_frame + INPUT_DELAY
    &&& n.wf()
    &&& n.inputs@.0 == m.inputs.claimed(r as int).0.update(
            slot(r as int),
            set_at(
                m.inputs.claimed(r as int).0[slot(r as int)],
                m.local_player as int,
                input,
            ),
        )
    &&& n.inputs@.1 == m.inputs.claimed(r as int).1.update(
            slot(r as int),
            set_at(
                m.inputs.claimed(r as int).1[slot(r as int)],
                m.local_player as int,
                true,
            ),
        )
    &&& n.inputs.frames() == m.inputs.frames().update(slot(r as int), r)
    &&& n.current_frame == m.current_frame
    &&& n.last_confirmed_frame == m.last_confirmed_frame
    &&& n.local_player == m.local_player
    &&& n.state == m.state
    &&& n.last_rollback_count == m.last_rollback_count
    &&& n.desync_detected == m.desync_detected
    &&& n.snapshots() == m.snapshots()
    &&& n.origin() == m.origin()
    &&& n.history() == m.history()
    &&& m.consistent() ==> n.consistent()
}

/// What `advance()` makes of the manager `m`: `n`.
pub open spec fn advance_step(m: RollbackManager, n: RollbackManager) -> bool {
    &&& n.wf()
    &&& n.current_frame == m.current_frame + 1
    &&& n.last_rollback_count == 0
    &&& n.state == spec_advance_frame(
            m.state,
            predicted_row(
                m.inputs.claimed(m.current_frame as int),
                m.current_frame as int,
            ),
        )
    &&& n.inputs@ == with_predictions(
            m.inputs.claimed(m.current_frame as int),
            m.current_frame as int,
        )
    &&& n.inputs.frames() == m.inputs.frames().update(
            slot(m.current_frame as int),
            m.current_frame,
        )
    &&& n.snapshots() == m.snapshots().update(
            slot(m.current_frame as int),
            m.state,
        )
    &&& n.last_confirmed_frame == m.last_confirmed_frame
    &&& n.local_player == m.local_player
    &&& n.desync_detected == m.desync_detected
    &&& n.origin() == m.origin()
    &&& n.history() == m.history().push(
            predicted_row(
                m.inputs.claimed(m.current_frame as int),
                m.current_frame as int,
            ),
        )
    &&& m.consistent() ==> n.consistent()
}

/// What `add_remote_input(frame, input)` makes of the manager `m`: `n`.
pub open spec fn remote_input_step(m: RollbackManager, frame: u32, input: PlayerInput, n: RollbackManager) -> bool {
    &&& n.wf()
    &&& ({
            let remote = m.remote();
            let seen = m.inputs.claimed(frame as int);
            let i = slot(frame as int);
            let old_input = seen.0[i][remote];
            let was_predicted = !seen.1[i][remote];
            let stored = (
                seen.0.update(i, set_at(seen.0[i], remote, input)),
                seen.1.update(i, set_at(seen.1[i], remote, true)),
            );
            let cf = m.current_frame as int;
            let rolls = frame < cf && was_predicted && old_input != input && frame
                >= m.window_start();
            &&& rolls ==> {
                &&& n.last_rollback_count == cf - frame
                &&& n.inputs@ == predict_from(stored, frame as int, cf)
                &&& n.state == run(
                    m.snapshot_at(frame as int),
                    rows(n.inputs@, frame as int, cf),
                )
                &&& forall|f: int|
                    frame <= f < cf ==> #[trigger] n.snapshot_at(f) == run(
                        m.snapshot_at(frame as int),
                        rows(n.inputs@, frame as int, f),
                    )
                &&& forall|g: int|
                    cf - BUFFER_SIZE <= g < frame ==> #[trigger] n.snapshot_at(g)
                        == m.snapshot_at(g)
                &&& n.history() == m.history().take(frame as int) + rows(
                    n.inputs@,
                    frame as int,
                    cf,
                )
            }
            &&& !rolls ==> {
                &&& n.last_rollback_count == m.last_rollback_count
                &&& n.inputs@ == stored
                &&& n.state == m.state
                &&& n.snapshots() == m.snapshots()
                &&& n.history() == m.history()
            }
        })
    &&& n.last_confirmed_frame == confirmed_run_end(
            n.inputs@,
            m.last_confirmed_frame as int,
            m.current_frame as int,
        )
    &&& n.current_frame == m.current_frame
    &&& n.local_player == m.local_player
    &&& n.desync_detected == m.desync_detected
    &&& n.origin() == m.origin()
    &&& m.consistent() && m.accepts_remote(frame as int, input)
            ==> n.consistent()
    &&& m.consistent() && m.accepts_remote(frame as int, input)
            && m.window_start() <= frame < m.current_frame
            ==> n.history()[frame as int][m.remote()] == input
}

/// What `check_remote_checksum(frame, remote_checksum)` makes of the
/// manager `m`: `n`.
pub open spec fn checksum_step(m: RollbackManager, frame: u32, remote_checksum: u64, n: RollbackManager) -> bool {
    &&& n.desync_detected == (m.desync_detected || (frame
            < m.current_frame && spec_state_checksum(m.snapshot_at(frame as int))
            != remote_checksum))
    &&& n == (RollbackManager {
            desync_detected: n.desync_detected,
            ..m
        })
}

impl RollbackManager {
    /// The stored snapshots, by slot.
    pub open spec fn snapshots(&self) -> Seq<GameState> {
        self.snapshots@
    }

    /// The state stored as the start of `frame`.
    pub open spec fn snapshot_at(&self, frame: int) -> GameState {
        self.snapshots()[slot(frame)]
    }

    /// The state the match started from.
    pub open spec fn origin(&self) -> GameState {
        self.origin@
    }

    /// The inputs each simulated frame was played with, oldest first.
    pub open spec fn history(&self) -> Seq<[PlayerInput; MAX_PLAYERS]> {
        self.history@
    }

    /// The remote player's index.
    pub open spec fn remote(&self) -> int {
        1 - self.local_player
    }

    /// Buffers of full size, a valid player index, and every state held
    /// within bounds.
    pub open spec fn wf(&self) -> bool {
        &&& self.inputs.wf()
        &&& self.snapshots().len() == BUFFER_SIZE
        &&& self.local_player < MAX_PLAYERS
        &&& state_bounded(self.state)
        &&& forall|i: int| 0 <= i < BUFFER_SIZE ==> state_bounded(#[trigger] self.snapshots()[i])
    }

    /// Every state held leaves room for a full rollback window, and the
    /// frame counter room for the input delay.
    pub open spec fn in_limits(&self) -> bool {
        &&& snapshot_in_limits(self.state)
        &&& forall|i: int| 0 <= i < BUFFER_SIZE ==> snapshot_in_limits(#[trigger] self.snapshots()[i])
        &&& self.current_frame < u32::MAX - INPUT_DELAY
    }

    /// The oldest frame a rollback can return to.
    pub open spec fn window_start(&self) -> int {
        if self.current_frame >= MAX_ROLLBACK_FRAMES {
            self.current_frame - MAX_ROLLBACK_FRAMES
        } else {
            0
        }
    }

    /// The oldest frame whose snapshot the buffer still holds.
    pub open spec fn snapshot_start(&self) -> int {
        if self.current_frame >= BUFFER_SIZE {
            self.current_frame - BUFFER_SIZE
        } else {
            0
        }
    }

    /// Every snapshot still held is the state reached along the history.
    pub open spec fn snapshots_played(&self) -> bool {
        forall|f: int|
            self.snapshot_start() <= f < self.current_frame ==> #[trigger] self.snapshot_at(f)
                == run(self.origin(), self.history().take(f))
    }

    /// The current state is the origin played with the history, and over
    /// the rollback window the snapshots are the states along the way and
    /// the stored inputs are the ones played.
    pub open spec fn consistent(&self) -> bool {
        &&& self.history().len() == self.current_frame
        &&& self.state == run(self.origin(), self.history())
        &&& forall|f: int|
            self.window_start() <= f < self.current_frame ==> {
                &&& #[trigger] self.snapshot_at(f) == run(self.origin(), self.history().take(f))
                &&& self.history()[f] == self.inputs.input_at(f)
            }
        &&& forall|f: int|
            self.window_start() <= f < self.current_frame ==> #[trigger] self.inputs.holds(f)
        &&& self.snapshots_played()
    }

    pub fn new(initial_state: GameState, local_player: usize) -> (r: Self)
        requires
            local_player < MAX_PLAYERS,
        ensures
            r.inputs.wf(),
            r.snapshots().len() == BUFFER_SIZE,
            r.wf() == state_bounded(initial_state),
            r.consistent(),
            r.current_frame == 0,
            r.last_confirmed_frame == 0,
            r.local_player == local_player,
            r.state == initial_state,
            r.last_rollback_count == 0,
            !r.desync_detected,
            r.origin() == initial_state,
            r.history() == Seq::<[PlayerInput; MAX_PLAYERS]>::empty(),
            forall|i: int| 0 <= i < BUFFER_SIZE ==> #[trigger] r.snapshots()[i] == initial_state,
            forall|i: int| 0 <= i < BUFFER_SIZE ==> #[trigger] r.inputs@.0[i] == [PlayerInput(0), PlayerInput(0)],
            forall|i: int| 0 <= i < BUFFER_SIZE ==> #[trigger] r.inputs@.1[i] == [false, false],
    {
        let mut snapshots = SnapshotBuffer::new(initial_state);
        snapshots.save(0, &initial_state);
        let r = RollbackManager {
            current_frame: 0,
            last_confirmed_frame: 0,
            local_player,
            state: initial_state,
            last_rollback_count: 0,
            desync_detected: false,
            inputs: InputBuffer::new(),
            snapshots,
            origin: Ghost(initial_state),
            history: Ghost(Seq::empty()),
        };
        proof {
            assert forall|i: int| 0 <= i < BUFFER_SIZE implies #[trigger] r.snapshots()[i] == initial_state by {
            }
        }
        r
    }

    /// Add the local player's input. Scheduled INPUT_DELAY frames ahead.
    /// Returns the target frame number.
    pub fn add_local_input(&mut self, input: PlayerInput) -> (r: u32)
        requires
            old(self).wf(),
            old(self).current_frame <= u32::MAX - INPUT_DELAY,
        ensures
            local_input_step(*old(self), input, r, *final(self)),
    {
        let target = self.current_frame + INPUT_DELAY;
        self.inputs.set(target, self.local_player, input, true);
        proof {
            if old(self).consistent() {
                assert forall|f: int| self.window_start() <= f < self.current_frame implies {
                    &&& #[trigger] self.snapshot_at(f) == run(self.origin(), self.history().take(f))
                    &&& self.history()[f] == self.inputs.input_at(f)
                } by {
                    lemma_slots_differ(f, target as int);
                    assert(old(self).snapshot_at(f) == run(old(self).origin(), old(self).history().take(f)));
                    assert(self.inputs.input_at(f) == old(self).inputs.input_at(f));
                }
                assert forall|f: int| self.window_start() <= f < self.current_frame implies #[trigger] self.inputs.holds(f) by {
                    lemma_slots_differ(f, target as int);
                    assert(old(self).inputs.holds(f));
                }
                assert forall|f: int| self.snapshot_start() <= f < self.current_frame implies #[trigger] self.snapshot_at(f)
                    == run(self.origin(), self.history().take(f)) by {
                    assert(old(self).snapshot_at(f) == run(old(self).origin(), old(self).history().take(f)));
                }
            }
        }
        target
    }

    /// Fill in predictions for the players whose inputs for `frame` are not
    /// confirmed.
    fn ensure_inputs(&mut self, frame: u32)
        requires
            old(self).wf(),
        ensures
            final(self).inputs@ == with_predictions(old(self).inputs@, frame as int),
            final(self).inputs.wf(),
            final(self).inputs.frames() == old(self).inputs.frames(),
            *final(self) == (RollbackManager { inputs: final(self).inputs, ..*old(self) }),
    {
        let ghost v0 = self.inputs@;
        if !self.inputs.is_confirmed(frame, 0) {
            self.inputs.predict(frame, 0);
        }
        let ghost v1 = self.inputs@;
        if !self.inputs.is_confirmed(frame, 1) {
            self.inputs.predict(frame, 1);
        }
        proof {
            let i = slot(frame as int);
            assert(v1.0[i][0] == predicted_input(v0, frame as int, 0));
            assert(v1.1 == v0.1);
            if frame > 0 {
                lemma_slots_differ(frame - 1, frame as int);
            }
            assert(predicted_input(v1, frame as int, 1) == predicted_input(v0, frame as int, 1));
            assert(self.inputs@.0[i] =~= predicted_row(v0, frame as int));
            assert(self.inputs@.0 =~= with_predictions(v0, frame as int).0);
        }
    }

    /// Advance simulation by one frame. Predicts missing inputs.
    pub fn advance(&mut self) -> (r: &GameState)
        requires
            old(self).wf(),
            old(self).in_limits(),
        ensures
            *r == final(self).state,
            advance_step(*old(self), *final(self)),
    {
        self.last_rollback_count = 0;

        // Save state BEFORE this frame's simulation
        self.snapshots.save(self.current_frame, &self.state);

        // A slot still holding an older frame's inputs is emptied
        self.inputs.claim(self.current_frame);
        let ghost claimed = self.inputs@;

        // Predict any missing inputs
        self.ensure_inputs(self.current_frame);

        let inputs = self.inputs.get(self.current_frame);
        proof {
            assert(inputs == predicted_row(claimed, old(self).current_frame as int));
        }
        advance_frame(&mut self.state, inputs);
        self.history = Ghost(self.history@.push(inputs));
        self.current_frame += 1;
        proof {
            let cf = old(self).current_frame as int;
            lemma_run_push(self.origin(), old(self).history(), inputs);
            assert forall|i: int| 0 <= i < BUFFER_SIZE implies state_bounded(
                #[trigger] self.snapshots()[i],
            ) by {
                if i != slot(cf) {
                    assert(self.snapshots()[i] == old(self).snapshots()[i]);
                }
            }
            if old(self).consistent() {
                assert forall|f: int| self.window_start() <= f < self.current_frame implies {
                    &&& #[trigger] self.snapshot_at(f) == run(self.origin(), self.history().take(f))
                    &&& self.history()[f] == self.inputs.input_at(f)
                } by {
                    assert(self.history().take(f) =~= old(self).history().take(f));
                    if f < cf {
                        lemma_slots_differ(f, cf);
                        assert(old(self).snapshot_at(f) == run(
                            old(self).origin(),
                            old(self).history().take(f),
                        ));
                    } else {
                        assert(old(self).history().take(f) =~= old(self).history());
                    }
                }
                assert forall|f: int| self.window_start() <= f < self.current_frame implies #[trigger] self.inputs.holds(f) by {
                    if f < cf {
                        lemma_slots_differ(f, cf);
                        assert(old(self).inputs.holds(f));
                    }
                }
                assert forall|f: int| self.snapshot_start() <= f < self.current_frame implies #[trigger] self.snapshot_at(f)
                    == run(self.origin(), self.history().take(f)) by {
                    assert(self.history().take(f) =~= old(self).history().take(f));
                    if f < cf {
                        lemma_slots_differ(f, cf);
                        assert(old(self).snapshot_at(f) == run(
                            old(self).origin(),
                            old(self).history().take(f),
                        ));
                    } else {
                        assert(old(self).history().take(f) =~= old(self).history());
                    }
                }
            }
        }
        &self.state
    }

    /// Consistent up to `frame`: the snapshots of the window up to and
    /// including `frame` are the states along the history, and the stored
    /// inputs before `frame` are the ones played.
    pub open spec fn prefix_consistent(&self, frame: int) -> bool {
        &&& self.history().len() == self.current_frame
        &&& forall|f: int|
            self.window_start() <= f <= frame && f < self.current_frame
                ==> #[trigger] self.snapshot_at(f) == run(self.origin(), self.history().take(f))
        &&& forall|f: int|
            self.window_start() <= f < frame ==> #[trigger] self.history()[f]
                == self.inputs.input_at(f)
        &&& forall|f: int|
            self.window_start() <= f < self.current_frame ==> #[trigger] self.inputs.holds(f)
        &&& self.snapshots_played()
    }

    /// Restore the snapshot of `frame` and re-simulate up to the current
    /// frame with the inputs now stored, predicting the missing ones. Frames
    /// older than the rollback window are left alone.
    #[verifier::rlimit(40)]
    fn rollback_to(&mut self, frame: u32)
        requires
            old(self).wf(),
            old(self).in_limits(),
            frame < old(self).current_frame,
        ensures
            final(self).wf(),
            frame < old(self).window_start() ==> *final(self) == *old(self),
            frame >= old(self).window_start() ==> {
                &&& final(self).last_rollback_count == old(self).current_frame - frame
                &&& final(self).inputs@ == predict_from(
                    old(self).inputs@,
                    frame as int,
                    old(self).current_frame as int,
                )
                &&& final(self).state == run(
                    old(self).snapshot_at(frame as int),
                    rows(final(self).inputs@, frame as int, old(self).current_frame as int),
                )
                &&& forall|f: int|
                    frame <= f < old(self).current_frame ==> #[trigger] final(self).snapshot_at(f)
                        == run(
                        old(self).snapshot_at(frame as int),
                        rows(final(self).inputs@, frame as int, f),
                    )
                &&& forall|g: int|
                    old(self).current_frame - BUFFER_SIZE <= g < frame
                        ==> #[trigger] final(self).snapshot_at(g) == old(self).snapshot_at(g)
                &&& final(self).current_frame == old(self).current_frame
                &&& final(self).inputs.frames() == old(self).inputs.frames()
                &&& final(self).last_confirmed_frame == old(self).last_confirmed_frame
                &&& final(self).local_player == old(self).local_player
                &&& final(self).desync_detected == old(self).desync_detected
                &&& final(self).origin() == old(self).origin()
                &&& final(self).history() == old(self).history().take(frame as int) + rows(
                    final(self).inputs@,
                    frame as int,
                    old(self).current_frame as int,
                )
                &&& old(self).prefix_consistent(frame as int) ==> final(self).consistent()
            },
    {
        let earliest = self.current_frame.saturating_sub(MAX_ROLLBACK_FRAMES);
        if frame < earliest {
            return;
        }
        let resim_count = self.current_frame - frame;
        self.last_rollback_count = resim_count;

        // Restore to the state at the START of the mispredicted frame
        self.state = self.snapshots.load(frame);
        let ghost start = self.state;
        let ghost v0 = self.inputs@;
        let ghost h0 = self.history@.take(frame as int);
        let ghost mut played: Seq<[PlayerInput; MAX_PLAYERS]> = Seq::empty();
        self.history = Ghost(h0);

        // Re-simulate from frame to current_frame - 1
        let mut f = frame;
        while f < self.current_frame
            invariant
                frame <= f <= self.current_frame,
                self.current_frame == old(self).current_frame,
                self.current_frame - frame <= MAX_ROLLBACK_FRAMES,
                self.wf(),
                self.last_confirmed_frame == old(self).last_confirmed_frame,
                self.local_player == old(self).local_player,
                self.desync_detected == old(self).desync_detected,
                self.last_rollback_count == old(self).current_frame - frame,
                self.origin == old(self).origin,
                start == old(self).snapshot_at(frame as int),
                snapshot_in_limits(start),
                self.inputs@ == predict_from(v0, frame as int, f as int),
                self.inputs.frames() == old(self).inputs.frames(),
                v0 == old(self).inputs@,
                played == rows(self.inputs@, frame as int, f as int),
                self.state == run(start, played),
                self.history@ == h0 + played,
                forall|g: int|
                    frame <= g < f ==> #[trigger] self.snapshot_at(g) == run(
                        start,
                        played.take(g - frame),
                    ),
                forall|g: int|
                    old(self).current_frame - BUFFER_SIZE <= g < frame
                        ==> #[trigger] self.snapshot_at(g) == old(self).snapshot_at(g),
                self.state.players[0].damage_percent <= start.players[0].damage_percent + (f
                    - frame) * MAX_FRAME_DAMAGE,
                self.state.players[1].damage_percent <= start.players[1].damage_percent + (f
                    - frame) * MAX_FRAME_DAMAGE,
                !self.state.match_over ==> !start.match_over && self.state.frame <= start.frame
                    + (f - frame),
            decreases self.current_frame - f,
        {
            let ghost before = *self;
            self.snapshots.save(f, &self.state);
            self.ensure_inputs(f);
            let inputs = self.inputs.get(f);
            proof {
                assert(f - frame < MAX_ROLLBACK_FRAMES);
                assert(MAX_FRAME_DAMAGE == 224);
                assert((f - frame) * MAX_FRAME_DAMAGE <= 7 * 224) by (nonlinear_arith)
                    requires
                        0 <= f - frame <= 7,
                        MAX_FRAME_DAMAGE == 224,
                ;
                assert(start.players[0].damage_percent <= ROLLBACK_DAMAGE_LIMIT);
                assert(start.players[1].damage_percent <= ROLLBACK_DAMAGE_LIMIT);
                assert(self.state.players[0].damage_percent <= DAMAGE_LIMIT);
                assert(self.state.players[1].damage_percent <= DAMAGE_LIMIT);
                assert(state_bounded(self.state));
                assert(frame_ready(self.state));
                lemma_predict_from_step(v0, frame as int, f as int);
                lemma_rows_after_prediction(before.inputs@, frame as int, f as int);
                assert(inputs == predicted_row(before.inputs@, f as int));
            }
            advance_frame(&mut self.state, inputs);
            self.history = Ghost(self.history@.push(inputs));
            proof {
                lemma_run_push(start, played, inputs);
                assert forall|g: int| frame <= g < f + 1 implies #[trigger] self.snapshot_at(g)
                    == run(start, played.push(inputs).take(g - frame)) by {
                    if g < f {
                        lemma_slots_differ(g, f as int);
                        assert(played.push(inputs).take(g - frame) =~= played.take(g - frame));
                        assert(self.snapshot_at(g) == before.snapshot_at(g));
                    } else {
                        assert(played.push(inputs).take(g - frame) =~= played);
                    }
                }
                assert forall|g: int| old(self).current_frame - BUFFER_SIZE <= g < frame implies
                    #[trigger] self.snapshot_at(g) == old(self).snapshot_at(g) by {
                    lemma_slots_differ(g, f as int);
                    assert(self.snapshot_at(g) == before.snapshot_at(g));
                }
                assert forall|i: int| 0 <= i < BUFFER_SIZE implies state_bounded(
                    #[trigger] self.snapshots()[i],
                ) by {
                    if i != slot(f as int) {
                        assert(self.snapshots()[i] == before.snapshots()[i]);
                    }
                }
                assert(h0 + played.push(inputs) =~= (h0 + played).push(inputs));
                played = played.push(inputs);
            }
            f += 1;
        }
        proof {
            assert forall|g: int| frame <= g < old(self).current_frame implies #[trigger] self.snapshot_at(g)
                == run(start, rows(self.inputs@, frame as int, g)) by {
                assert(played.take(g - frame) =~= rows(self.inputs@, frame as int, g));
            }
            if old(self).prefix_consistent(frame as int) {
                self.lemma_rollback_consistent(*old(self), frame as int, start, h0, played);
            }
        }
    }

    proof fn lemma_rollback_consistent(
        &self,
        before: RollbackManager,
        frame: int,
        start: GameState,
        h0: Seq<[PlayerInput; MAX_PLAYERS]>,
        played: Seq<[PlayerInput; MAX_PLAYERS]>,
    )
        requires
            before.wf(),
            before.prefix_consistent(frame),
            before.window_start() <= frame < before.current_frame,
            self.current_frame == before.current_frame,
            self.origin() == before.origin(),
            start == before.snapshot_at(frame),
            h0 == before.history().take(frame),
            self.history() == h0 + played,
            played.len() == before.current_frame - frame,
            played == rows(self.inputs@, frame, before.current_frame as int),
            self.inputs@ == predict_from(before.inputs@, frame, before.current_frame as int),
            self.inputs.frames() == before.inputs.frames(),
            self.state == run(start, played),
            forall|g: int|
                frame <= g < before.current_frame ==> #[trigger] self.snapshot_at(g) == run(
                    start,
                    played.take(g - frame),
                ),
            forall|g: int|
                before.current_frame - BUFFER_SIZE <= g < frame ==> #[trigger] self.snapshot_at(g)
                    == before.snapshot_at(g),
        ensures
            self.consistent(),
    {
        let cf = before.current_frame as int;
        let origin = before.origin();
        let h = self.history();
        assert(start == run(origin, h0));
        lemma_run_append(origin, h0, played);
        assert forall|f: int| self.window_start() <= f < self.current_frame implies {
            &&& #[trigger] self.snapshot_at(f) == run(self.origin(), self.history().take(f))
            &&& self.history()[f] == self.inputs.input_at(f)
        } by {
            if f < frame {
                assert(h.take(f) =~= before.history().take(f));
                assert(self.snapshot_at(f) == before.snapshot_at(f));
                lemma_predict_from_keeps(before.inputs@, frame, cf, f);
                assert(before.history()[f] == before.inputs.input_at(f));
            } else {
                lemma_run_append(origin, h0, played.take(f - frame));
                assert(h.take(f) =~= h0 + played.take(f - frame));
            }
        }
        assert forall|f: int| self.window_start() <= f < self.current_frame implies #[trigger] self.inputs.holds(f) by {
            assert(before.inputs.holds(f));
        }
        assert forall|f: int| self.snapshot_start() <= f < self.current_frame implies #[trigger] self.snapshot_at(f)
            == run(self.origin(), self.history().take(f)) by {
            if f < frame {
                assert(h.take(f) =~= before.history().take(f));
                assert(self.snapshot_at(f) == before.snapshot_at(f));
                assert(before.snapshot_at(f) == run(origin, before.history().take(f)));
            } else {
                lemma_run_append(origin, h0, played.take(f - frame));
                assert(h.take(f) =~= h0 + played.take(f - frame));
            }
        }
    }

    /// Advance the last confirmed frame over frames with both inputs
    /// confirmed, up to the current frame.
    fn update_confirmed_frame(&mut self)
        requires
            old(self).wf(),
        ensures
            *final(self) == (RollbackManager {
                last_confirmed_frame: final(self).last_confirmed_frame,
                ..*old(self)
            }),
            final(self).last_confirmed_frame == confirmed_run_end(
                old(self).inputs@,
                old(self).last_confirmed_frame as int,
                old(self).current_frame as int,
            ),
    {
        while self.last_confirmed_frame < self.current_frame && self.inputs.is_confirmed(
            self.last_confirmed_frame,
            0,
        ) && self.inputs.is_confirmed(self.last_confirmed_frame, 1)
            invariant
                self.wf(),
                *self == (RollbackManager {
                    last_confirmed_frame: self.last_confirmed_frame,
                    ..*old(self)
                }),
                confirmed_run_end(
                    self.inputs@,
                    self.last_confirmed_frame as int,
                    self.current_frame as int,
                ) == confirmed_run_end(
                    old(self).inputs@,
                    old(self).last_confirmed_frame as int,
                    old(self).current_frame as int,
                ),
            decreases self.current_frame - self.last_confirmed_frame,
        {
            self.last_confirmed_frame += 1;
        }
    }

    /// A remote input for `frame` that keeps the manager consistent: within
    /// a ring's length of the current frame (so its slot is not one of the
    /// rollback window's), and, for a frame of the window whose remote
    /// input was already confirmed, the same input again.
    pub open spec fn accepts_remote(&self, frame: int, input: PlayerInput) -> bool {
        &&& self.current_frame - 120 <= frame < self.current_frame + 120
        &&& (self.window_start() <= frame < self.current_frame && self.inputs.confirmed_at(
            frame,
        )[self.remote()]) ==> self.inputs.input_at(frame)[self.remote()] == input
    }

    /// Whether a remote input fits what is already known: its frame lies
    /// near the current one, and it does not contradict an input of the
    /// rollback window that was already confirmed.
    pub fn accepts_remote_input(&self, frame: u32, input: PlayerInput) -> (r: bool)
        requires
            self.wf(),
        ensures
            r == self.accepts_remote(frame as int, input),
    {
        let cf = self.current_frame as u64;
        let f = frame as u64;
        if f + 120 < cf || f >= cf + 120 {
            return false;
        }
        let start: u32 = if self.current_frame >= MAX_ROLLBACK_FRAMES {
            self.current_frame - MAX_ROLLBACK_FRAMES
        } else {
            0
        };
        let remote = 1 - self.local_player;
        if start <= frame && frame < self.current_frame && self.inputs.is_confirmed(frame, remote) {
            self.inputs.get(frame)[remote].0 == input.0
        } else {
            true
        }
    }

    /// Add a remote player's confirmed input for a specific frame.
    /// Triggers rollback if frame is in the past and prediction was wrong.
    #[verifier::rlimit(60)]
    pub fn add_remote_input(&mut self, frame: u32, input: PlayerInput)
        requires
            old(self).wf(),
            old(self).in_limits(),
        ensures
            remote_input_step(*old(self), frame, input, *final(self)),
    {
        let remote = 1 - self.local_player;
        // What the slot holds for this frame (nothing, if it still holds
        // an older frame's inputs)
        let (old_input, confirmed) = self.inputs.stored_for(frame, remote);
        let was_predicted = !confirmed;

        self.inputs.set(frame, remote, input, true);
        let ghost mid = *self;

        if frame < self.current_frame && was_predicted && old_input != input {
            self.rollback_to(frame);
        }

        proof {
            let cf = old(self).current_frame as int;
            let rolls = frame < cf && was_predicted && old_input != input && frame
                >= old(self).window_start();
            if old(self).consistent() && old(self).accepts_remote(frame as int, input) {
                assert forall|f: int| old(self).window_start() <= f < cf && f != frame implies
                    #[trigger] mid.inputs.input_at(f) == old(self).inputs.input_at(f) && mid.inputs.holds(f) by {
                    assert(old(self).inputs.holds(f));
                    if f < frame {
                        lemma_slots_differ(f, frame as int);
                    } else {
                        lemma_slots_differ(frame as int, f);
                    }
                }
                if old(self).window_start() <= frame < cf {
                    assert(old(self).inputs.holds(frame as int));
                    assert(old(self).inputs.claimed(frame as int) == old(self).inputs@);
                }
                assert forall|f: int| old(self).window_start() <= f < cf implies #[trigger] mid.inputs.holds(f) by {
                    assert(old(self).inputs.holds(f));
                    if f < frame {
                        lemma_slots_differ(f, frame as int);
                    } else if f > frame {
                        lemma_slots_differ(frame as int, f);
                    }
                }
                if rolls {
                    assert forall|f: int|
                        mid.window_start() <= f <= frame && f < mid.current_frame implies #[trigger] mid.snapshot_at(f)
                        == run(mid.origin(), mid.history().take(f)) by {
                        assert(old(self).snapshot_at(f) == run(old(self).origin(), old(self).history().take(f)));
                    }
                    assert forall|f: int| mid.window_start() <= f < frame implies #[trigger] mid.history()[f]
                        == mid.inputs.input_at(f) by {
                        assert(old(self).snapshot_at(f) == run(old(self).origin(), old(self).history().take(f)));
                    }
                    assert forall|f: int| mid.snapshot_start() <= f < mid.current_frame implies #[trigger] mid.snapshot_at(f)
                        == run(mid.origin(), mid.history().take(f)) by {
                        assert(old(self).snapshot_at(f) == run(old(self).origin(), old(self).history().take(f)));
                    }
                    assert(mid.prefix_consistent(frame as int));
                } else {
                    let i = slot(frame as int);
                    if old(self).window_start() <= frame < cf {
                        assert(set_at(old(self).inputs@.0[i], remote as int, input) =~= old(
                            self,
                        ).inputs@.0[i]);
                        assert(mid.inputs@.0 =~= old(self).inputs@.0);
                    }
                    assert forall|f: int| self.window_start() <= f < self.current_frame implies {
                        &&& #[trigger] self.snapshot_at(f) == run(self.origin(), self.history().take(f))
                        &&& self.history()[f] == self.inputs.input_at(f)
                    } by {
                        assert(old(self).snapshot_at(f) == run(old(self).origin(), old(self).history().take(f)));
                    }
                    assert forall|f: int| self.snapshot_start() <= f < self.current_frame implies #[trigger] self.snapshot_at(f)
                        == run(self.origin(), self.history().take(f)) by {
                        assert(old(self).snapshot_at(f) == run(old(self).origin(), old(self).history().take(f)));
                    }
                }
            }
            if rolls {
                lemma_predict_from_keeps_confirmed(mid.inputs@, frame as int, cf);
            }
        }

        let ghost after_rollback = *self;
        self.update_confirmed_frame();
        proof {
            let cf = old(self).current_frame as int;
            assert forall|f: int| #[trigger] self.snapshot_at(f) == after_rollback.snapshot_at(f) by {
            }
            if after_rollback.consistent() {
                assert forall|f: int| self.window_start() <= f < self.current_frame implies {
                    &&& #[trigger] self.snapshot_at(f) == run(self.origin(), self.history().take(f))
                    &&& self.history()[f] == self.inputs.input_at(f)
                } by {
                    assert(after_rollback.snapshot_at(f) == run(
                        after_rollback.origin(),
                        after_rollback.history().take(f),
                    ));
                }
                assert forall|f: int| self.snapshot_start() <= f < self.current_frame implies #[trigger] self.snapshot_at(f)
                    == run(self.origin(), self.history().take(f)) by {
                    assert(after_rollback.snapshot_at(f) == run(
                        after_rollback.origin(),
                        after_rollback.history().take(f),
                    ));
                }
            }
        }
    }

    /// Check a remote checksum against local for desync detection.
    pub fn check_remote_checksum(&mut self, frame: u32, remote_checksum: u64)
        requires
            old(self).wf(),
        ensures
            checksum_step(*old(self), frame, remote_checksum, *final(self)),
    {
        if frame < self.current_frame {
            let local = state_checksum(&self.snapshots.load(frame));
            if local != remote_checksum {
                self.desync_detected = true;
            }
        }
    }

    /// Get the checksum for a confirmed frame (for sending to remote).
    pub fn checksum_for_frame(&self, frame: u32) -> (r: u64)
        requires
            self.snapshots().len() == BUFFER_SIZE,
        ensures
            r == spec_state_checksum(self.snapshot_at(frame as int)),
            // For any of the last `BUFFER_SIZE` frames, the checksum of the
            // state that frame started from.
            self.consistent() && self.snapshot_start() <= frame < self.current_frame ==> r
                == spec_state_checksum(run(self.origin(), self.history().take(frame as int))),
    {
        state_checksum(&self.snapshots.load(frame))
    }

    /// Whether the manager can take inputs and advance: its buffers and
    /// states are valid, and every state held leaves room for a full
    /// rollback window.
    pub fn within_limits(&self) -> (r: bool)
        requires
            self.inputs.wf(),
            self.snapshots().len() == BUFFER_SIZE,
        ensures
            r == (self.wf() && self.in_limits()),
    {
        if self.local_player >= MAX_PLAYERS || !is_state_bounded(&self.state) || !within_rollback_limits(
            &self.state,
        ) || self.current_frame >= u32::MAX - INPUT_DELAY {
            return false;
        }
        let mut i: usize = 0;
        while i < BUFFER_SIZE
            invariant
                i <= BUFFER_SIZE,
                self.snapshots().len() == BUFFER_SIZE,
                forall|j: int|
                    0 <= j < i ==> state_bounded(#[trigger] self.snapshots()[j])
                        && snapshot_in_limits(self.snapshots()[j]),
            decreases BUFFER_SIZE - i,
        {
            let snapshot = self.snapshots.get(i);
            if !is_state_bounded(&snapshot) || !within_rollback_limits(&snapshot) {
                return false;
            }
            i += 1;
        }
        true
    }
}

fn within_rollback_limits(s: &GameState) -> (r: bool)
    ensures
        r == snapshot_in_limits(*s),
{
    s.players[0].damage_percent <= ROLLBACK_DAMAGE_LIMIT && s.players[1].damage_percent
        <= ROLLBACK_DAMAGE_LIMIT && (s.match_over || s.frame < u32::MAX - MAX_ROLLBACK_FRAMES)
}

} // verus!
