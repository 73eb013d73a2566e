//! The game engine: one active piece driven through movement, rotation with
//! kick retries, lock delay, line clears, scoring and seven-bag piece
//! sequencing.  The host calls `step` with one event at a time and drains
//! the queued `GameEvent`s after each call; the engine itself does no I/O.

use vstd::prelude::*;

verus! {

use crate::cells::{spec_cells, Cell};
use crate::field::{empty_grid, float_grid, row_count, Field};
use crate::mino::{
    spec_abs_cells, spec_form_of, spec_hits_at, withCell, MinoKind, MinoState, Position, Rotatable,
};
use crate::rng::{rng_from_seed, shuffle_range};
use crate::rotation::{spec_left_state, spec_right_state, Rotation};
use crate::srs::{Left, Right, RotatedMino};
use crate::{FIELD_H, FIELD_TOP, FIELD_W, LOCKING_TIME, LOCKING_WAIT_TIME, MINO_FIRST_X,
    MINO_FIRST_Y};
use vstd::multiset::Multiset;

/// The score counters.  They only move on a successful lock that deletes
/// rows, and saturate instead of wrapping at the top of `usize`.
#[derive(Debug, Clone, Copy)]
pub struct Score {
    pub deleted_line: usize,
    pub t_spin1: usize,
    pub t_spin2: usize,
    pub t_spin3: usize,
    pub tetris: usize,
}

/// A zeroed score.
pub open spec fn spec_score_zero() -> Score {
    Score { deleted_line: 0, t_spin1: 0, t_spin2: 0, t_spin3: 0, tetris: 0 }
}

impl Score {
    pub fn new() -> (s: Score)
        ensures
            s == spec_score_zero(),
    {
        Score { deleted_line: 0, t_spin1: 0, t_spin2: 0, t_spin3: 0, tetris: 0 }
    }
}

impl Default for Score {
    fn default() -> (s: Score)
        ensures
            s == spec_score_zero(),
    {
        Score::new()
    }
}

/// How one lock event moves the score: `n` rows were deleted at once, and
/// `spun` says whether the last grace-resetting action was a rotation.
/// Four rows are a tetris; one to three rows with spin credit count as the
/// matching spin tier; anything else only moves the line counter.
pub open spec fn spec_score_after(s: Score, n: int, spun: bool) -> Score {
    if n == 0 {
        s
    } else {
        let s1 = Score { deleted_line: s.deleted_line.saturating_add(n as usize), ..s };
        if n == 4 {
            Score { tetris: s1.tetris.saturating_add(1), ..s1 }
        } else if spun {
            if n == 1 {
                Score { t_spin1: s1.t_spin1.saturating_add(1), ..s1 }
            } else if n == 2 {
                Score { t_spin2: s1.t_spin2.saturating_add(1), ..s1 }
            } else {
                Score { t_spin3: s1.t_spin3.saturating_add(1), ..s1 }
            }
        } else {
            s1
        }
    }
}

/// The events the host feeds into `step`.
#[derive(Debug, Clone, Copy, PartialEq, Eq, Structural)]
pub enum Event {
    MoveR,
    MoveL,
    MoveDown,
    Land,
    RotateR,
    RotateL,
    TimeGo,
    FreeFall,
    Nop,
    Test(TestEvent),
}

/// Direct state manipulation used by tests: teleport the piece, or force a
/// rotation state without kicks or collision checks.
#[derive(Debug, Clone, Copy, PartialEq, Eq, Structural)]
pub enum TestEvent {
    AbsoluteMovement(i8, i8),
    AbsoluteRotation(AbsoluteRotation),
}

/// A target rotation state for `TestEvent::AbsoluteRotation`.
#[derive(Debug, Clone, Copy, PartialEq, Eq, Structural)]
pub enum AbsoluteRotation {
    State0,
    StateR,
    StateL,
    State2,
}

/// The rotation state an `AbsoluteRotation` stands for.
pub open spec fn spec_absolute_rotation_state(r: AbsoluteRotation) -> Rotation {
    match r {
        AbsoluteRotation::State0 => Rotation::State0,
        AbsoluteRotation::StateR => Rotation::StateR,
        AbsoluteRotation::StateL => Rotation::StateL,
        AbsoluteRotation::State2 => Rotation::State2,
    }
}

/// What the engine reports back to the host.  The host drains the queue
/// with `take_events` after each call into the engine.
#[derive(Debug, Clone)]
pub enum GameEvent {
    Start,
    ScoreChange(Score),
    Next(Vec<usize>),
    ChangeNextMinoAggregation,
    Overflow,
    Nop,
}

/// The multiset holding each of the seven piece indices exactly once.
pub open spec fn full_bag() -> Multiset<usize> {
    seq![0usize, 1usize, 2usize, 3usize, 4usize, 5usize, 6usize].to_multiset()
}

/// The bag buffer is two back-to-back permutations of the seven piece
/// indices: the active window and the pre-shuffled next window.
pub open spec fn bag_ok(s: Seq<usize>) -> bool {
    &&& s.len() == 14
    &&& s.subrange(0, 7).to_multiset() == full_bag()
    &&& s.subrange(7, 14).to_multiset() == full_bag()
}

/// The piece kind at a bag index, in catalog order.
pub open spec fn spec_kind_of_index(i: int) -> MinoKind {
    if i == 0 {
        MinoKind::MinoI
    } else if i == 1 {
        MinoKind::MinoO
    } else if i == 2 {
        MinoKind::MinoS
    } else if i == 3 {
        MinoKind::MinoZ
    } else if i == 4 {
        MinoKind::MinoJ
    } else if i == 5 {
        MinoKind::MinoL
    } else {
        MinoKind::MinoT
    }
}

/// The freshly spawned piece for a bag index: spawn orientation, pivot at
/// the spawn position inside the hidden rows.
pub open spec fn spec_minos_src(i: int) -> MinoState {
    MinoState {
        kind: spec_kind_of_index(i),
        state: Rotation::State0,
        x: MINO_FIRST_X,
        y: MINO_FIRST_Y,
    }
}

/// The spawn piece for a bag index, as executable code.
pub fn mino_src(index: usize) -> (m: MinoState)
    requires
        index < 7,
    ensures
        m == spec_minos_src(index as int),
{
    let kind = match index {
        0 => MinoKind::MinoI,
        1 => MinoKind::MinoO,
        2 => MinoKind::MinoS,
        3 => MinoKind::MinoZ,
        4 => MinoKind::MinoJ,
        5 => MinoKind::MinoL,
        _ => MinoKind::MinoT,
    };
    MinoState { kind, state: Rotation::State0, x: MINO_FIRST_X, y: MINO_FIRST_Y }
}

/// A permutation of the full bag only holds indices below seven.
pub proof fn lemma_bag_values(s: Seq<usize>)
    requires
        s.to_multiset() == full_bag(),
    ensures
        s.len() == 7,
        forall|i: int| 0 <= i < s.len() ==> (#[trigger] s[i]) < 7,
{
    broadcast use vstd::seq_lib::group_to_multiset_ensures;

    let model = seq![0usize, 1usize, 2usize, 3usize, 4usize, 5usize, 6usize];
    assert(s.len() == s.to_multiset().len());
    assert(model.len() == model.to_multiset().len());
    assert forall|i: int| 0 <= i < s.len() implies (#[trigger] s[i]) < 7 by {
        assert(s.contains(s[i]));
        assert(s.to_multiset().count(s[i]) > 0);
        assert(model.contains(s[i]));
        let j = choose|j: int| 0 <= j < model.len() && model[j] == s[i];
        assert(j == 0 || j == 1 || j == 2 || j == 3 || j == 4 || j == 5 || j == 6);
    }
}

/// The game engine.  Its state is public so that hosts and tests can read
/// it as a snapshot and set up positions directly, as the test events do;
/// this is a deliberate opening of the original's private state.  A host
/// that writes the fields itself must keep `wf()` intact -- the engine's
/// methods are specified only on well-formed states, and all of them
/// preserve `wf()` on their own.
pub struct Game {
    /// Drives the bag shuffles; opaque to verification.
    pub rng: rand::rngs::SmallRng,
    /// Two laps of shuffled piece indices; 7..14 is the next lap.
    pub minos_index: Vec<usize>,
    /// Cursor into the active lap, always below 7.
    pub minos_position: usize,
    /// The piece under the player's control.
    pub mino: MinoState,
    pub field: Field,
    /// False before `start` and after a game over.
    pub alive: bool,
    /// True while the piece rests on the stack and its lock delay runs.
    pub is_landing: bool,
    /// True between a lock and the row-clear resolution.
    pub is_locked: bool,
    pub landing_wait_count: u8,
    pub locking_wait_count: u8,
    /// Whether the last grace-resetting action was a rotation.
    pub spun: bool,
    /// Rows queued for deletion by the last lock, highest row index first.
    pub delete_row: Vec<i8>,
    pub score: Score,
    /// Queued host notifications, oldest first.
    pub events: Vec<GameEvent>,
}

impl Game {
    /// The engine's core invariant: the field is well formed, both bag
    /// windows are permutations of all seven pieces, the cursor and wait
    /// counters are in range, and the queued deletion rows are distinct
    /// in-range rows, highest first.
    pub open spec fn wf_core(self) -> bool {
        &&& self.field.wf()
        &&& bag_ok(self.minos_index@)
        &&& self.minos_position < 7
        &&& self.landing_wait_count <= LOCKING_TIME + 1
        &&& self.locking_wait_count <= LOCKING_WAIT_TIME
        &&& self.delete_row@.len() <= 4
        &&& forall|i: int|
            0 <= i < self.delete_row@.len() ==> 0 <= #[trigger] self.delete_row@[i] < FIELD_H
        &&& forall|i: int, j: int|
            0 <= i < j < self.delete_row@.len() ==> self.delete_row@[i] > self.delete_row@[j]
    }

    /// The engine's invariant between turns: on top of the core invariant,
    /// a live game's lock delay has not yet run out.
    pub open spec fn wf(self) -> bool {
        &&& self.wf_core()
        &&& (self.alive ==> self.landing_wait_count <= LOCKING_TIME)
    }

    /// A fresh, not yet started engine with a deterministic seed.
    pub fn new(seed: [u8; 16]) -> (g: Game)
        ensures
            g.wf(),
            !g.alive,
            !g.is_landing,
            !g.is_locked,
            !g.spun,
            g.landing_wait_count == 0,
            g.locking_wait_count == 0,
            g.minos_position == 0,
            g.minos_index@ =~= seq![
                0usize,
                1usize,
                2usize,
                3usize,
                4usize,
                5usize,
                6usize,
                0usize,
                1usize,
                2usize,
                3usize,
                4usize,
                5usize,
                6usize,
            ],
            g.mino == spec_minos_src(0),
            g.field.grid() == empty_grid(),
            g.score == spec_score_zero(),
            g.events@ =~= Seq::<GameEvent>::empty(),
            g.delete_row@ =~= Seq::<i8>::empty(),
    {
        let mut minos_index: Vec<usize> = Vec::new();
        let mut lap: usize = 0;
        while lap < 2
            invariant
                lap <= 2,
                minos_index@.len() == 7 * lap,
                forall|i: int| 0 <= i < minos_index@.len() ==> #[trigger] minos_index@[i] == i % 7,
            decreases 2 - lap,
        {
            let mut k: usize = 0;
            while k < 7
                invariant
                    lap < 2,
                    k <= 7,
                    minos_index@.len() == 7 * lap + k,
                    forall|i: int|
                        0 <= i < minos_index@.len() ==> #[trigger] minos_index@[i] == i % 7,
                decreases 7 - k,
            {
                minos_index.push(k);
                k = k + 1;
            }
            lap = lap + 1;
        }
        proof {
            let model = seq![0usize, 1usize, 2usize, 3usize, 4usize, 5usize, 6usize];
            assert(minos_index@.subrange(0, 7) =~= model);
            assert(minos_index@.subrange(7, 14) =~= model);
            assert(minos_index@ =~= model + model);
        }
        Game {
            rng: rng_from_seed(seed),
            minos_index,
            minos_position: 0,
            mino: mino_src(0),
            field: Field::new(),
            alive: false,
            is_landing: false,
            is_locked: false,
            landing_wait_count: 0,
            locking_wait_count: 0,
            spun: false,
            delete_row: Vec::new(),
            score: Score::new(),
            events: Vec::new(),
        }
    }

    /// The piece under the player's control.
    pub fn mino(&self) -> (m: &MinoState)
        ensures
            *m == self.mino,
    {
        &self.mino
    }

    /// The score counters as a snapshot.
    pub fn score(&self) -> (s: Score)
        ensures
            s == self.score,
    {
        self.score.clone()
    }

    /// Direct access to the field, as test setups use it.  The engine's
    /// other state is untouched; the invariant holds again as soon as the
    /// borrowed field is well formed, which every `Field` method preserves.
    pub fn field_mut(&mut self) -> (f: &mut Field)
        ensures
            *f == old(self).field,
            final(self).field == *final(f),
            *final(self) == (Game { field: final(self).field, ..*old(self) }),
            final(f).wf() && old(self).wf() ==> final(self).wf(),
    {
        &mut self.field
    }

    /// A read-only snapshot of the field's grid.
    pub fn rows(&self) -> (r: Vec<Vec<bool>>)
        requires
            self.wf(),
        ensures
            r@.len() == FIELD_H,
            forall|y: int| 0 <= y < FIELD_H ==> (#[trigger] r@[y])@ == self.field.grid()[y],
    {
        self.field.rows()
    }

    /// Hands the queued host notifications over, oldest first, and empties
    /// the queue.
    pub fn take_events(&mut self) -> (evs: Vec<GameEvent>)
        ensures
            evs@ == old(self).events@,
            *final(self) == (Game { events: final(self).events, ..*old(self) }),
            final(self).events@ =~= Seq::<GameEvent>::empty(),
    {
        let mut evs: Vec<GameEvent> = Vec::new();
        core::mem::swap(&mut self.events, &mut evs);
        evs
    }

    /// Queues one notification for the host.
    fn inform(&mut self, event: GameEvent)
        ensures
            *final(self) == (Game { events: final(self).events, ..*old(self) }),
            final(self).events@ == old(self).events@.push(event),
    {
        self.events.push(event);
    }

    fn inform_game_start(&mut self)
        ensures
            *final(self) == (Game { events: final(self).events, ..*old(self) }),
            final(self).events@ == old(self).events@.push(GameEvent::Start),
    {
        self.inform(GameEvent::Start);
    }

    fn inform_game_over(&mut self)
        ensures
            *final(self) == (Game { events: final(self).events, ..*old(self) }),
            final(self).events@ == old(self).events@.push(GameEvent::Overflow),
    {
        self.inform(GameEvent::Overflow);
    }

    fn inform_score_change(&mut self)
        ensures
            *final(self) == (Game { events: final(self).events, ..*old(self) }),
            final(self).events@ == old(self).events@.push(
                GameEvent::ScoreChange(old(self).score),
            ),
    {
        let s = self.score.clone();
        self.inform(GameEvent::ScoreChange(s));
    }

    /// Queues the three-piece preview that starts at the bag cursor.
    fn inform_next(&mut self)
        requires
            old(self).wf(),
        ensures
            *final(self) == (Game { events: final(self).events, ..*old(self) }),
            final(self).events@.len() == old(self).events@.len() + 1,
            final(self).events@.subrange(0, old(self).events@.len() as int) == old(self).events@,
            (final(self).events@.last() matches GameEvent::Next(p) && p@
                == old(self).minos_index@.subrange(
                old(self).minos_position as int,
                old(self).minos_position + 3,
            )),
    {
        let mut preview: Vec<usize> = Vec::new();
        preview.push(self.minos_index[self.minos_position]);
        preview.push(self.minos_index[self.minos_position + 1]);
        preview.push(self.minos_index[self.minos_position + 2]);
        proof {
            assert(preview@ =~= self.minos_index@.subrange(
                self.minos_position as int,
                self.minos_position + 3,
            ));
        }
        self.inform(GameEvent::Next(preview));
        proof {
            assert(self.events@.subrange(0, old(self).events@.len() as int) =~= old(
                self,
            ).events@);
        }
    }

    /// The piece the bag cursor points at, still unconsumed.
    fn next_mino(&self) -> (m: MinoState)
        requires
            self.wf(),
        ensures
            m == spec_minos_src(self.minos_index@[self.minos_position as int] as int),
    {
        proof {
            lemma_bag_values(self.minos_index@.subrange(0, 7));
            assert(self.minos_index@.subrange(0, 7)[self.minos_position as int]
                == self.minos_index@[self.minos_position as int]);
        }
        let index = self.minos_index[self.minos_position];
        mino_src(index)
    }

    /// Advances the bag cursor; when the active lap is used up, the next
    /// lap becomes active and a freshly shuffled lap takes its place.
    fn forward_minos_position(&mut self)
        requires
            old(self).wf(),
        ensures
            final(self).wf(),
            old(self).minos_position < 6 ==> *final(self) == (Game {
                minos_position: (old(self).minos_position + 1) as usize,
                ..*old(self)
            }),
            old(self).minos_position == 6 ==> {
                &&& *final(self) == (Game {
                    rng: final(self).rng,
                    minos_index: final(self).minos_index,
                    minos_position: 0,
                    ..*old(self)
                })
                &&& final(self).minos_index@.len() == 14
                &&& final(self).minos_index@.subrange(0, 7) == old(self).minos_index@.subrange(
                    7,
                    14,
                )
                &&& final(self).minos_index@.subrange(7, 14).to_multiset() == full_bag()
            },
    {
        self.minos_position = self.minos_position + 1;
        if self.minos_position != 7 {
            return ;
        }
        let ghost pre = self.minos_index@;
        let mut i: usize = 0;
        while i < 7
            invariant
                self.minos_index@.len() == 14,
                i <= 7,
                forall|j: int| 0 <= j < i ==> #[trigger] self.minos_index@[j] == pre[j + 7],
                forall|j: int| 0 <= j < i ==> #[trigger] self.minos_index@[j + 7] == pre[j],
                forall|j: int| i <= j < 7 ==> #[trigger] self.minos_index@[j] == pre[j],
                forall|j: int| i <= j < 7 ==> #[trigger] self.minos_index@[j + 7] == pre[j + 7],
                pre.len() == 14,
                *self == (Game { minos_index: self.minos_index, minos_position: 7usize, ..*old(self) }),
            decreases 7 - i,
        {
            let a = self.minos_index[i];
            let b = self.minos_index[i + 7];
            self.minos_index[i] = b;
            self.minos_index[i + 7] = a;
            i = i + 1;
        }
        proof {
            assert(self.minos_index@.subrange(0, 7) =~= pre.subrange(7, 14));
            assert(self.minos_index@.subrange(7, 14) =~= pre.subrange(0, 7));
        }
        let ghost mid = self.minos_index@;
        shuffle_range(&mut self.rng, &mut self.minos_index, 7, 14);
        self.minos_position = 0;
        proof {
            assert(self.minos_index@.subrange(0, 7) =~= mid.subrange(0, 7));
            assert(self.minos_index@.subrange(0, 7) =~= pre.subrange(7, 14));
        }
    }

    /// Draws the next piece from the bag, advances the cursor, and queues
    /// the new three-piece preview.  The drawn piece is returned; the
    /// caller decides where it goes.
    pub fn new_mino(&mut self) -> (m: MinoState)
        requires
            old(self).wf(),
        ensures
            final(self).wf(),
            m == spec_minos_src(
                old(self).minos_index@[old(self).minos_position as int] as int,
            ),
            *final(self) == (Game {
                rng: final(self).rng,
                minos_index: final(self).minos_index,
                minos_position: final(self).minos_position,
                events: final(self).events,
                ..*old(self)
            }),
            final(self).events@.len() == old(self).events@.len() + 1,
            final(self).events@.subrange(0, old(self).events@.len() as int) == old(self).events@,
            (final(self).events@.last() matches GameEvent::Next(p) && p@.len() == 3),
            old(self).minos_position < 6 ==> final(self).minos_position == old(
                self,
            ).minos_position + 1 && final(self).minos_index == old(self).minos_index,
            old(self).minos_position == 6 ==> final(self).minos_position == 0,
    {
        let m = self.next_mino();
        self.forward_minos_position();
        self.inform_next();
        m
    }

    /// Clears the spin flag and the landing grace period.
    fn reset_previous_state(&mut self)
        ensures
            *final(self) == (Game {
                spun: false,
                is_landing: false,
                landing_wait_count: 0,
                ..*old(self)
            }),
    {
        self.spun = false;
        self.is_landing = false;
        self.landing_wait_count = 0;
    }

    /// Ends the game: the engine goes dead and the host hears `Overflow`.
    fn game_over(&mut self)
        ensures
            *final(self) == (Game { alive: false, events: final(self).events, ..*old(self) }),
            final(self).events@ == old(self).events@.push(GameEvent::Overflow),
    {
        self.alive = false;
        self.inform_game_over();
    }

    /// False only when every cell of the piece lies above the visible top.
    fn test_mino_in_display(&self) -> (r: bool)
        ensures
            r == spec_mino_in_display(self.mino),
    {
        if self.mino.y >= FIELD_TOP {
            return true;
        }
        let cells = self.mino.absolute_cells();
        let mut i: usize = 0;
        let mut seen = false;
        while i < 4
            invariant
                i <= 4,
                cells@.len() == 4,
                forall|k: int|
                    0 <= k < 4 ==> (#[trigger] cells@[k]).1 as int == spec_abs_cells(
                        self.mino,
                    )[k].1,
                seen == exists|k: int|
                    0 <= k < i && (#[trigger] spec_abs_cells(self.mino)[k]).1 >= FIELD_TOP,
            decreases 4 - i,
        {
            if cells[i].1 >= FIELD_TOP as i16 {
                seen = true;
                proof {
                    assert(spec_abs_cells(self.mino)[i as int].1 >= FIELD_TOP);
                }
            }
            i = i + 1;
        }
        seen
    }

    /// Moves the piece by one step when the target placement is free;
    /// a blocked move is a no-op, never an error.
    fn try_move(&mut self, dx: i8, dy: i8) -> (moved: bool)
        requires
            old(self).wf_core(),
            -1 <= dx <= 1,
            -1 <= dy <= 1,
        ensures
            final(self).wf_core(),
            old(self).wf() ==> final(self).wf(),
            moved == !spec_hits_at(
                old(self).field,
                old(self).mino.kind,
                old(self).mino.state,
                old(self).mino.x + dx,
                old(self).mino.y + dy,
            ),
            spec_move_post(*old(self), *final(self), dx as int, dy as int),
    {
        let px: i32 = self.mino.x as i32 + dx as i32;
        let py: i32 = self.mino.y as i32 + dy as i32;
        if !crate::mino::hits_at(&self.field, self.mino.kind, self.mino.state, px, py) {
            proof {
                crate::mino::lemma_free_placement_in_window(
                    self.field,
                    self.mino.kind,
                    self.mino.state,
                    px as int,
                    py as int,
                );
            }
            self.mino.x = px as i8;
            self.mino.y = py as i8;
            true
        } else {
            false
        }
    }

    /// Tries the kick candidates of a rotated piece in order; the first
    /// collision-free placement wins, resets the landing grace period and
    /// marks the rotation for spin credit.  When every candidate collides
    /// the rotation is a no-op.
    fn try_rotate(&mut self, rotated: RotatedMino) -> (ok: bool)
        requires
            old(self).wf_core(),
        ensures
            final(self).wf_core(),
            old(self).wf() ==> final(self).wf(),
            ok == exists|j: int|
                0 <= j < rotated.offsets@.len() && spec_kick_fits(
                    old(self).field,
                    rotated.mino,
                    #[trigger] rotated.offsets@[j],
                ),
            spec_rotate_post(*old(self), *final(self), rotated.mino, rotated.offsets@),
    {
        let rm = rotated.mino;
        let n = rotated.offsets.len();
        let mut j: usize = 0;
        while j < n
            invariant
                self.wf_core(),
                *self == *old(self),
                j <= n,
                n == rotated.offsets@.len(),
                rm == rotated.mino,
                forall|j2: int|
                    0 <= j2 < j ==> !spec_kick_fits(
                        old(self).field,
                        rotated.mino,
                        #[trigger] rotated.offsets@[j2],
                    ),
            decreases n - j,
        {
            let off = rotated.offsets[j];
            let px: i32 = rm.x as i32 + off.0 as i32;
            let py: i32 = rm.y as i32 + off.1 as i32;
            if !crate::mino::hits_at(&self.field, rm.kind, rm.state, px, py) {
                proof {
                    crate::mino::lemma_free_placement_in_window(
                        self.field,
                        rm.kind,
                        rm.state,
                        px as int,
                        py as int,
                    );
                }
                self.mino = MinoState { kind: rm.kind, state: rm.state, x: px as i8, y: py as i8 };
                self.spun = true;
                self.is_landing = false;
                self.landing_wait_count = 0;
                proof {
                    assert(spec_kick_fits(old(self).field, rotated.mino, rotated.offsets@[j as int]));
                    assert(*final(self) == (Game {
                        mino: spec_kicked(rotated.mino, rotated.offsets@[j as int]),
                        spun: true,
                        is_landing: false,
                        landing_wait_count: 0,
                        ..*old(self)
                    }));
                }
                return true;
            }
            j = j + 1;
        }
        false
    }

    /// Writes the piece into the field, records the rows it fills, scores
    /// the clears, and resets the grace period.  A piece resting entirely
    /// above the visible top overflows the field instead: the game ends and
    /// nothing is written or scored.
    fn lock(&mut self)
        requires
            old(self).wf_core(),
        ensures
            final(self).wf(),
            spec_lock_post(*old(self), *final(self)),
    {
        if !self.test_mino_in_display() {
            self.game_over();
            return ;
        }
        self.is_locked = true;
        self.delete_row = Vec::new();
        let ghost g0 = self.field.grid();
        let ghost m = self.mino;
        let ghost acells = spec_abs_cells(m);
        proof {
            crate::cells::lemma_cells_bounds(m.kind, m.state);
            crate::cells::lemma_cells_y_monotone(m.kind, m.state);
        }
        let cells = self.mino.cells();
        let px = self.mino.x;
        let py = self.mino.y;
        proof {
            assert(acells.skip(0) =~= acells);
        }
        let mut i: usize = 0;
        while i < 4
            invariant
                self.field.wf(),
                i <= 4,
                m == old(self).mino,
                px == m.x,
                py == m.y,
                cells@ == spec_cells(m.kind, m.state),
                cells@.len() == 4,
                acells == spec_abs_cells(m),
                g0 == old(self).field.grid(),
                *self == (Game {
                    field: self.field,
                    is_locked: true,
                    delete_row: self.delete_row,
                    ..*old(self)
                }),
                self.delete_row@ =~= Seq::<i8>::empty(),
                spec_set_cells(g0, acells) == spec_set_cells(
                    self.field.grid(),
                    acells.skip(i as int),
                ),
            decreases 4 - i,
        {
            let (dx, dy) = cells[i];
            let cx: i16 = px as i16 + dx as i16;
            let cy: i16 = py as i16 + dy as i16;
            let ghost prev = self.field.grid();
            if 0 <= cx && cx < FIELD_W as i16 && 0 <= cy && cy < FIELD_H as i16 {
                self.field.set(cx as i8, cy as i8);
            }
            proof {
                assert(acells[i as int] == (m.x + dx as int, m.y + dy as int));
                assert(self.field.grid() == spec_set_cell(prev, acells[i as int]));
                assert(acells.skip(i as int)[0] == acells[i as int]);
                assert(acells.skip(i as int).drop_first() =~= acells.skip(i as int + 1));
            }
            i = i + 1;
        }
        proof {
            assert(acells.skip(4) =~= Seq::<(int, int)>::empty());
            assert(self.field.grid() == spec_set_cells(g0, acells));
        }
        let ghost g2 = self.field.grid();
        let mut i: usize = 0;
        while i < 4
            invariant
                self.field.wf(),
                i <= 4,
                m == old(self).mino,
                px == m.x,
                py == m.y,
                cells@ == spec_cells(m.kind, m.state),
                cells@.len() == 4,
                acells == spec_abs_cells(m),
                forall|a: int, b: int|
                    0 <= a <= b < 4 ==> (#[trigger] spec_cells(m.kind, m.state)[a]).1
                        >= (#[trigger] spec_cells(m.kind, m.state)[b]).1,
                g2 == self.field.grid(),
                *self == (Game {
                    field: self.field,
                    is_locked: true,
                    delete_row: self.delete_row,
                    ..*old(self)
                }),
                self.delete_row@.len() <= i,
                forall|a: int, b: int|
                    0 <= a < b < self.delete_row@.len() ==> self.delete_row@[a]
                        > self.delete_row@[b],
                forall|t: int|
                    0 <= t < self.delete_row@.len() ==> 0 <= #[trigger] self.delete_row@[t]
                        < FIELD_H,
                forall|t: int|
                    0 <= t < self.delete_row@.len() ==> spec_piece_row(
                        m,
                        #[trigger] self.delete_row@[t] as int,
                    ) && row_count(g2[self.delete_row@[t] as int]) == FIELD_W,
                forall|k: int|
                    0 <= k < i && 0 <= #[trigger] acells[k].1 < FIELD_H && row_count(
                        g2[acells[k].1],
                    ) == FIELD_W ==> self.delete_row@.contains(acells[k].1 as i8),
                self.delete_row@.len() > 0 ==> exists|k: int|
                    0 <= k < i && acells[k].1 == #[trigger] self.delete_row@.last() as int,
            decreases 4 - i,
        {
            let (dx, dy) = cells[i];
            let cy: i16 = py as i16 + dy as i16;
            proof {
                assert(acells[i as int].1 == m.y + dy as int);
            }
            if 0 <= cy && cy < FIELD_H as i16 {
                let yr = cy as i8;
                if self.field.is_filled(yr) {
                    let len = self.delete_row.len();
                    let dup = if len > 0 {
                        self.delete_row[len - 1] == yr
                    } else {
                        false
                    };
                    let ghost pre_dr = self.delete_row@;
                    if !dup {
                        proof {
                            if pre_dr.len() > 0 {
                                let k = choose|k: int|
                                    0 <= k < i && acells[k].1 == pre_dr.last() as int;
                                assert(spec_cells(m.kind, m.state)[k].1 >= spec_cells(
                                    m.kind,
                                    m.state,
                                )[i as int].1);
                            }
                        }
                        self.delete_row.push(yr);
                        proof {
                            assert(self.delete_row@ == pre_dr.push(yr));
                            assert(self.delete_row@.last() == yr);
                            assert(self.delete_row@[pre_dr.len() as int] == yr);
                            assert(self.delete_row@.contains(yr));
                            assert(spec_piece_row(m, yr as int));
                            assert forall|e: i8| pre_dr.contains(e) implies
                                self.delete_row@.contains(e) by {
                                let t = choose|t: int| 0 <= t < pre_dr.len() && pre_dr[t] == e;
                                assert(self.delete_row@[t] == e);
                            }
                        }
                    } else {
                        proof {
                            assert(self.delete_row@.last() == yr);
                            assert(self.delete_row@[pre_dr.len() - 1] == yr);
                            assert(self.delete_row@.contains(yr));
                        }
                    }
                }
            }
            i = i + 1;
        }
        let n = self.delete_row.len();
        if n != 0 {
            self.score.deleted_line = self.score.deleted_line.saturating_add(n);
            if n == 4 {
                self.score.tetris = self.score.tetris.saturating_add(1);
            } else if self.spun {
                if n == 1 {
                    self.score.t_spin1 = self.score.t_spin1.saturating_add(1);
                } else if n == 2 {
                    self.score.t_spin2 = self.score.t_spin2.saturating_add(1);
                } else {
                    self.score.t_spin3 = self.score.t_spin3.saturating_add(1);
                }
            }
            self.inform_score_change();
        }
        self.reset_previous_state();
        proof {
            assert forall|r: int| 0 <= r < FIELD_H implies (final(self).delete_row@.contains(
                r as i8,
            ) <==> (spec_piece_row(m, r) && row_count(g2[r]) == FIELD_W)) by {
                if final(self).delete_row@.contains(r as i8) {
                    let t = choose|t: int|
                        0 <= t < final(self).delete_row@.len() && final(self).delete_row@[t]
                            == r as i8;
                }
                if spec_piece_row(m, r) && row_count(g2[r]) == FIELD_W {
                    let k = choose|k: int| 0 <= k < 4 && spec_abs_cells(m)[k].1 == r;
                    assert(final(self).delete_row@.contains(acells[k].1 as i8));
                }
            }
        }
    }

    /// One tick of lock delay: when the piece has waited past the
    /// threshold, it locks on its own.
    fn wait_locking(&mut self)
        requires
            old(self).wf_core(),
            old(self).landing_wait_count <= LOCKING_TIME,
        ensures
            final(self).wf(),
            ({
                let bumped = Game {
                    landing_wait_count: (old(self).landing_wait_count + 1) as u8,
                    ..*old(self)
                };
                if old(self).landing_wait_count + 1 > LOCKING_TIME {
                    spec_lock_post(bumped, *final(self))
                } else {
                    *final(self) == bumped
                }
            }),
    {
        self.landing_wait_count = self.landing_wait_count + 1;
        if self.landing_wait_count > LOCKING_TIME {
            self.lock();
        }
    }

    /// One step of gravity: the piece falls one row, or, resting on the
    /// stack, enters the landing state and spends one tick of lock delay.
    fn free_fall(&mut self)
        requires
            old(self).wf_core(),
            old(self).landing_wait_count <= LOCKING_TIME,
        ensures
            final(self).wf(),
            spec_freefall_post(*old(self), *final(self)),
    {
        if self.try_move(0, 1) {
            self.reset_previous_state();
        } else {
            self.is_landing = true;
            self.wait_locking();
        }
    }

    /// Hard drop: the piece slams to the lowest free placement in its
    /// column and locks immediately.  A piece that cannot fall at all locks
    /// where it stands, keeping any spin credit it earned.
    fn land(&mut self)
        requires
            old(self).wf_core(),
        ensures
            final(self).wf(),
            spec_land_post(*old(self), *final(self)),
    {
        let kind = self.mino.kind;
        let state = self.mino.state;
        let x = self.mino.x;
        let mut ty: i32 = self.mino.y as i32;
        if crate::mino::hits_at(&self.field, kind, state, x as i32, ty + 1) {
            self.lock();
            return ;
        }
        while !crate::mino::hits_at(&self.field, kind, state, x as i32, ty + 1)
            invariant
                self.wf_core(),
                *self == *old(self),
                kind == self.mino.kind,
                state == self.mino.state,
                x == self.mino.x,
                -128 <= ty <= 127,
                ty == self.mino.y as int || !spec_hits_at(
                    self.field,
                    kind,
                    state,
                    x as int,
                    ty as int,
                ),
                spec_drop_y(self.field, kind, state, x as int, self.mino.y as int)
                    == spec_drop_y(self.field, kind, state, x as int, ty as int),
            decreases FIELD_H + 3 - ty,
        {
            proof {
                crate::mino::lemma_free_placement_in_window(
                    self.field,
                    kind,
                    state,
                    x as int,
                    ty + 1,
                );
            }
            ty = ty + 1;
        }
        proof {
            crate::mino::lemma_free_placement_in_window(
                self.field,
                kind,
                state,
                x as int,
                ty as int,
            );
        }
        self.mino.y = ty as i8;
        self.reset_previous_state();
        self.lock();
    }

    /// Resolves a lock: after a short delay, deletes the recorded rows,
    /// compacts the stack highest row first, and spawns the next piece
    /// from the bag.
    fn erase(&mut self)
        requires
            old(self).wf(),
        ensures
            final(self).wf(),
            spec_erase_post(*old(self), *final(self)),
    {
        if self.locking_wait_count < LOCKING_WAIT_TIME {
            self.locking_wait_count = self.locking_wait_count + 1;
            return ;
        }
        self.is_locked = false;
        self.locking_wait_count = 0;
        let ghost g0 = self.field.grid();
        let ghost rows = self.delete_row@;
        proof {
            assert(rows.subrange(0, rows.len() as int) =~= rows);
        }
        let mut i: usize = self.delete_row.len();
        while i > 0
            invariant
                self.field.wf(),
                i <= rows.len(),
                rows == self.delete_row@,
                rows.len() <= 4,
                forall|t: int| 0 <= t < rows.len() ==> 0 <= #[trigger] rows[t] < FIELD_H,
                *self == (Game {
                    field: self.field,
                    is_locked: false,
                    locking_wait_count: 0u8,
                    ..*old(self)
                }),
                g0 == old(self).field.grid(),
                spec_erase_grid(g0, rows) == spec_erase_grid(
                    self.field.grid(),
                    rows.subrange(0, i as int),
                ),
            decreases i,
        {
            let row = self.delete_row[i - 1];
            let ghost prev = self.field.grid();
            self.field.delete(row);
            self.field.float(row);
            proof {
                let sub = rows.subrange(0, i as int);
                assert(sub.last() == rows[i - 1]);
                assert(sub.drop_last() =~= rows.subrange(0, i - 1));
                assert(self.field.grid() == spec_clear_row(prev, row as int));
            }
            i = i - 1;
        }
        proof {
            assert(rows.subrange(0, 0) =~= Seq::<i8>::empty());
            assert(self.wf());
        }
        let m = self.new_mino();
        self.mino = m;
    }

    /// Applies one event to the live piece.  Illegal moves and rotations
    /// are no-ops; only gravity, locking and clearing change anything else.
    pub fn action(&mut self, event: Event)
        requires
            old(self).wf(),
            old(self).landing_wait_count <= LOCKING_TIME,
        ensures
            final(self).wf(),
            spec_action_post(*old(self), event, *final(self)),
    {
        match event {
            Event::MoveR => {
                self.try_move(1, 0);
            },
            Event::MoveL => {
                self.try_move(-1, 0);
            },
            Event::MoveDown => {
                if self.is_landing {
                    self.lock();
                } else {
                    self.free_fall();
                }
            },
            Event::Land => {
                if self.is_landing {
                    self.lock();
                } else {
                    self.land();
                }
            },
            Event::RotateR => {
                if self.mino.is_rotatable() {
                    let rotated = self.mino.right();
                    self.try_rotate(rotated);
                }
            },
            Event::RotateL => {
                if self.mino.is_rotatable() {
                    let rotated = self.mino.left();
                    self.try_rotate(rotated);
                }
            },
            Event::TimeGo => {
                self.free_fall();
            },
            Event::FreeFall => {
                self.free_fall();
            },
            Event::Nop => {},
            Event::Test(test_event) => match test_event {
                TestEvent::AbsoluteMovement(x, y) => {
                    self.mino.absolute((x, y));
                },
                TestEvent::AbsoluteRotation(r) => {
                    self.mino.state = match r {
                        AbsoluteRotation::State0 => Rotation::State0,
                        AbsoluteRotation::StateR => Rotation::StateR,
                        AbsoluteRotation::StateL => Rotation::StateL,
                        AbsoluteRotation::State2 => Rotation::State2,
                    };
                },
            },
        }
    }

    /// One turn of the engine.  A dead engine ignores everything; a locked
    /// one only resolves its pending clears; otherwise the event drives the
    /// live piece.
    pub fn step(&mut self, event: Event)
        requires
            old(self).wf(),
        ensures
            final(self).wf(),
            spec_step_post(*old(self), event, *final(self)),
    {
        if !self.alive {
            return ;
        }
        if self.is_locked {
            self.erase();
            return ;
        }
        self.action(event);
    }

    /// Starts or restarts a game: both bag laps are reshuffled, the field,
    /// score and flags reset, the first piece spawns, and the host hears
    /// `Start`, the first preview, and the initial score, in that order.
    pub fn start(&mut self)
        requires
            old(self).wf(),
        ensures
            final(self).wf(),
            final(self).alive,
            !final(self).is_landing,
            !final(self).is_locked,
            !final(self).spun,
            final(self).landing_wait_count == 0,
            final(self).locking_wait_count == 0,
            final(self).delete_row@ =~= Seq::<i8>::empty(),
            final(self).score == spec_score_zero(),
            final(self).field.grid() == empty_grid(),
            final(self).minos_position == 1,
            final(self).mino == spec_minos_src(final(self).minos_index@[0] as int),
            final(self).events@.len() == old(self).events@.len() + 3,
            final(self).events@.subrange(0, old(self).events@.len() as int) == old(self).events@,
            final(self).events@[old(self).events@.len() as int] == GameEvent::Start,
            (final(self).events@[old(self).events@.len() as int + 1] matches GameEvent::Next(p) && p@.len()
                == 3),
            (final(self).events@.last() matches GameEvent::ScoreChange(s) && s
                == spec_score_zero()),
    {
        let ghost pre_bag = self.minos_index@;
        shuffle_range(&mut self.rng, &mut self.minos_index, 0, 7);
        proof {
            assert(self.minos_index@.subrange(7, 14) =~= pre_bag.subrange(7, 14));
        }
        let ghost mid_bag = self.minos_index@;
        shuffle_range(&mut self.rng, &mut self.minos_index, 7, 14);
        proof {
            assert(self.minos_index@.subrange(0, 7) =~= mid_bag.subrange(0, 7));
            assert(bag_ok(self.minos_index@));
        }
        self.minos_position = 0;
        self.field = Field::new();
        self.alive = true;
        self.is_landing = false;
        self.is_locked = false;
        self.landing_wait_count = 0;
        self.locking_wait_count = 0;
        self.spun = false;
        self.delete_row = Vec::new();
        self.score = Score::new();
        self.inform_game_start();
        let ghost e1 = self.events@;
        let m = self.new_mino();
        self.mino = m;
        let ghost e2 = self.events@;
        self.inform_score_change();
        proof {
            let n0 = old(self).events@.len() as int;
            assert(e1 == old(self).events@.push(GameEvent::Start));
            assert(e2.subrange(0, n0 + 1) == e1);
            assert forall|t: int| 0 <= t < n0 implies self.events@[t] == old(self).events@[t] by {
                assert(e2.subrange(0, n0 + 1)[t] == e2[t]);
                assert(e1[t] == old(self).events@[t]);
            }
            assert(self.events@.subrange(0, n0) =~= old(self).events@);
            assert(e2.subrange(0, n0 + 1)[n0] == e2[n0]);
            assert(self.events@[n0] == GameEvent::Start);
            assert(self.events@[n0 + 1] == e2[n0 + 1]);
            assert(e2[n0 + 1] == e2.last());
        }
    }
}

/// Setting one cell of the grid; a cell outside the field is ignored.
pub open spec fn spec_set_cell(g: Seq<Seq<bool>>, c: (int, int)) -> Seq<Seq<bool>> {
    if 0 <= c.0 < FIELD_W && 0 <= c.1 < FIELD_H {
        g.update(c.1, g[c.1].update(c.0, true))
    } else {
        g
    }
}

/// Setting a list of cells, in order.
pub open spec fn spec_set_cells(g: Seq<Seq<bool>>, cells: Seq<(int, int)>) -> Seq<Seq<bool>>
    decreases cells.len(),
{
    if cells.len() == 0 {
        g
    } else {
        spec_set_cells(spec_set_cell(g, cells[0]), cells.drop_first())
    }
}

/// One row of the resolution pass: delete the row if it is full, then let
/// the stack above float down one step.
pub open spec fn spec_clear_row(g: Seq<Seq<bool>>, y: int) -> Seq<Seq<bool>> {
    let deleted = if row_count(g[y]) == FIELD_W {
        g.update(y, empty_grid()[y])
    } else {
        g
    };
    float_grid(deleted, y)
}

/// The resolution pass over the queued rows, processed from the back of
/// the queue: the queue holds rows highest row index first, so the pass
/// runs from the top of the screen downward.
pub open spec fn spec_erase_grid(g: Seq<Seq<bool>>, rows: Seq<i8>) -> Seq<Seq<bool>>
    decreases rows.len(),
{
    if rows.len() == 0 {
        g
    } else {
        spec_erase_grid(spec_clear_row(g, rows.last() as int), rows.drop_last())
    }
}

/// Whether any part of the piece reaches the visible area.  A piece whose
/// pivot sits below the visible top always counts as visible.
pub open spec fn spec_mino_in_display(m: MinoState) -> bool {
    m.y >= FIELD_TOP || exists|i: int|
        0 <= i < 4 && (#[trigger] spec_abs_cells(m)[i]).1 >= FIELD_TOP
}

/// Whether the piece has a cell in row `r`.
pub open spec fn spec_piece_row(m: MinoState, r: int) -> bool {
    exists|i: int| 0 <= i < 4 && (#[trigger] spec_abs_cells(m)[i]).1 == r
}

/// Where a piece dropping straight down from `y` comes to rest: the last
/// row from which one more step would collide.
pub open spec fn spec_drop_y(f: Field, kind: MinoKind, state: Rotation, x: int, y: int) -> int
    decreases FIELD_H + 3 - y,
{
    if y >= FIELD_H + 3 {
        y
    } else if spec_hits_at(f, kind, state, x, y + 1) {
        y
    } else {
        spec_drop_y(f, kind, state, x, y + 1)
    }
}

/// What one attempted move does: the piece moves exactly when the target
/// placement is collision-free, and nothing else changes either way.
pub open spec fn spec_move_post(pre: Game, post: Game, dx: int, dy: int) -> bool {
    if !spec_hits_at(pre.field, pre.mino.kind, pre.mino.state, pre.mino.x + dx, pre.mino.y + dy) {
        post == (Game {
            mino: (MinoState {
                x: (pre.mino.x + dx) as i8,
                y: (pre.mino.y + dy) as i8,
                ..pre.mino
            }),
            ..pre
        })
    } else {
        post == pre
    }
}

/// Whether one kick candidate gives the rotated piece a collision-free
/// placement.
pub open spec fn spec_kick_fits(f: Field, m: MinoState, off: (i8, i8)) -> bool {
    !spec_hits_at(f, m.kind, m.state, m.x + off.0, m.y + off.1)
}

/// The rotated piece moved by a kick offset.
pub open spec fn spec_kicked(m: MinoState, off: (i8, i8)) -> MinoState {
    MinoState { x: (m.x + off.0) as i8, y: (m.y + off.1) as i8, ..m }
}

/// What one rotation attempt does: the first fitting kick candidate
/// places the piece, clears the landing grace period and takes spin
/// credit; if none fits, everything stays as it was.
pub open spec fn spec_rotate_post(pre: Game, post: Game, rm: MinoState, offs: Seq<(i8, i8)>) -> bool {
    if exists|j: int| 0 <= j < offs.len() && spec_kick_fits(pre.field, rm, #[trigger] offs[j]) {
        exists|j: int|
            0 <= j < offs.len() && spec_kick_fits(pre.field, rm, #[trigger] offs[j]) && (forall|
                j2: int,
            |
                0 <= j2 < j ==> !spec_kick_fits(pre.field, rm, offs[j2])) && post == (Game {
                mino: spec_kicked(rm, offs[j]),
                spun: true,
                is_landing: false,
                landing_wait_count: 0,
                ..pre
            })
    } else {
        post == pre
    }
}

/// What locking does.  A piece entirely above the visible top ends the
/// game and changes nothing else.  Otherwise its four cells are written
/// into the grid, the filled rows among its rows are queued highest row
/// first, the score moves by the scoring rule, the grace period and spin
/// flag reset, and the host hears the new score if anything was cleared.
pub open spec fn spec_lock_post(pre: Game, post: Game) -> bool {
    if !spec_mino_in_display(pre.mino) {
        &&& post == (Game { alive: false, events: post.events, ..pre })
        &&& post.events@ == pre.events@.push(GameEvent::Overflow)
    } else {
        let g2 = spec_set_cells(pre.field.grid(), spec_abs_cells(pre.mino));
        let n = post.delete_row@.len() as int;
        &&& post == (Game {
            field: post.field,
            is_locked: true,
            delete_row: post.delete_row,
            score: post.score,
            spun: false,
            is_landing: false,
            landing_wait_count: 0,
            events: post.events,
            ..pre
        })
        &&& post.field.wf()
        &&& post.field.grid() == g2
        &&& n <= 4
        &&& forall|t: int| 0 <= t < n ==> 0 <= #[trigger] post.delete_row@[t] < FIELD_H
        &&& forall|a: int, b: int|
            0 <= a < b < n ==> post.delete_row@[a] > post.delete_row@[b]
        &&& forall|r: int|
            0 <= r < FIELD_H ==> (post.delete_row@.contains(r as i8) <==> (spec_piece_row(
                pre.mino,
                r,
            ) && row_count(g2[r]) == FIELD_W))
        &&& post.score == spec_score_after(pre.score, n, pre.spun)
        &&& post.events@ == if n > 0 {
            pre.events@.push(GameEvent::ScoreChange(post.score))
        } else {
            pre.events@
        }
    }
}

/// What one gravity step does: fall one row and clear the grace period,
/// or enter the landing state, spend one tick of lock delay, and lock
/// once the delay is used up.
pub open spec fn spec_freefall_post(pre: Game, post: Game) -> bool {
    if !spec_hits_at(pre.field, pre.mino.kind, pre.mino.state, pre.mino.x as int, pre.mino.y + 1) {
        post == (Game {
            mino: (MinoState { y: (pre.mino.y + 1) as i8, ..pre.mino }),
            spun: false,
            is_landing: false,
            landing_wait_count: 0,
            ..pre
        })
    } else {
        let bumped = Game {
            is_landing: true,
            landing_wait_count: (pre.landing_wait_count + 1) as u8,
            ..pre
        };
        if pre.landing_wait_count + 1 > LOCKING_TIME {
            spec_lock_post(bumped, post)
        } else {
            post == bumped
        }
    }
}

/// What a hard drop does: a piece that cannot fall locks in place with
/// its spin credit; otherwise it falls to rest, loses spin credit and
/// grace, and locks there.
pub open spec fn spec_land_post(pre: Game, post: Game) -> bool {
    if spec_hits_at(pre.field, pre.mino.kind, pre.mino.state, pre.mino.x as int, pre.mino.y + 1) {
        spec_lock_post(pre, post)
    } else {
        let yf = spec_drop_y(pre.field, pre.mino.kind, pre.mino.state, pre.mino.x as int,
            pre.mino.y as int);
        spec_lock_post(
            Game {
                mino: (MinoState { y: yf as i8, ..pre.mino }),
                spun: false,
                is_landing: false,
                landing_wait_count: 0,
                ..pre
            },
            post,
        )
    }
}

/// What one resolution step does: first wait out the short clear delay,
/// then delete the queued rows, compact the stack, and hand control to a
/// freshly drawn piece.
pub open spec fn spec_erase_post(pre: Game, post: Game) -> bool {
    if pre.locking_wait_count < LOCKING_WAIT_TIME {
        post == (Game { locking_wait_count: (pre.locking_wait_count + 1) as u8, ..pre })
    } else {
        &&& post == (Game {
            rng: post.rng,
            field: post.field,
            is_locked: false,
            locking_wait_count: 0,
            mino: post.mino,
            minos_index: post.minos_index,
            minos_position: post.minos_position,
            events: post.events,
            ..pre
        })
        &&& post.field.wf()
        &&& post.field.grid() == spec_erase_grid(pre.field.grid(), pre.delete_row@)
        &&& post.mino == spec_minos_src(pre.minos_index@[pre.minos_position as int] as int)
        &&& bag_ok(post.minos_index@)
        &&& post.minos_position < 7
        &&& post.events@.len() == pre.events@.len() + 1
        &&& post.events@.subrange(0, pre.events@.len() as int) == pre.events@
        &&& (post.events@.last() matches GameEvent::Next(p) && p@.len() == 3)
    }
}

/// What `action` does for each event.
pub open spec fn spec_action_post(pre: Game, event: Event, post: Game) -> bool {
    match event {
        Event::MoveR => spec_move_post(pre, post, 1, 0),
        Event::MoveL => spec_move_post(pre, post, -1, 0),
        Event::MoveDown => if pre.is_landing {
            spec_lock_post(pre, post)
        } else {
            spec_freefall_post(pre, post)
        },
        Event::Land => if pre.is_landing {
            spec_lock_post(pre, post)
        } else {
            spec_land_post(pre, post)
        },
        Event::RotateR => if pre.mino.kind == MinoKind::MinoO {
            post == pre
        } else {
            spec_rotate_post(
                pre,
                post,
                MinoState { state: spec_right_state(pre.mino.state), ..pre.mino },
                crate::srs::spec_kick_table(
                    spec_form_of(pre.mino.kind),
                    pre.mino.state,
                    spec_right_state(pre.mino.state),
                ),
            )
        },
        Event::RotateL => if pre.mino.kind == MinoKind::MinoO {
            post == pre
        } else {
            spec_rotate_post(
                pre,
                post,
                MinoState { state: spec_left_state(pre.mino.state), ..pre.mino },
                crate::srs::spec_kick_table(
                    spec_form_of(pre.mino.kind),
                    pre.mino.state,
                    spec_left_state(pre.mino.state),
                ),
            )
        },
        Event::TimeGo => spec_freefall_post(pre, post),
        Event::FreeFall => spec_freefall_post(pre, post),
        Event::Nop => post == pre,
        Event::Test(t) => match t {
            TestEvent::AbsoluteMovement(x, y) => post == (Game {
                mino: (MinoState { x, y, ..pre.mino }),
                ..pre
            }),
            TestEvent::AbsoluteRotation(r) => post == (Game {
                mino: (MinoState { state: spec_absolute_rotation_state(r), ..pre.mino }),
                ..pre
            }),
        },
    }
}

/// What one `step` call does: nothing when the engine is dead, one
/// resolution step while a lock is pending, else the event's action.
pub open spec fn spec_step_post(pre: Game, event: Event, post: Game) -> bool {
    if !pre.alive {
        post == pre
    } else if pre.is_locked {
        spec_erase_post(pre, post)
    } else {
        spec_action_post(pre, event, post)
    }
}

/// The square piece never rotates: a rotation event against it leaves the
/// whole engine, piece position and rotation state included, unchanged.
pub proof fn lemma_o_piece_rotation_noop(pre: Game, event: Event, post: Game)
    requires
        pre.mino.kind == MinoKind::MinoO,
        event == Event::RotateR || event == Event::RotateL,
        spec_action_post(pre, event, post),
    ensures
        post == pre,
{
}

/// Bag fairness: whenever the cursor stands at a bag boundary, the next
/// seven draws are the active window `minos_index[0..7]`, and by the
/// engine's invariant that window holds every piece index exactly once.
/// `new_mino`'s contract shows each draw reads `minos_index[cursor]` and
/// only reshuffles the inactive window when the cursor wraps.
pub proof fn lemma_bag_fairness(g: Game)
    requires
        g.wf(),
        g.minos_position == 0,
    ensures
        g.minos_index@.subrange(0, 7).to_multiset() == full_bag(),
        forall|k: usize| k < 7 ==> full_bag().count(k) == 1,
{
    broadcast use vstd::seq_lib::group_to_multiset_ensures;

    let model = seq![0usize, 1usize, 2usize, 3usize, 4usize, 5usize, 6usize];
    assert forall|k: usize| k < 7 implies full_bag().count(k) == 1 by {
        assert(model =~= seq![0usize, 1usize, 2usize, 3usize, 4usize].push(5usize).push(6usize));
        assert(model.to_multiset() =~= seq![0usize, 1usize, 2usize, 3usize, 4usize]
            .to_multiset().insert(5usize).insert(6usize));
        lemma_count_in_ladder(k);
    }
}

/// Helper: how often each index occurs in the literal seven-piece bag.
proof fn lemma_count_in_ladder(k: usize)
    requires
        k < 7,
    ensures
        seq![0usize, 1usize, 2usize, 3usize, 4usize, 5usize, 6usize].to_multiset().count(k) == 1,
{
    broadcast use vstd::seq_lib::group_to_multiset_ensures;

    let s0 = Seq::<usize>::empty();
    let s1 = s0.push(0);
    let s2 = s1.push(1);
    let s3 = s2.push(2);
    let s4 = s3.push(3);
    let s5 = s4.push(4);
    let s6 = s5.push(5);
    let s7 = s6.push(6);
    assert(seq![0usize, 1usize, 2usize, 3usize, 4usize, 5usize, 6usize] =~= s7);
    assert(s0.to_multiset() =~= Multiset::<usize>::empty());
    assert(s0.to_multiset().count(k) == 0);
    assert(s7.to_multiset().count(k) == 1);
}

} // verus!
