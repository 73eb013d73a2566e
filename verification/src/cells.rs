//! The piece catalog: for every piece kind and rotation state, the four cell
//! offsets the piece occupies around its pivot.  Offsets use the field's
//! coordinates: x grows to the right, y grows downward.

use vstd::prelude::*;

verus! {

use crate::mino::{MinoKind, MinoState};
use crate::rotation::Rotation;

/// The four cell offsets of a piece kind in a rotation state.  All four
/// rotation states of the O piece are identical.
pub open spec fn spec_cells(kind: MinoKind, state: Rotation) -> Seq<(i8, i8)> {
    match kind {
        MinoKind::MinoI => match state {
            Rotation::State0 => seq![(-1i8, 0i8), (0i8, 0i8), (1i8, 0i8), (2i8, 0i8)],
            Rotation::StateR => seq![(1i8, 2i8), (1i8, 1i8), (1i8, 0i8), (1i8, -1i8)],
            Rotation::State2 => seq![(-1i8, 1i8), (0i8, 1i8), (1i8, 1i8), (2i8, 1i8)],
            Rotation::StateL => seq![(0i8, 2i8), (0i8, 1i8), (0i8, 0i8), (0i8, -1i8)],
        },
        MinoKind::MinoO => seq![(1i8, 1i8), (0i8, 1i8), (1i8, 0i8), (0i8, 0i8)],
        MinoKind::MinoS => match state {
            Rotation::State0 => seq![(-1i8, 0i8), (0i8, 0i8), (1i8, -1i8), (0i8, -1i8)],
            Rotation::StateR => seq![(1i8, 1i8), (0i8, 0i8), (1i8, 0i8), (0i8, -1i8)],
            Rotation::State2 => seq![(-1i8, 1i8), (0i8, 1i8), (1i8, 0i8), (0i8, 0i8)],
            Rotation::StateL => seq![(0i8, 1i8), (-1i8, 0i8), (0i8, 0i8), (-1i8, -1i8)],
        },
        MinoKind::MinoZ => match state {
            Rotation::State0 => seq![(0i8, 0i8), (1i8, 0i8), (-1i8, -1i8), (0i8, -1i8)],
            Rotation::StateR => seq![(0i8, 1i8), (1i8, 0i8), (0i8, 0i8), (1i8, -1i8)],
            Rotation::State2 => seq![(0i8, 1i8), (1i8, 1i8), (-1i8, 0i8), (0i8, 0i8)],
            Rotation::StateL => seq![(-1i8, 1i8), (0i8, 0i8), (-1i8, 0i8), (0i8, -1i8)],
        },
        MinoKind::MinoJ => match state {
            Rotation::State0 => seq![(-1i8, 0i8), (0i8, 0i8), (1i8, 0i8), (-1i8, -1i8)],
            Rotation::StateR => seq![(0i8, 1i8), (0i8, 0i8), (1i8, -1i8), (0i8, -1i8)],
            Rotation::State2 => seq![(1i8, 1i8), (-1i8, 0i8), (0i8, 0i8), (1i8, 0i8)],
            Rotation::StateL => seq![(-1i8, 1i8), (0i8, 1i8), (0i8, 0i8), (0i8, -1i8)],
        },
        MinoKind::MinoL => match state {
            Rotation::State0 => seq![(-1i8, 0i8), (0i8, 0i8), (1i8, 0i8), (1i8, -1i8)],
            Rotation::StateR => seq![(1i8, 1i8), (0i8, 1i8), (0i8, 0i8), (0i8, -1i8)],
            Rotation::State2 => seq![(-1i8, 1i8), (1i8, 0i8), (0i8, 0i8), (-1i8, 0i8)],
            Rotation::StateL => seq![(0i8, 1i8), (0i8, 0i8), (0i8, -1i8), (-1i8, -1i8)],
        },
        MinoKind::MinoT => match state {
            Rotation::State0 => seq![(-1i8, 0i8), (0i8, 0i8), (1i8, 0i8), (0i8, -1i8)],
            Rotation::StateR => seq![(0i8, 1i8), (0i8, 0i8), (1i8, 0i8), (0i8, -1i8)],
            Rotation::State2 => seq![(0i8, 1i8), (-1i8, 0i8), (1i8, 0i8), (0i8, 0i8)],
            Rotation::StateL => seq![(0i8, 1i8), (-1i8, 0i8), (0i8, 0i8), (0i8, -1i8)],
        },
    }
}

/// Every catalog entry has exactly four cells, with offsets between -1 and 2
/// in both directions.
pub proof fn lemma_cells_bounds(kind: MinoKind, state: Rotation)
    ensures
        spec_cells(kind, state).len() == 4,
        forall|i: int|
            0 <= i < 4 ==> -1 <= (#[trigger] spec_cells(kind, state)[i]).0 <= 2 && -1
                <= spec_cells(kind, state)[i].1 <= 2,
{
    let s = spec_cells(kind, state);
    assert(s.len() == 4);
    assert forall|i: int|
        0 <= i < 4 implies -1 <= (#[trigger] s[i]).0 <= 2 && -1 <= s[i].1 <= 2 by {
        assert(i == 0 || i == 1 || i == 2 || i == 3);
    }
}

/// Four offsets whose y components never increase from one entry to the
/// next are non-increasing across the whole list.
proof fn quad_y_mono(s: Seq<(i8, i8)>)
    requires
        s.len() == 4,
        s[0].1 >= s[1].1,
        s[1].1 >= s[2].1,
        s[2].1 >= s[3].1,
    ensures
        forall|i: int, j: int| 0 <= i <= j < 4 ==> (#[trigger] s[i]).1 >= (#[trigger] s[j]).1,
{
}

/// Every catalog entry lists its cells from the lowest row on screen to the
/// highest: the y offsets never increase.  Locking relies on this to record
/// filled rows highest-row-index first.
pub proof fn lemma_cells_y_monotone(kind: MinoKind, state: Rotation)
    ensures
        forall|i: int, j: int|
            0 <= i <= j < 4 ==> (#[trigger] spec_cells(kind, state)[i]).1
                >= (#[trigger] spec_cells(kind, state)[j]).1,
{
    lemma_cells_bounds(kind, state);
    let s = spec_cells(kind, state);
    match kind {
        MinoKind::MinoI => match state {
            Rotation::State0 => quad_y_mono(s),
            Rotation::StateR => quad_y_mono(s),
            Rotation::State2 => quad_y_mono(s),
            Rotation::StateL => quad_y_mono(s),
        },
        MinoKind::MinoO => quad_y_mono(s),
        MinoKind::MinoS => match state {
            Rotation::State0 => quad_y_mono(s),
            Rotation::StateR => quad_y_mono(s),
            Rotation::State2 => quad_y_mono(s),
            Rotation::StateL => quad_y_mono(s),
        },
        MinoKind::MinoZ => match state {
            Rotation::State0 => quad_y_mono(s),
            Rotation::StateR => quad_y_mono(s),
            Rotation::State2 => quad_y_mono(s),
            Rotation::StateL => quad_y_mono(s),
        },
        MinoKind::MinoJ => match state {
            Rotation::State0 => quad_y_mono(s),
            Rotation::StateR => quad_y_mono(s),
            Rotation::State2 => quad_y_mono(s),
            Rotation::StateL => quad_y_mono(s),
        },
        MinoKind::MinoL => match state {
            Rotation::State0 => quad_y_mono(s),
            Rotation::StateR => quad_y_mono(s),
            Rotation::State2 => quad_y_mono(s),
            Rotation::StateL => quad_y_mono(s),
        },
        MinoKind::MinoT => match state {
            Rotation::State0 => quad_y_mono(s),
            Rotation::StateR => quad_y_mono(s),
            Rotation::State2 => quad_y_mono(s),
            Rotation::StateL => quad_y_mono(s),
        },
    }
}

/// The four rotation states of the O piece are geometrically identical.
pub proof fn lemma_o_cells_identical(a: Rotation, b: Rotation)
    ensures
        spec_cells(MinoKind::MinoO, a) == spec_cells(MinoKind::MinoO, b),
{
}

/// A value that knows which cells it occupies relative to its pivot.
pub trait Cell {
    /// The four cell offsets of this piece in its current rotation state.
    fn cells(&self) -> Vec<(i8, i8)>;
}

impl Cell for MinoState {
    fn cells(&self) -> (v: Vec<(i8, i8)>)
        ensures
            v@ == spec_cells(self.kind, self.state),
    {
        cell_table(self.kind, self.state)
    }
}

/// Builds the four-offset list of one catalog entry.
fn quad(a: (i8, i8), b: (i8, i8), c: (i8, i8), d: (i8, i8)) -> (v: Vec<(i8, i8)>)
    ensures
        v@ =~= seq![a, b, c, d],
{
    let mut v: Vec<(i8, i8)> = Vec::new();
    v.push(a);
    v.push(b);
    v.push(c);
    v.push(d);
    v
}

/// The catalog lookup as executable code.
pub fn cell_table(kind: MinoKind, state: Rotation) -> (v: Vec<(i8, i8)>)
    ensures
        v@ == spec_cells(kind, state),
{
    match kind {
        MinoKind::MinoI => match state {
            Rotation::State0 => quad((-1, 0), (0, 0), (1, 0), (2, 0)),
            Rotation::StateR => quad((1, 2), (1, 1), (1, 0), (1, -1)),
            Rotation::State2 => quad((-1, 1), (0, 1), (1, 1), (2, 1)),
            Rotation::StateL => quad((0, 2), (0, 1), (0, 0), (0, -1)),
        },
        MinoKind::MinoO => quad((1, 1), (0, 1), (1, 0), (0, 0)),
        MinoKind::MinoS => match state {
            Rotation::State0 => quad((-1, 0), (0, 0), (1, -1), (0, -1)),
            Rotation::StateR => quad((1, 1), (0, 0), (1, 0), (0, -1)),
            Rotation::State2 => quad((-1, 1), (0, 1), (1, 0), (0, 0)),
            Rotation::StateL => quad((0, 1), (-1, 0), (0, 0), (-1, -1)),
        },
        MinoKind::MinoZ => match state {
            Rotation::State0 => quad((0, 0), (1, 0), (-1, -1), (0, -1)),
            Rotation::StateR => quad((0, 1), (1, 0), (0, 0), (1, -1)),
            Rotation::State2 => quad((0, 1), (1, 1), (-1, 0), (0, 0)),
            Rotation::StateL => quad((-1, 1), (0, 0), (-1, 0), (0, -1)),
        },
        MinoKind::MinoJ => match state {
            Rotation::State0 => quad((-1, 0), (0, 0), (1, 0), (-1, -1)),
            Rotation::StateR => quad((0, 1), (0, 0), (1, -1), (0, -1)),
            Rotation::State2 => quad((1, 1), (-1, 0), (0, 0), (1, 0)),
            Rotation::StateL => quad((-1, 1), (0, 1), (0, 0), (0, -1)),
        },
        MinoKind::MinoL => match state {
            Rotation::State0 => quad((-1, 0), (0, 0), (1, 0), (1, -1)),
            Rotation::StateR => quad((1, 1), (0, 1), (0, 0), (0, -1)),
            Rotation::State2 => quad((-1, 1), (1, 0), (0, 0), (-1, 0)),
            Rotation::StateL => quad((0, 1), (0, 0), (0, -1), (-1, -1)),
        },
        MinoKind::MinoT => match state {
            Rotation::State0 => quad((-1, 0), (0, 0), (1, 0), (0, -1)),
            Rotation::StateR => quad((0, 1), (0, 0), (1, 0), (0, -1)),
            Rotation::State2 => quad((0, 1), (-1, 0), (1, 0), (0, 0)),
            Rotation::StateL => quad((0, 1), (-1, 0), (0, 0), (0, -1)),
        },
    }
}

} // verus!
