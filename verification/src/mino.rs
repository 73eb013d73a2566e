//! One falling piece: its kind, rotation state and pivot position, together
//! with the traits that expose its position, its cells, and the collision
//! test against the field.

use vstd::prelude::*;

verus! {

use crate::cells::{cell_table, lemma_cells_bounds, spec_cells, Cell};
use crate::field::Field;
use crate::rotation::Rotation;
use crate::{FIELD_H, FIELD_W};

/// The seven piece kinds.
#[derive(Debug, Clone, Copy, PartialEq, Eq, Structural)]
pub enum MinoKind {
    MinoI,
    MinoO,
    MinoS,
    MinoZ,
    MinoJ,
    MinoL,
    MinoT,
}

/// The two kick-table families: the I piece kicks as a bar, every other
/// kind kicks as a normal piece.
#[derive(Debug, Clone, Copy, PartialEq, Eq, Structural)]
pub enum MinoForm {
    Normal,
    Bar,
}

/// Which kick-table family a piece kind belongs to.
pub open spec fn spec_form_of(kind: MinoKind) -> MinoForm {
    match kind {
        MinoKind::MinoI => MinoForm::Bar,
        _ => MinoForm::Normal,
    }
}

/// One piece: kind, rotation state, and the pivot's position on the field.
#[derive(Debug, Clone, Copy, PartialEq, Eq, Structural)]
pub struct MinoState {
    pub kind: MinoKind,
    pub state: Rotation,
    pub x: i8,
    pub y: i8,
}

/// The piece's four absolute cells if its pivot stood at `(x, y)`.
pub open spec fn spec_cells_at(kind: MinoKind, state: Rotation, x: int, y: int) -> Seq<
    (int, int),
> {
    Seq::new(
        spec_cells(kind, state).len(),
        |i: int| (x + spec_cells(kind, state)[i].0, y + spec_cells(kind, state)[i].1),
    )
}

/// The piece's four absolute cells.
pub open spec fn spec_abs_cells(m: MinoState) -> Seq<(int, int)> {
    spec_cells_at(m.kind, m.state, m.x as int, m.y as int)
}

/// Whether a piece of this kind and state would collide if its pivot stood
/// at `(x, y)`: some cell is occupied or outside the field.
pub open spec fn spec_hits_at(f: Field, kind: MinoKind, state: Rotation, x: int, y: int) -> bool {
    exists|i: int|
        0 <= i < spec_cells_at(kind, state, x, y).len() && f.spec_test(
            (#[trigger] spec_cells_at(kind, state, x, y)[i]).0,
            spec_cells_at(kind, state, x, y)[i].1,
        )
}

/// Whether the piece collides where it stands.
pub open spec fn spec_hits(f: Field, m: MinoState) -> bool {
    spec_hits_at(f, m.kind, m.state, m.x as int, m.y as int)
}

/// A piece whose pivot lies in `[-3, FIELD_W + 2] x [-3, FIELD_H + 2]`.  Any
/// placement that does not collide keeps the pivot in this window, since the
/// cells stay on the field and offsets are at most 2.
pub open spec fn spec_pos_in_window(x: int, y: int) -> bool {
    -3 <= x <= FIELD_W + 2 && -3 <= y <= FIELD_H + 2
}

/// A collision-free placement pins the pivot near the field, so it fits an
/// `i8` whatever kick or move produced it.
pub proof fn lemma_free_placement_in_window(f: Field, kind: MinoKind, state: Rotation, x: int, y: int)
    requires
        !spec_hits_at(f, kind, state, x, y),
    ensures
        spec_pos_in_window(x, y),
{
    lemma_cells_bounds(kind, state);
    let cells = spec_cells_at(kind, state, x, y);
    assert(!f.spec_test(cells[0].0, cells[0].1));
    assert(0 <= cells[0].0 < FIELD_W && 0 <= cells[0].1 < FIELD_H);
}

impl MinoState {
    pub fn new(kind: MinoKind, state: Rotation, x: i8, y: i8) -> (m: MinoState)
        ensures
            m == (MinoState { kind, state, x, y }),
    {
        MinoState { kind, state, x, y }
    }
}

/// Collision probe for a hypothetical placement of a piece, with the pivot
/// given in wide coordinates so that no caller arithmetic can overflow.
pub(crate) fn hits_at(f: &Field, kind: MinoKind, state: Rotation, px: i32, py: i32) -> (r: bool)
    requires
        f.wf(),
        -1000 <= px <= 1000,
        -1000 <= py <= 1000,
    ensures
        r == spec_hits_at(*f, kind, state, px as int, py as int),
{
    proof {
        lemma_cells_bounds(kind, state);
    }
    let cells = cell_table(kind, state);
    let ghost gcells = spec_cells_at(kind, state, px as int, py as int);
    let mut i: usize = 0;
    let mut hit = false;
    while i < 4
        invariant
            f.wf(),
            -1000 <= px <= 1000,
            -1000 <= py <= 1000,
            i <= 4,
            cells@ == spec_cells(kind, state),
            cells@.len() == 4,
            gcells == spec_cells_at(kind, state, px as int, py as int),
            hit == exists|j: int|
                0 <= j < i && f.spec_test((#[trigger] gcells[j]).0, gcells[j].1),
        decreases 4 - i,
    {
        let (dx, dy) = cells[i];
        let cx: i32 = px + dx as i32;
        let cy: i32 = py + dy as i32;
        let blocked = if cx < 0 || cx >= FIELD_W as i32 || cy < 0 || cy >= FIELD_H as i32 {
            true
        } else {
            f.test(cx as i8, cy as i8)
        };
        proof {
            assert(gcells[i as int] == (px + dx as int, py + dy as int));
            assert(blocked == f.spec_test(gcells[i as int].0, gcells[i as int].1));
        }
        hit = hit || blocked;
        i = i + 1;
    }
    hit
}

/// Read and change where a piece stands.
pub trait Position: Sized {
    /// Whether a relative move keeps the pivot within `i8` coordinates.
    spec fn offset_in_range(&self, xy: (i8, i8)) -> bool;

    /// The pivot's position.
    fn pos(&self) -> (i8, i8);

    /// Teleports the pivot, as kick retries and tests do.
    fn absolute(&mut self, xy: (i8, i8));

    /// Moves the pivot relative to where it stands.
    fn offset(&mut self, xy: (i8, i8))
        requires
            old(self).offset_in_range(xy),
    ;
}

impl Position for MinoState {
    open spec fn offset_in_range(&self, xy: (i8, i8)) -> bool {
        &&& i8::MIN <= self.x + xy.0 <= i8::MAX
        &&& i8::MIN <= self.y + xy.1 <= i8::MAX
    }

    fn pos(&self) -> (r: (i8, i8))
        ensures
            r == (self.x, self.y),
    {
        (self.x, self.y)
    }

    fn absolute(&mut self, xy: (i8, i8))
        ensures
            *final(self) == (MinoState { x: xy.0, y: xy.1, ..*old(self) }),
    {
        self.x = xy.0;
        self.y = xy.1;
    }

    fn offset(&mut self, xy: (i8, i8))
        ensures
            *final(self) == (MinoState {
                x: (old(self).x + xy.0) as i8,
                y: (old(self).y + xy.1) as i8,
                ..*old(self)
            }),
    {
        self.x = self.x + xy.0;
        self.y = self.y + xy.1;
    }
}

/// Whether rotation events may turn a piece at all.
pub trait Rotatable {
    /// False only for the O piece: its rotations must always fail, so that
    /// spin patterns against it never earn spin credit.
    fn is_rotatable(&self) -> bool;
}

impl Rotatable for MinoState {
    fn is_rotatable(&self) -> (r: bool)
        ensures
            r == (self.kind != MinoKind::MinoO),
    {
        match self.kind {
            MinoKind::MinoO => false,
            _ => true,
        }
    }
}

/// Which of the four rotation states a piece is in.
pub trait IsState {
    fn is_0(&self) -> bool;

    fn is_r(&self) -> bool;

    fn is_l(&self) -> bool;

    fn is_2(&self) -> bool;
}

impl IsState for MinoState {
    fn is_0(&self) -> (r: bool)
        ensures
            r == (self.state == Rotation::State0),
    {
        match self.state {
            Rotation::State0 => true,
            _ => false,
        }
    }

    fn is_r(&self) -> (r: bool)
        ensures
            r == (self.state == Rotation::StateR),
    {
        match self.state {
            Rotation::StateR => true,
            _ => false,
        }
    }

    fn is_l(&self) -> (r: bool)
        ensures
            r == (self.state == Rotation::StateL),
    {
        match self.state {
            Rotation::StateL => true,
            _ => false,
        }
    }

    fn is_2(&self) -> (r: bool)
        ensures
            r == (self.state == Rotation::State2),
    {
        match self.state {
            Rotation::State2 => true,
            _ => false,
        }
    }
}

/// Cloning a piece at a new position.
pub trait NewWith: Sized {
    /// A copy of this piece with its pivot at `xy`.
    fn new_with(&self, xy: (i8, i8)) -> Self;
}

impl NewWith for MinoState {
    fn new_with(&self, xy: (i8, i8)) -> (m: MinoState)
        ensures
            m == (MinoState { x: xy.0, y: xy.1, ..*self }),
    {
        MinoState { kind: self.kind, state: self.state, x: xy.0, y: xy.1 }
    }
}

/// The piece information a renderer needs.
pub trait MinoCore {
    /// The piece's kick-table family.
    fn form(&self) -> MinoForm;

    /// The piece's current rotation state.
    fn now(&self) -> Rotation;
}

impl MinoCore for MinoState {
    fn form(&self) -> (f: MinoForm)
        ensures
            f == spec_form_of(self.kind),
    {
        match self.kind {
            MinoKind::MinoI => MinoForm::Bar,
            _ => MinoForm::Normal,
        }
    }

    fn now(&self) -> (r: Rotation)
        ensures
            r == self.state,
    {
        self.state
    }
}

/// A piece seen through its absolute cells.
#[allow(non_camel_case_types)]
pub trait withCell: Position + Cell {
    /// The piece's four cells in absolute field coordinates, widened so the
    /// result is defined wherever the pivot stands.
    fn absolute_cells(&self) -> Vec<(i16, i16)>;

    /// Hit test against the field: true when any cell is occupied or out of
    /// bounds.
    fn test_with_absolute_cells(&self, f: &Field) -> bool
        requires
            f.wf(),
    ;
}

impl withCell for MinoState {
    fn absolute_cells(&self) -> (v: Vec<(i16, i16)>)
        ensures
            v@.len() == 4,
            forall|i: int|
                0 <= i < 4 ==> (#[trigger] v@[i]).0 as int == spec_abs_cells(*self)[i].0 && v@[
                    i
                ].1 as int == spec_abs_cells(*self)[i].1,
    {
        proof {
            lemma_cells_bounds(self.kind, self.state);
        }
        let cells = cell_table(self.kind, self.state);
        let mut v: Vec<(i16, i16)> = Vec::new();
        let mut i: usize = 0;
        while i < 4
            invariant
                i <= 4,
                cells@ == spec_cells(self.kind, self.state),
                cells@.len() == 4,
                v@.len() == i,
                forall|j: int|
                    0 <= j < i ==> (#[trigger] v@[j]).0 as int == spec_abs_cells(*self)[j].0
                        && v@[j].1 as int == spec_abs_cells(*self)[j].1,
            decreases 4 - i,
        {
            let (dx, dy) = cells[i];
            v.push((self.x as i16 + dx as i16, self.y as i16 + dy as i16));
            i = i + 1;
        }
        v
    }

    fn test_with_absolute_cells(&self, f: &Field) -> (r: bool)
        ensures
            r == spec_hits(*f, *self),
    {
        hits_at(f, self.kind, self.state, self.x as i32, self.y as i32)
    }
}

} // verus!
