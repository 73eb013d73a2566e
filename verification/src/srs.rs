//! The Super Rotation System: for every kick-table family and rotation
//! transition, the ordered list of pivot offsets to try until one placement
//! is collision-free.  The first candidate is always `(0, 0)`, the free
//! rotation.

use vstd::prelude::*;

verus! {

use crate::mino::{
    spec_form_of, withCell, IsState, MinoCore, MinoForm, MinoState, NewWith, Position, Rotatable,
};
use crate::rotation::{spec_left_state, spec_right_state, Rotation, RotationState};

/// The kick candidates for rotating a piece of family `form` from state
/// `from` to state `to`.  Only the eight adjacent transitions of each family
/// occur; any other pair has no candidates.
pub open spec fn spec_kick_table(form: MinoForm, from: Rotation, to: Rotation) -> Seq<(i8, i8)> {
    match form {
        MinoForm::Bar => match (from, to) {
            (Rotation::State0, Rotation::StateR) => seq![
                (0i8, 0i8),
                (-2i8, 0i8),
                (1i8, 0i8),
                (-2i8, -1i8),
                (1i8, 2i8),
            ],
            (Rotation::StateR, Rotation::State0) => seq![
                (0i8, 0i8),
                (2i8, 0i8),
                (-1i8, 0i8),
                (2i8, 1i8),
                (-1i8, -2i8),
            ],
            (Rotation::StateR, Rotation::State2) => seq![
                (0i8, 0i8),
                (-1i8, 0i8),
                (2i8, 0i8),
                (-1i8, 2i8),
                (2i8, -1i8),
            ],
            (Rotation::State2, Rotation::StateR) => seq![
                (0i8, 0i8),
                (1i8, 0i8),
                (-2i8, 0i8),
                (1i8, -2i8),
                (-2i8, 1i8),
            ],
            (Rotation::State2, Rotation::StateL) => seq![
                (0i8, 0i8),
                (2i8, 0i8),
                (-1i8, 0i8),
                (2i8, 1i8),
                (-1i8, -2i8),
            ],
            (Rotation::StateL, Rotation::State2) => seq![
                (0i8, 0i8),
                (-2i8, 0i8),
                (1i8, 0i8),
                (-2i8, -1i8),
                (1i8, 2i8),
            ],
            (Rotation::StateL, Rotation::State0) => seq![
                (0i8, 0i8),
                (1i8, 0i8),
                (-2i8, 0i8),
                (1i8, -2i8),
                (-2i8, 1i8),
            ],
            (Rotation::State0, Rotation::StateL) => seq![
                (0i8, 0i8),
                (-1i8, 0i8),
                (2i8, 0i8),
                (-1i8, 2i8),
                (2i8, -1i8),
            ],
            _ => seq![],
        },
        MinoForm::Normal => match (from, to) {
            (Rotation::State0, Rotation::StateR) => seq![
                (0i8, 0i8),
                (-1i8, 0i8),
                (-1i8, 1i8),
                (0i8, -2i8),
                (-1i8, -2i8),
            ],
            (Rotation::StateR, Rotation::State0) => seq![
                (0i8, 0i8),
                (1i8, 0i8),
                (1i8, -1i8),
                (0i8, 2i8),
                (1i8, 2i8),
            ],
            (Rotation::StateR, Rotation::State2) => seq![
                (0i8, 0i8),
                (1i8, 0i8),
                (1i8, -1i8),
                (0i8, 2i8),
                (1i8, 2i8),
            ],
            (Rotation::State2, Rotation::StateR) => seq![
                (0i8, 0i8),
                (-1i8, 0i8),
                (-1i8, 1i8),
                (0i8, -2i8),
                (-1i8, -2i8),
            ],
            (Rotation::State2, Rotation::StateL) => seq![
                (0i8, 0i8),
                (1i8, 0i8),
                (1i8, 1i8),
                (0i8, -2i8),
                (1i8, -2i8),
            ],
            (Rotation::StateL, Rotation::State2) => seq![
                (0i8, 0i8),
                (-1i8, 0i8),
                (-1i8, -1i8),
                (0i8, 2i8),
                (-1i8, 2i8),
            ],
            (Rotation::StateL, Rotation::State0) => seq![
                (0i8, 0i8),
                (-1i8, 0i8),
                (-1i8, -1i8),
                (0i8, 2i8),
                (-1i8, 2i8),
            ],
            (Rotation::State0, Rotation::StateL) => seq![
                (0i8, 0i8),
                (1i8, 0i8),
                (1i8, 1i8),
                (0i8, -2i8),
                (1i8, -2i8),
            ],
            _ => seq![],
        },
    }
}

/// Every transition the rotation system uses has exactly five candidates,
/// and the first is always `(0, 0)`: the free rotation is tried before any
/// kick.
pub proof fn lemma_kick_table_free_first(form: MinoForm, from: Rotation)
    ensures
        spec_kick_table(form, from, spec_right_state(from)).len() == 5,
        spec_kick_table(form, from, spec_right_state(from))[0] == (0i8, 0i8),
        spec_kick_table(form, from, spec_left_state(from)).len() == 5,
        spec_kick_table(form, from, spec_left_state(from))[0] == (0i8, 0i8),
{
    match from {
        Rotation::State0 => {},
        Rotation::StateR => {},
        Rotation::State2 => {},
        Rotation::StateL => {},
    }
}

/// One kick-table lookup key: a family and a rotation transition.
pub struct SrsOffset {
    pub form: MinoForm,
    pub from: Rotation,
    pub to: Rotation,
}

impl SrsOffset {
    pub fn new(form: MinoForm, from: Rotation, to: Rotation) -> (s: SrsOffset)
        ensures
            s == (SrsOffset { form, from, to }),
    {
        SrsOffset { form, from, to }
    }
}

/// A lookup key that yields its kick candidates.
pub trait SrsOffsetExe {
    /// The ordered kick offsets to try for this transition.
    fn offset(&self) -> Vec<(i8, i8)>;
}

impl SrsOffsetExe for SrsOffset {
    fn offset(&self) -> (v: Vec<(i8, i8)>)
        ensures
            v@ == spec_kick_table(self.form, self.from, self.to),
    {
        kick_table(self.form, self.from, self.to)
    }
}

/// Builds the five-candidate list of one kick-table entry.
fn penta(a: (i8, i8), b: (i8, i8), c: (i8, i8), d: (i8, i8), e: (i8, i8)) -> (v: Vec<(i8, i8)>)
    ensures
        v@ =~= seq![a, b, c, d, e],
{
    let mut v: Vec<(i8, i8)> = Vec::new();
    v.push(a);
    v.push(b);
    v.push(c);
    v.push(d);
    v.push(e);
    v
}

/// The kick-table lookup as executable code.
pub fn kick_table(form: MinoForm, from: Rotation, to: Rotation) -> (v: Vec<(i8, i8)>)
    ensures
        v@ == spec_kick_table(form, from, to),
{
    match form {
        MinoForm::Bar => match (from, to) {
            (Rotation::State0, Rotation::StateR) => penta((0, 0), (-2, 0), (1, 0), (-2, -1), (1, 2)),
            (Rotation::StateR, Rotation::State0) => penta((0, 0), (2, 0), (-1, 0), (2, 1), (-1, -2)),
            (Rotation::StateR, Rotation::State2) => penta((0, 0), (-1, 0), (2, 0), (-1, 2), (2, -1)),
            (Rotation::State2, Rotation::StateR) => penta((0, 0), (1, 0), (-2, 0), (1, -2), (-2, 1)),
            (Rotation::State2, Rotation::StateL) => penta((0, 0), (2, 0), (-1, 0), (2, 1), (-1, -2)),
            (Rotation::StateL, Rotation::State2) => penta((0, 0), (-2, 0), (1, 0), (-2, -1), (1, 2)),
            (Rotation::StateL, Rotation::State0) => penta((0, 0), (1, 0), (-2, 0), (1, -2), (-2, 1)),
            (Rotation::State0, Rotation::StateL) => penta((0, 0), (-1, 0), (2, 0), (-1, 2), (2, -1)),
            _ => Vec::new(),
        },
        MinoForm::Normal => match (from, to) {
            (Rotation::State0, Rotation::StateR) => penta(
                (0, 0),
                (-1, 0),
                (-1, 1),
                (0, -2),
                (-1, -2),
            ),
            (Rotation::StateR, Rotation::State0) => penta((0, 0), (1, 0), (1, -1), (0, 2), (1, 2)),
            (Rotation::StateR, Rotation::State2) => penta((0, 0), (1, 0), (1, -1), (0, 2), (1, 2)),
            (Rotation::State2, Rotation::StateR) => penta(
                (0, 0),
                (-1, 0),
                (-1, 1),
                (0, -2),
                (-1, -2),
            ),
            (Rotation::State2, Rotation::StateL) => penta((0, 0), (1, 0), (1, 1), (0, -2), (1, -2)),
            (Rotation::StateL, Rotation::State2) => penta(
                (0, 0),
                (-1, 0),
                (-1, -1),
                (0, 2),
                (-1, 2),
            ),
            (Rotation::StateL, Rotation::State0) => penta(
                (0, 0),
                (-1, 0),
                (-1, -1),
                (0, 2),
                (-1, 2),
            ),
            (Rotation::State0, Rotation::StateL) => penta((0, 0), (1, 0), (1, 1), (0, -2), (1, -2)),
            _ => Vec::new(),
        },
    }
}

/// A piece turned to its next rotation state, paired with the kick offsets
/// to try for that transition.
pub struct RotatedMino {
    pub mino: MinoState,
    pub offsets: Vec<(i8, i8)>,
}

/// Turning a piece clockwise.
pub trait Right {
    /// The piece in its next clockwise state, still at this piece's pivot,
    /// with the kick candidates for the transition.
    fn right(&self) -> RotatedMino;
}

impl Right for MinoState {
    fn right(&self) -> (r: RotatedMino)
        ensures
            r.mino == (MinoState { state: spec_right_state(self.state), ..*self }),
            r.offsets@ == spec_kick_table(
                spec_form_of(self.kind),
                self.state,
                spec_right_state(self.state),
            ),
    {
        let next = MinoState {
            kind: self.kind,
            state: self.state.right_state(),
            x: self.x,
            y: self.y,
        };
        let srs = SrsOffset::new(self.form(), self.state, next.state);
        RotatedMino { mino: next, offsets: srs.offset() }
    }
}

/// Turning a piece counter-clockwise.
pub trait Left {
    /// The piece in its next counter-clockwise state, still at this piece's
    /// pivot, with the kick candidates for the transition.
    fn left(&self) -> RotatedMino;
}

impl Left for MinoState {
    fn left(&self) -> (r: RotatedMino)
        ensures
            r.mino == (MinoState { state: spec_left_state(self.state), ..*self }),
            r.offsets@ == spec_kick_table(
                spec_form_of(self.kind),
                self.state,
                spec_left_state(self.state),
            ),
    {
        let next = MinoState {
            kind: self.kind,
            state: self.state.left_state(),
            x: self.x,
            y: self.y,
        };
        let srs = SrsOffset::new(self.form(), self.state, next.state);
        RotatedMino { mino: next, offsets: srs.offset() }
    }
}

/// Everything the game engine asks of its active piece.
pub trait MinoFn: NewWith + Right + Left + withCell + Rotatable + IsState {

}

impl MinoFn for MinoState {

}

} // verus!
