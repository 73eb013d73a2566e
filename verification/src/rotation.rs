//! The four rotation states of a piece and the cyclic transitions between
//! them: State0 -> StateR -> State2 -> StateL -> State0 when turning
//! clockwise, and the reverse when turning counter-clockwise.

use vstd::prelude::*;

verus! {

/// A piece's rotation state.  `State0` is the spawn orientation, `StateR`
/// one clockwise turn, `State2` a half turn, `StateL` one counter-clockwise
/// turn.
#[derive(Debug, Clone, Copy, PartialEq, Eq, Structural)]
pub enum Rotation {
    State0,
    StateR,
    State2,
    StateL,
}

/// The rotation state one clockwise turn further.
pub open spec fn spec_right_state(r: Rotation) -> Rotation {
    match r {
        Rotation::State0 => Rotation::StateR,
        Rotation::StateR => Rotation::State2,
        Rotation::State2 => Rotation::StateL,
        Rotation::StateL => Rotation::State0,
    }
}

/// The rotation state one counter-clockwise turn further.
pub open spec fn spec_left_state(r: Rotation) -> Rotation {
    match r {
        Rotation::State0 => Rotation::StateL,
        Rotation::StateL => Rotation::State2,
        Rotation::State2 => Rotation::StateR,
        Rotation::StateR => Rotation::State0,
    }
}

/// A value that steps through the rotation cycle.
pub trait RotationState: Sized {
    /// The state after one clockwise turn.
    fn right_state(&self) -> Self;

    /// The state after one counter-clockwise turn.
    fn left_state(&self) -> Self;
}

impl RotationState for Rotation {
    fn right_state(&self) -> (r: Rotation)
        ensures
            r == spec_right_state(*self),
    {
        match self {
            Rotation::State0 => Rotation::StateR,
            Rotation::StateR => Rotation::State2,
            Rotation::State2 => Rotation::StateL,
            Rotation::StateL => Rotation::State0,
        }
    }

    fn left_state(&self) -> (r: Rotation)
        ensures
            r == spec_left_state(*self),
    {
        match self {
            Rotation::State0 => Rotation::StateL,
            Rotation::StateL => Rotation::State2,
            Rotation::State2 => Rotation::StateR,
            Rotation::StateR => Rotation::State0,
        }
    }
}

/// The transition tables are deterministic cycles: a counter-clockwise turn
/// undoes a clockwise turn, and four turns in either direction return every
/// state to itself.
pub proof fn lemma_rotation_cycle(r: Rotation)
    ensures
        spec_left_state(spec_right_state(r)) == r,
        spec_right_state(spec_left_state(r)) == r,
        spec_right_state(spec_right_state(spec_right_state(spec_right_state(r)))) == r,
        spec_left_state(spec_left_state(spec_left_state(spec_left_state(r)))) == r,
{
}

} // verus!
