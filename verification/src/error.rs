use vstd::prelude::*;
use vstd::string::*;

use crate::position::Position;

verus! {

/// The two recoverable conditions the engine reports. Neither mutates the
/// board nor advances the turn.
#[derive(PartialEq, Eq, Structural, Clone, Copy, Debug)]
pub enum Error {
    /// The supplied token is not one of the nine valid coordinate strings.
    InvalidPosition,
    /// The supplied position already holds a non-empty marker.
    OccupiedCell(Position),
}

impl Error {
    /// A human-readable message for the console collaborator.
    pub fn message(&self) -> (r: String)
        ensures
            *self is InvalidPosition ==> r@ == "Invalid position! try again."@,
            *self is OccupiedCell ==> r@ == "Position is not empty!"@,
    {
        match self {
            Error::InvalidPosition => "Invalid position! try again.".to_owned(),
            Error::OccupiedCell(_) => "Position is not empty!".to_owned(),
        }
    }
}

} // verus!
