//! What a round shows and what the player has typed.
use crate::geo::Coord;
use vstd::prelude::*;

verus! {

/// A named place. Two places are the same when all their fields are.
#[derive(Clone, Debug, PartialEq, Eq, Default)]
pub struct Place {
    pub name: String,
    pub country: String,
    /// Two-letter country code; empty where none is known.
    pub iso2: String,
    /// Where it lies, when the source of the pair gives it.
    pub coord: Option<Coord>,
}

/// The pair of places of a round and the distance between them, in metres.
#[derive(Clone, Debug, PartialEq, Eq, Default)]
pub struct CitiesState {
    pub expected_distance: u32,
    pub first_city: Place,
    pub second_city: Place,
}

/// The player's pending input.
#[derive(Clone, Debug, PartialEq, Eq, Default)]
pub struct GuessState {
    pub current_input: String,
    pub has_guessed: bool,
}

impl GuessState {
    /// No input, no guess.
    pub fn new() -> (r: GuessState)
        ensures
            r.current_input@ == Seq::<char>::empty(),
            !r.has_guessed,
    {
        GuessState { current_input: String::new(), has_guessed: false }
    }
}

} // verus!
