use vstd::prelude::*;

verus! {

/// The screens of the scorer, and the hint that the engine gives when the
/// caller has to make a choice before play goes on.
#[derive(Clone, Copy, Debug, PartialEq, Eq, Structural)]
pub enum Page {
    Start,
    TeamEntry,
    Scoring,
    SelectBatter,
    SelectBowler,
    SelectWicket,
    SelectExtra,
    SelectInnings,
}

} // verus!
