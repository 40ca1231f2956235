use vstd::prelude::*;
use crate::overs::Overs;

verus! {

/// The batting side's score at the end of an over.
#[derive(Clone, Copy, Debug, PartialEq, Eq, Structural)]
pub struct Summary {
    pub runs: u32,
    pub wickets: u32,
    pub overs: Overs,
}

impl Summary {
    pub fn new(runs: u32, wickets: u32, overs: Overs) -> (r: Self)
        ensures
            r == (Summary { runs, wickets, overs }),
    {
        Summary { runs, wickets, overs }
    }
}

} // verus!
