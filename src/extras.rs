use vstd::prelude::*;

verus! {

/// The kinds of extra that a delivery can give.
#[derive(Clone, Copy, Debug, PartialEq, Eq, Structural)]
pub enum ExtraType {
    Wide,
    NoBall,
    Bye,
    LegBye,
    PenaltyRuns,
}

/// Every kind of extra, in the order that selection lists show them.
pub open spec fn extra_type_list() -> Seq<ExtraType> {
    seq![ExtraType::Wide, ExtraType::NoBall, ExtraType::Bye, ExtraType::LegBye, ExtraType::PenaltyRuns]
}

impl ExtraType {
    /// Every kind, in the order that selection lists show them.
    pub fn all() -> (r: Vec<ExtraType>)
        ensures
            r@ == extra_type_list(),
    {
        vec![
            ExtraType::Wide,
            ExtraType::NoBall,
            ExtraType::Bye,
            ExtraType::LegBye,
            ExtraType::PenaltyRuns,
        ]
    }

    /// Whether the delivery counts as a legal ball (byes and leg byes do).
    pub open spec fn spec_is_legal_ball(self) -> bool {
        self is Bye || self is LegBye
    }

    pub fn is_legal_ball(&self) -> (r: bool)
        ensures
            r == self.spec_is_legal_ball(),
    {
        match self {
            ExtraType::Bye | ExtraType::LegBye => true,
            _ => false,
        }
    }

    /// The fewest runs that such an extra can carry: a wide or a no ball is
    /// worth a run of its own, so it may carry none beside it.
    pub fn minimum_runs(&self) -> (r: u32)
        ensures
            r == (if *self is Wide || *self is NoBall { 0u32 } else { 1u32 }),
    {
        match self {
            ExtraType::Wide | ExtraType::NoBall => 0,
            _ => 1,
        }
    }

    /// Name shown for the kind.
    pub fn label(&self) -> (r: &'static str)
        ensures
            r@ == match *self {
                ExtraType::Wide => "Wide"@,
                ExtraType::NoBall => "No ball"@,
                ExtraType::Bye => "Bye"@,
                ExtraType::LegBye => "Leg bye"@,
                ExtraType::PenaltyRuns => "Penalty runs"@,
            },
    {
        proof {
            reveal_strlit("Wide");
            reveal_strlit("No ball");
            reveal_strlit("Bye");
            reveal_strlit("Leg bye");
            reveal_strlit("Penalty runs");
        }
        match self {
            ExtraType::Wide => "Wide",
            ExtraType::NoBall => "No ball",
            ExtraType::Bye => "Bye",
            ExtraType::LegBye => "Leg bye",
            ExtraType::PenaltyRuns => "Penalty runs",
        }
    }
}

/// One extra: its kind and the runs taken beside it.
#[derive(Clone, Copy, Debug, PartialEq, Eq, Structural)]
pub struct Extra {
    pub runs: u32,
    pub extra_type: ExtraType,
}

impl Extra {
    pub fn new(runs: u32, extra_type: ExtraType) -> (r: Self)
        ensures
            r == (Extra { runs, extra_type }),
    {
        Extra { runs, extra_type }
    }

    /// What the extra adds to the batting team's score: a wide or a no ball
    /// is worth one run more than the runs taken.
    pub open spec fn team_runs(self) -> int {
        if self.extra_type is Wide || self.extra_type is NoBall {
            self.runs + 1
        } else {
            self.runs as int
        }
    }
}

/// Running totals of the extras given away, for a team or a bowler.
#[derive(Clone, Copy, Debug, PartialEq, Eq, Structural)]
pub struct Extras {
    pub wides: u32,
    pub no_balls: u32,
    pub byes: u32,
    pub leg_byes: u32,
    pub penalty_runs: u32,
}

impl Extras {
    /// The ledger after one extra: a wide adds its runs and one more, a no
    /// ball counts once, byes and leg byes add their runs, and penalty runs
    /// are not kept here.
    pub open spec fn spec_add_extra(self, extra: Extra) -> Extras {
        match extra.extra_type {
            ExtraType::Wide => Extras { wides: (self.wides + extra.runs + 1) as u32, ..self },
            ExtraType::NoBall => Extras { no_balls: (self.no_balls + 1) as u32, ..self },
            ExtraType::Bye => Extras { byes: (self.byes + extra.runs) as u32, ..self },
            ExtraType::LegBye => Extras { leg_byes: (self.leg_byes + extra.runs) as u32, ..self },
            ExtraType::PenaltyRuns => self,
        }
    }

    /// Whether the ledger can take the extra without a total overflowing.
    pub open spec fn can_add_extra(self, extra: Extra) -> bool {
        match extra.extra_type {
            ExtraType::Wide => self.wides + extra.runs + 1 <= u32::MAX,
            ExtraType::NoBall => self.no_balls + 1 <= u32::MAX,
            ExtraType::Bye => self.byes + extra.runs <= u32::MAX,
            ExtraType::LegBye => self.leg_byes + extra.runs <= u32::MAX,
            ExtraType::PenaltyRuns => true,
        }
    }

    pub fn new() -> (r: Self)
        ensures
            r == (Extras { wides: 0, no_balls: 0, byes: 0, leg_byes: 0, penalty_runs: 0 }),
    {
        Extras { wides: 0, no_balls: 0, byes: 0, leg_byes: 0, penalty_runs: 0 }
    }

    pub fn add_extra(&mut self, extra: &Extra)
        requires
            old(self).can_add_extra(*extra),
        ensures
            *final(self) == old(self).spec_add_extra(*extra),
    {
        match extra.extra_type {
            ExtraType::Wide => self.wides = self.wides + extra.runs + 1,
            ExtraType::NoBall => self.no_balls = self.no_balls + 1,
            ExtraType::Bye => self.byes = self.byes + extra.runs,
            ExtraType::LegBye => self.leg_byes = self.leg_byes + extra.runs,
            ExtraType::PenaltyRuns => {},
        }
    }
}

} // verus!
