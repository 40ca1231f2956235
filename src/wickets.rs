use vstd::prelude::*;

verus! {

/// How a batter's innings ended, or that it has not.
#[derive(Clone, Copy, Debug, PartialEq, Eq, Structural)]
pub enum HowOut {
    DidNotBat,
    NotOut,
    Bowled,
    Lbw,
    Caught,
    RunOut,
    Stumped,
    HitWicket,
    HitBallTwice,
    HandledBall,
    ObstructedField,
    TimedOut,
    RetiredHurt,
    RetiredNotOut,
}

/// Every way out, in the order that selection lists show them.
pub open spec fn how_out_list() -> Seq<HowOut> {
    seq![
        HowOut::DidNotBat,
        HowOut::NotOut,
        HowOut::Bowled,
        HowOut::Lbw,
        HowOut::Caught,
        HowOut::RunOut,
        HowOut::Stumped,
        HowOut::HitWicket,
        HowOut::HitBallTwice,
        HowOut::HandledBall,
        HowOut::ObstructedField,
        HowOut::TimedOut,
        HowOut::RetiredHurt,
        HowOut::RetiredNotOut,
    ]
}

impl HowOut {
    /// Every value, in the order that selection lists show them.
    pub fn all() -> (r: Vec<HowOut>)
        ensures
            r@ == how_out_list(),
    {
        vec![
            HowOut::DidNotBat,
            HowOut::NotOut,
            HowOut::Bowled,
            HowOut::Lbw,
            HowOut::Caught,
            HowOut::RunOut,
            HowOut::Stumped,
            HowOut::HitWicket,
            HowOut::HitBallTwice,
            HowOut::HandledBall,
            HowOut::ObstructedField,
            HowOut::TimedOut,
            HowOut::RetiredHurt,
            HowOut::RetiredNotOut,
        ]
    }

    /// Whether a player in this state may be picked to come in and bat.
    pub open spec fn spec_can_come_in(self) -> bool {
        self is DidNotBat || self is NotOut || self is RetiredHurt || self is RetiredNotOut
    }

    pub fn can_come_in(&self) -> (r: bool)
        ensures
            r == self.spec_can_come_in(),
    {
        match self {
            HowOut::DidNotBat | HowOut::NotOut | HowOut::RetiredHurt | HowOut::RetiredNotOut => true,
            _ => false,
        }
    }

    /// Name shown for the value.
    pub fn label(&self) -> (r: &'static str)
        ensures
            r@ == match *self {
                HowOut::DidNotBat => "Did not bat"@,
                HowOut::NotOut => "Not out"@,
                HowOut::Bowled => "Bowled"@,
                HowOut::Lbw => "LBW"@,
                HowOut::Caught => "Caught"@,
                HowOut::RunOut => "Run out"@,
                HowOut::Stumped => "Stumped"@,
                HowOut::HitWicket => "Hit wicket"@,
                HowOut::HitBallTwice => "Hit ball twice"@,
                HowOut::HandledBall => "Handled the ball"@,
                HowOut::ObstructedField => "Obstructed the field"@,
                HowOut::TimedOut => "Timed out"@,
                HowOut::RetiredHurt => "Retired hurt"@,
                HowOut::RetiredNotOut => "Retired not out"@,
            },
    {
        proof {
            reveal_strlit("Did not bat");
            reveal_strlit("Not out");
            reveal_strlit("Bowled");
            reveal_strlit("LBW");
            reveal_strlit("Caught");
            reveal_strlit("Run out");
            reveal_strlit("Stumped");
            reveal_strlit("Hit wicket");
            reveal_strlit("Hit ball twice");
            reveal_strlit("Handled the ball");
            reveal_strlit("Obstructed the field");
            reveal_strlit("Timed out");
            reveal_strlit("Retired hurt");
            reveal_strlit("Retired not out");
        }
        match self {
            HowOut::DidNotBat => "Did not bat",
            HowOut::NotOut => "Not out",
            HowOut::Bowled => "Bowled",
            HowOut::Lbw => "LBW",
            HowOut::Caught => "Caught",
            HowOut::RunOut => "Run out",
            HowOut::Stumped => "Stumped",
            HowOut::HitWicket => "Hit wicket",
            HowOut::HitBallTwice => "Hit ball twice",
            HowOut::HandledBall => "Handled the ball",
            HowOut::ObstructedField => "Obstructed the field",
            HowOut::TimedOut => "Timed out",
            HowOut::RetiredHurt => "Retired hurt",
            HowOut::RetiredNotOut => "Retired not out",
        }
    }
}

/// Who is credited with a dismissal, by roster index of the fielding side.
#[derive(Clone, Copy, Debug, PartialEq, Eq, Structural)]
pub struct WicketDetails {
    pub bowler: Option<usize>,
    pub fielder: Option<usize>,
}

impl WicketDetails {
    pub fn new(bowler: Option<usize>, fielder: Option<usize>) -> (r: Self)
        ensures
            r == (WicketDetails { bowler, fielder }),
    {
        WicketDetails { bowler, fielder }
    }
}

/// A dismissal as it is logged. `batter` is the roster index of the batter
/// out where it has to be named (a run out, which may be of either batter);
/// `None` stands for the batter on strike.
#[derive(Clone, Copy, Debug, PartialEq, Eq, Structural)]
pub struct WicketEvent {
    pub how_out: HowOut,
    pub bowler: Option<usize>,
    pub fielder: Option<usize>,
    pub batter: Option<usize>,
}

impl WicketEvent {
    /// A dismissal of the batter on strike.
    pub fn new(how_out: HowOut, bowler: Option<usize>, fielder: Option<usize>) -> (r: Self)
        ensures
            r == (WicketEvent { how_out, bowler, fielder, batter: None }),
    {
        WicketEvent { how_out, bowler, fielder, batter: None }
    }

    /// A run out of the batter at roster index `batter`.
    pub fn run_out(bowler: Option<usize>, fielder: Option<usize>, batter: usize) -> (r: Self)
        ensures
            r == (WicketEvent { how_out: HowOut::RunOut, bowler, fielder, batter: Some(batter) }),
    {
        WicketEvent { how_out: HowOut::RunOut, bowler, fielder, batter: Some(batter) }
    }

    /// A caught dismissal names the fielder who took the catch.
    pub open spec fn is_well_formed(self) -> bool {
        self.how_out is Caught ==> self.fielder is Some
    }
}

} // verus!
