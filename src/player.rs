use vstd::prelude::*;
use crate::extras::{Extra, Extras};
use crate::overs::Overs;
use crate::wickets::{HowOut, WicketDetails};

verus! {

/// One player's record: identity, how the innings ended, and batting and
/// bowling figures.
#[derive(Clone, Debug, PartialEq, Eq)]
pub struct Player {
    pub first_name: String,
    pub last_name: String,
    pub how_out: HowOut,
    pub wicket_details: Option<WicketDetails>,
    pub runs_scored: u32,
    pub balls_faced: u32,
    pub runs_conceded: u32,
    pub wickets_taken: u32,
    pub overs_bowled: Overs,
    pub extras: Extras,
    pub order: usize,
    pub batting_order: Option<usize>,
    pub bowling_order: Option<usize>,
}

impl Player {
    /// The record after the player bowls an extra: byes and leg byes are
    /// legal balls of the player's over, and every extra goes to the
    /// player's own ledger.
    pub open spec fn spec_add_extra(self, extra: Extra) -> Player {
        Player {
            overs_bowled: if extra.extra_type.spec_is_legal_ball() {
                self.overs_bowled.spec_add_ball_bowler()
            } else {
                self.overs_bowled
            },
            extras: self.extras.spec_add_extra(extra),
            ..self
        }
    }

    pub open spec fn can_add_extra(self, extra: Extra) -> bool {
        &&& self.extras.can_add_extra(extra)
        &&& (extra.extra_type.spec_is_legal_ball() ==> self.overs_bowled.can_add_ball_bowler())
    }

    /// Whether the record is that of a player just entered under these names
    /// and roster order: no innings yet and no figures.
    pub open spec fn is_new(self, first_name: Seq<char>, last_name: Seq<char>, order: usize) -> bool {
        &&& self.first_name@ == first_name
        &&& self.last_name@ == last_name
        &&& self.how_out == HowOut::DidNotBat
        &&& self.wicket_details is None
        &&& self.runs_scored == 0
        &&& self.balls_faced == 0
        &&& self.runs_conceded == 0
        &&& self.wickets_taken == 0
        &&& self.overs_bowled == (Overs { overs: 0, balls: 0 })
        &&& self.extras == (Extras { wides: 0, no_balls: 0, byes: 0, leg_byes: 0, penalty_runs: 0 })
        &&& self.order == order
        &&& self.batting_order is None
        &&& self.bowling_order is None
    }

    pub fn new(first_name: &str, last_name: &str, order: usize) -> (r: Self)
        ensures
            r.is_new(first_name@, last_name@, order),
    {
        Player {
            first_name: first_name.to_owned(),
            last_name: last_name.to_owned(),
            how_out: HowOut::DidNotBat,
            wicket_details: None,
            runs_scored: 0,
            balls_faced: 0,
            runs_conceded: 0,
            wickets_taken: 0,
            overs_bowled: Overs::new(),
            extras: Extras::new(),
            order,
            batting_order: None,
            bowling_order: None,
        }
    }

    /// A copy of the record, field for field.
    pub fn duplicate(&self) -> (r: Self)
        ensures
            r == *self,
    {
        Player {
            first_name: self.first_name.clone(),
            last_name: self.last_name.clone(),
            how_out: self.how_out,
            wicket_details: self.wicket_details,
            runs_scored: self.runs_scored,
            balls_faced: self.balls_faced,
            runs_conceded: self.runs_conceded,
            wickets_taken: self.wickets_taken,
            overs_bowled: self.overs_bowled,
            extras: self.extras,
            order: self.order,
            batting_order: self.batting_order,
            bowling_order: self.bowling_order,
        }
    }

    pub fn add_extra(&mut self, extra: &Extra)
        requires
            old(self).can_add_extra(*extra),
        ensures
            *final(self) == old(self).spec_add_extra(*extra),
    {
        if extra.extra_type.is_legal_ball() {
            self.overs_bowled.add_ball_bowler();
        }
        self.extras.add_extra(extra);
    }
}

/// Which of the two batting slots a batter holds.
#[derive(Clone, Copy, Debug, PartialEq, Eq, Structural)]
pub enum PlayerType {
    A,
    B,
}

impl PlayerType {
    pub open spec fn spec_other(self) -> PlayerType {
        match self {
            PlayerType::A => PlayerType::B,
            PlayerType::B => PlayerType::A,
        }
    }

    pub fn other(&self) -> (r: PlayerType)
        ensures
            r == self.spec_other(),
    {
        match self {
            PlayerType::A => PlayerType::B,
            PlayerType::B => PlayerType::A,
        }
    }
}

} // verus!
