use vstd::prelude::*;

verus! {

/// Balls per over.
pub const BALLS_PER_OVER: u32 = 6;

/// A count of completed overs and of the balls bowled in the current one.
#[derive(Clone, Copy, Debug, PartialEq, Eq, Structural)]
pub struct Overs {
    pub overs: u32,
    pub balls: u32,
}

impl Overs {
    /// The counter after one legal ball under the bowler policy, which rolls
    /// over on its own at the sixth ball.
    pub open spec fn spec_add_ball_bowler(self) -> Overs {
        if self.balls + 1 == 6 {
            Overs { overs: (self.overs + 1) as u32, balls: 0 }
        } else {
            Overs { overs: self.overs, balls: (self.balls + 1) as u32 }
        }
    }

    /// Whether one more legal ball under the bowler policy fits in the counters.
    pub open spec fn can_add_ball_bowler(self) -> bool {
        &&& self.balls < u32::MAX
        &&& (self.balls + 1 == 6 ==> self.overs < u32::MAX)
    }

    pub fn new() -> (r: Self)
        ensures
            r == (Overs { overs: 0, balls: 0 }),
    {
        Overs { overs: 0, balls: 0 }
    }

    /// Team policy: one more legal ball, with no rollover.
    pub fn add_ball(&mut self)
        requires
            old(self).balls < u32::MAX,
        ensures
            *final(self) == (Overs { overs: old(self).overs, balls: (old(self).balls + 1) as u32 }),
    {
        self.balls = self.balls + 1;
    }

    /// Bowler policy: one more legal ball; the sixth completes the over.
    pub fn add_ball_bowler(&mut self)
        requires
            old(self).can_add_ball_bowler(),
        ensures
            *final(self) == old(self).spec_add_ball_bowler(),
            old(self).balls < 6 ==> final(self).balls < 6,
            final(self).overs >= old(self).overs,
    {
        self.balls = self.balls + 1;
        if self.balls == BALLS_PER_OVER {
            self.overs = self.overs + 1;
            self.balls = 0;
        }
    }

    /// Explicit rollover: the balls go back to zero and one over is added,
    /// whatever the ball count was.
    pub fn end_over(&mut self)
        requires
            old(self).overs < u32::MAX,
        ensures
            *final(self) == (Overs { overs: (old(self).overs + 1) as u32, balls: 0 }),
    {
        self.balls = 0;
        self.overs = self.overs + 1;
    }
}

} // verus!
