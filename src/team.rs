use vstd::prelude::*;
use crate::extras::{Extra, ExtraType, Extras};
use crate::overs::Overs;
use crate::player::Player;

verus! {

/// One of the two sides of a match.
#[derive(Clone, Copy, Debug, PartialEq, Eq, Structural)]
pub enum TeamType {
    A,
    B,
}

impl TeamType {
    pub open spec fn spec_other(self) -> TeamType {
        match self {
            TeamType::A => TeamType::B,
            TeamType::B => TeamType::A,
        }
    }

    pub fn other(&self) -> (r: TeamType)
        ensures
            r == self.spec_other(),
    {
        match self {
            TeamType::A => TeamType::B,
            TeamType::B => TeamType::A,
        }
    }
}

/// A roster in entry order, with the side's score.
pub struct Team {
    pub players: Vec<Player>,
    pub team_name: String,
    pub runs: u32,
    pub wickets: u32,
    pub overs: Overs,
    pub extras: Extras,
}

/// What a team is, as a value.
pub ghost struct TeamView {
    pub players: Seq<Player>,
    pub team_name: Seq<char>,
    pub runs: u32,
    pub wickets: u32,
    pub overs: Overs,
    pub extras: Extras,
}

impl View for Team {
    type V = TeamView;

    open spec fn view(&self) -> TeamView {
        TeamView {
            players: self.players@,
            team_name: self.team_name@,
            runs: self.runs,
            wickets: self.wickets,
            overs: self.overs,
            extras: self.extras,
        }
    }
}

/// The highest bowling order among the players, if any of them has bowled.
pub open spec fn max_bowling_order(players: Seq<Player>) -> Option<usize>
    decreases players.len(),
{
    if players.len() == 0 {
        None
    } else {
        let rest = max_bowling_order(players.drop_last());
        match (rest, players.last().bowling_order) {
            (None, b) => b,
            (Some(m), None) => Some(m),
            (Some(m), Some(b)) => Some(if b > m { b } else { m }),
        }
    }
}

/// Indices, in roster order, of the first `n` players who have not bowled.
pub open spec fn not_bowled_indices(players: Seq<Player>, n: nat) -> Seq<usize>
    decreases n,
{
    if n == 0 {
        Seq::empty()
    } else {
        let rest = not_bowled_indices(players, (n - 1) as nat);
        if players[n - 1].bowling_order is None {
            rest.push((n - 1) as usize)
        } else {
            rest
        }
    }
}

/// Whether the player at `a` comes before the player at `b` in the bowling
/// card: by bowling order, then by roster order.
pub open spec fn bowls_before(players: Seq<Player>, a: usize, b: usize) -> bool {
    let oa = players[a as int].bowling_order->0;
    let ob = players[b as int].bowling_order->0;
    oa < ob || (oa == ob && a < b)
}

/// Whether `r` lists exactly the players who have bowled, in bowling-card order.
pub open spec fn is_bowling_card(players: Seq<Player>, r: Seq<usize>) -> bool {
    &&& forall|k: int| 0 <= k < r.len() ==> #[trigger] r[k] < players.len() && players[r[k] as int].bowling_order is Some
    &&& forall|i: int| 0 <= i < players.len() && (#[trigger] players[i]).bowling_order is Some ==> r.contains(i as usize)
    &&& forall|a: int, b: int| 0 <= a < b < r.len() ==> bowls_before(players, #[trigger] r[a], #[trigger] r[b])
}

impl TeamView {
    /// The team after an extra: its team runs and the ledger.
    pub open spec fn spec_add_extra(self, extra: Extra) -> TeamView {
        TeamView {
            runs: (self.runs + extra.team_runs()) as u32,
            extras: self.extras.spec_add_extra(extra),
            ..self
        }
    }

    pub open spec fn can_add_extra(self, extra: Extra) -> bool {
        &&& self.runs + extra.team_runs() <= u32::MAX
        &&& self.extras.can_add_extra(extra)
    }
}

fn bowled_no_later(p: &Player, order: usize) -> (r: bool)
    ensures
        r == (p.bowling_order is None || p.bowling_order->0 <= order),
{
    match p.bowling_order {
        Some(o) => o <= order,
        None => true,
    }
}

impl Team {
    pub fn new() -> (r: Self)
        ensures
            r@ == (TeamView {
                players: Seq::empty(),
                team_name: Seq::empty(),
                runs: 0,
                wickets: 0,
                overs: Overs { overs: 0, balls: 0 },
                extras: Extras { wides: 0, no_balls: 0, byes: 0, leg_byes: 0, penalty_runs: 0 },
            }),
    {
        Team {
            players: Vec::new(),
            team_name: String::new(),
            runs: 0,
            wickets: 0,
            overs: Overs::new(),
            extras: Extras::new(),
        }
    }

    /// A team with an entered roster and no score yet.
    pub fn new_with_players(players: Vec<Player>) -> (r: Self)
        ensures
            r@ == (TeamView {
                players: players@,
                team_name: Seq::empty(),
                runs: 0,
                wickets: 0,
                overs: Overs { overs: 0, balls: 0 },
                extras: Extras { wides: 0, no_balls: 0, byes: 0, leg_byes: 0, penalty_runs: 0 },
            }),
    {
        Team {
            players,
            team_name: String::new(),
            runs: 0,
            wickets: 0,
            overs: Overs::new(),
            extras: Extras::new(),
        }
    }

    pub fn add_player(&mut self, player: Player)
        ensures
            final(self)@ == (TeamView { players: old(self)@.players.push(player), ..old(self)@ }),
    {
        self.players.push(player);
    }

    /// Adds an extra to the team's runs and ledger.
    pub fn add_extra(&mut self, extra: &Extra)
        requires
            old(self)@.can_add_extra(*extra),
        ensures
            final(self)@ == old(self)@.spec_add_extra(*extra),
    {
        let runs: u32 = match extra.extra_type {
            ExtraType::Wide | ExtraType::NoBall => extra.runs + 1,
            _ => extra.runs,
        };
        self.runs = self.runs + runs;
        self.extras.add_extra(extra);
    }

    /// The highest bowling order given so far, if anyone has bowled.
    pub fn highest_bowling_order(&self) -> (r: Option<usize>)
        ensures
            r == max_bowling_order(self@.players),
    {
        let mut best: Option<usize> = None;
        let mut i: usize = 0;
        while i < self.players.len()
            invariant
                i <= self.players.len(),
                best == max_bowling_order(self@.players.take(i as int)),
            decreases self.players.len() - i,
        {
            assert(self@.players.take(i + 1).drop_last() =~= self@.players.take(i as int));
            let b = self.players[i].bowling_order;
            best = match (best, b) {
                (None, b) => b,
                (Some(m), None) => Some(m),
                (Some(m), Some(b)) => Some(if b > m { b } else { m }),
            };
            i = i + 1;
        }
        assert(self@.players.take(i as int) =~= self@.players);
        best
    }

    /// The bowling order for the next player to bowl for the first time: one
    /// past the highest order given so far.
    pub fn next_bowling_order(&self) -> (r: usize)
        requires
            max_bowling_order(self@.players) is Some,
            max_bowling_order(self@.players)->0 < usize::MAX,
        ensures
            r == max_bowling_order(self@.players)->0 + 1,
    {
        self.highest_bowling_order().unwrap() + 1
    }

    /// Roster indices of the players who have not bowled, in roster order.
    pub fn not_bowled_players(&self) -> (r: Vec<usize>)
        ensures
            r@ == not_bowled_indices(self@.players, self@.players.len()),
    {
        let mut r: Vec<usize> = Vec::new();
        let mut i: usize = 0;
        while i < self.players.len()
            invariant
                i <= self.players.len(),
                r@ == not_bowled_indices(self@.players, i as nat),
            decreases self.players.len() - i,
        {
            if self.players[i].bowling_order.is_none() {
                r.push(i);
            }
            i = i + 1;
        }
        r
    }
    /// Roster indices of the players who have bowled, in bowling-card order.
    pub fn bowled_players_in_order(&self) -> (r: Vec<usize>)
        ensures
            is_bowling_card(self@.players, r@),
    {
        let players = &self.players;
        let mut r: Vec<usize> = Vec::new();
        let mut i: usize = 0;
        while i < players.len()
            invariant
                i <= players.len(),
                players@ == self@.players,
                forall|k: int| 0 <= k < r.len() ==> #[trigger] r[k] < i && players@[r[k] as int].bowling_order is Some,
                forall|j: int| 0 <= j < i && (#[trigger] players@[j]).bowling_order is Some ==> r@.contains(j as usize),
                forall|a: int, b: int| 0 <= a < b < r.len() ==> bowls_before(players@, #[trigger] r[a], #[trigger] r[b]),
            decreases players.len() - i,
        {
            if let Some(order) = players[i].bowling_order {
                let mut pos: usize = 0;
                while pos < r.len() && bowled_no_later(&players[r[pos]], order)
                    invariant
                        pos <= r.len(),
                        i < players.len(),
                        players@ == self@.players,
                        players@[i as int].bowling_order == Some(order),
                        forall|k: int| 0 <= k < r.len() ==> #[trigger] r[k] < i && players@[r[k] as int].bowling_order is Some,
                        forall|k: int| 0 <= k < pos ==> bowls_before(players@, #[trigger] r[k], i),
                    decreases r.len() - pos,
                {
                    pos = pos + 1;
                }
                let ghost old_r = r@;
                r.insert(pos, i);
                assert(r@ == old_r.insert(pos as int, i));
                assert forall|a: int, b: int| 0 <= a < b < r.len() implies bowls_before(players@, #[trigger] r[a], #[trigger] r[b]) by {
                    if b < pos {
                    } else if b == pos {
                    } else if a < pos {
                        assert(bowls_before(players@, old_r[a], i));
                        assert(!bowls_before(players@, old_r[pos as int], i));
                        if pos < b - 1 {
                            assert(bowls_before(players@, old_r[pos as int], old_r[b - 1]));
                        }
                    } else if a == pos {
                        assert(!bowls_before(players@, old_r[pos as int], i));
                        if pos < b - 1 {
                            assert(bowls_before(players@, old_r[pos as int], old_r[b - 1]));
                        }
                    } else {
                        assert(bowls_before(players@, old_r[a - 1], old_r[b - 1]));
                    }
                }
                assert forall|j: int| 0 <= j <= i && (#[trigger] players@[j]).bowling_order is Some implies r@.contains(j as usize) by {
                    if j == i {
                        assert(r@[pos as int] == i);
                    } else {
                        let k = choose|k: int| 0 <= k < old_r.len() && old_r[k] == j as usize;
                        if k < pos {
                            assert(r@[k] == j as usize);
                        } else {
                            assert(r@[k + 1] == j as usize);
                        }
                    }
                }
            }
            i = i + 1;
        }
        r
    }
}

} // verus!
