//! The match as a value: what every executable operation is proved against.

use vstd::prelude::*;
use crate::event::{GameEvent, GameEventHistory};
use crate::extras::{Extra, ExtraType, Extras};
use crate::game_state::ReplaceBatter;
use crate::overs::Overs;
use crate::page::Page;
use crate::player::{Player, PlayerType};
use crate::summary::Summary;
use crate::team::{max_bowling_order, TeamType, TeamView};
use crate::wickets::{HowOut, WicketDetails, WicketEvent};

verus! {

/// What a match is, as a value.
pub ghost struct GameView {
    pub team_a: TeamView,
    pub team_b: TeamView,
    pub batting_team: TeamType,
    pub events: Seq<GameEvent>,
    pub event_history: Seq<GameEventHistory>,
    pub batter_a: Option<usize>,
    pub batter_b: Option<usize>,
    pub on_strike_batter: PlayerType,
    pub bowler: Option<usize>,
    pub last_bowler: Option<usize>,
    pub last_last_bowler: Option<usize>,
}


/// Whether one more legal ball, and the rollover that may follow it, fit in
/// the counters.
pub open spec fn ball_fits(o: Overs) -> bool {
    o.balls < u32::MAX && o.overs < u32::MAX
}

/// Whether `i` names a player of the roster.
pub open spec fn in_roster(t: TeamView, i: Option<usize>) -> bool {
    i is Some && i->0 < t.players.len()
}

impl TeamView {
    pub open spec fn update_player(self, i: usize, p: Player) -> TeamView {
        TeamView { players: self.players.update(i as int, p), ..self }
    }

    pub open spec fn add_ball(self) -> TeamView {
        TeamView { overs: Overs { overs: self.overs.overs, balls: (self.overs.balls + 1) as u32 }, ..self }
    }

    /// The batting side after `n` runs off the bat by the batter at `i`.
    pub open spec fn bat_runs(self, i: usize, n: u32) -> TeamView {
        let p = self.players[i as int];
        TeamView {
            runs: (self.runs + n) as u32,
            ..self.update_player(
                i,
                Player {
                    balls_faced: (p.balls_faced + 1) as u32,
                    runs_scored: (p.runs_scored + n) as u32,
                    ..p
                },
            )
        }.add_ball()
    }

    /// The fielding side after its bowler at `j` concedes `n` runs off the bat.
    pub open spec fn bowl_runs(self, j: usize, n: u32) -> TeamView {
        let p = self.players[j as int];
        self.update_player(
            j,
            Player {
                overs_bowled: p.overs_bowled.spec_add_ball_bowler(),
                runs_conceded: (p.runs_conceded + n) as u32,
                ..p
            },
        )
    }

    /// The batting side after the batter at `i` is out.
    pub open spec fn bat_wicket(self, i: usize, w: WicketEvent) -> TeamView {
        let p = self.players[i as int];
        TeamView {
            wickets: (self.wickets + 1) as u32,
            ..self.update_player(
                i,
                Player {
                    how_out: w.how_out,
                    wicket_details: Some(WicketDetails { bowler: w.bowler, fielder: w.fielder }),
                    ..p
                },
            )
        }.add_ball()
    }

    /// The fielding side after its bowler at `j` takes a wicket.
    pub open spec fn bowl_wicket(self, j: usize) -> TeamView {
        let p = self.players[j as int];
        self.update_player(
            j,
            Player {
                overs_bowled: p.overs_bowled.spec_add_ball_bowler(),
                wickets_taken: (p.wickets_taken + 1) as u32,
                ..p
            },
        )
    }

    /// The batting side after an extra with the batter at `i` on strike: a
    /// no ball's runs go to the batter, and a no ball, bye or leg bye counts
    /// as a ball faced.
    pub open spec fn bat_extra(self, i: usize, x: Extra) -> TeamView {
        let p = self.players[i as int];
        let p2 = match x.extra_type {
            ExtraType::NoBall => Player {
                runs_scored: (p.runs_scored + x.runs) as u32,
                balls_faced: (p.balls_faced + 1) as u32,
                ..p
            },
            ExtraType::Bye | ExtraType::LegBye => Player {
                balls_faced: (p.balls_faced + 1) as u32,
                ..p
            },
            _ => p,
        };
        let t = self.update_player(i, p2).spec_add_extra(x);
        if x.extra_type.spec_is_legal_ball() {
            t.add_ball()
        } else {
            t
        }
    }

    /// The fielding side after its bowler at `j` bowls an extra.
    pub open spec fn bowl_extra(self, j: usize, x: Extra) -> TeamView {
        self.update_player(j, self.players[j as int].spec_add_extra(x))
    }

    /// The batting order that a batter coming in now is given.
    pub open spec fn next_batting_order(self) -> usize {
        if self.wickets == 0 {
            0
        } else {
            (self.wickets + 1) as usize
        }
    }

    /// The roster after the player at `i` comes in to bat.
    pub open spec fn bring_in(self, i: usize) -> TeamView {
        let p = self.players[i as int];
        self.update_player(
            i,
            Player { batting_order: Some(self.next_batting_order()), how_out: HowOut::NotOut, ..p },
        )
    }
}

impl GameView {
    pub open spec fn batting(self) -> TeamView {
        match self.batting_team {
            TeamType::A => self.team_a,
            TeamType::B => self.team_b,
        }
    }

    pub open spec fn bowling(self) -> TeamView {
        match self.batting_team {
            TeamType::A => self.team_b,
            TeamType::B => self.team_a,
        }
    }

    /// The match with the batting side and the fielding side replaced.
    pub open spec fn with_teams(self, bat: TeamView, bowl: TeamView) -> GameView {
        match self.batting_team {
            TeamType::A => GameView { team_a: bat, team_b: bowl, ..self },
            TeamType::B => GameView { team_a: bowl, team_b: bat, ..self },
        }
    }

    /// Roster index of the batter on strike, if that slot is filled.
    pub open spec fn on_strike(self) -> Option<usize> {
        match self.on_strike_batter {
            PlayerType::A => self.batter_a,
            PlayerType::B => self.batter_b,
        }
    }

    /// Roster index of the batter off strike, if that slot is filled.
    pub open spec fn off_strike(self) -> Option<usize> {
        match self.on_strike_batter {
            PlayerType::A => self.batter_b,
            PlayerType::B => self.batter_a,
        }
    }

    /// Which batting slot must be filled next, if any: the on-strike one first.
    pub open spec fn batter_to_replace(self) -> Option<ReplaceBatter> {
        if self.on_strike() is None {
            Some(ReplaceBatter::OnStrike)
        } else if self.off_strike() is None {
            Some(ReplaceBatter::OffStrike)
        } else {
            None
        }
    }

    pub open spec fn set_on_strike(self, b: Option<usize>) -> GameView {
        match self.on_strike_batter {
            PlayerType::A => GameView { batter_a: b, ..self },
            PlayerType::B => GameView { batter_b: b, ..self },
        }
    }

    pub open spec fn set_off_strike(self, b: Option<usize>) -> GameView {
        match self.on_strike_batter {
            PlayerType::A => GameView { batter_b: b, ..self },
            PlayerType::B => GameView { batter_a: b, ..self },
        }
    }

    pub open spec fn change_strike(self) -> GameView {
        GameView { on_strike_batter: self.on_strike_batter.spec_other(), ..self }
    }

    /// The match with `e` appended to the log, and its display record.
    pub open spec fn log(self, e: GameEvent) -> GameView {
        GameView {
            events: self.events.push(e),
            event_history: self.event_history.push(
                GameEventHistory {
                    event_index: self.events.len() as usize,
                    bowler: self.bowler,
                    batter: self.on_strike(),
                },
            ),
            ..self
        }
    }

    /// Whether the batting side's over is complete.
    pub open spec fn is_end_over(self) -> bool {
        self.batting().overs.balls >= 6
    }

    /// The end of an over: the bowler is remembered and released, the
    /// batting side's counter rolls over, the batters change ends, and a
    /// snapshot of the score is logged.
    pub open spec fn end_over(self) -> GameView {
        let s1 = GameView {
            last_last_bowler: self.last_bowler,
            last_bowler: Some(self.bowling().players[self.bowler->0 as int].order),
            bowler: None,
            ..self
        };
        let t = s1.batting();
        let t2 = TeamView { overs: Overs { overs: (t.overs.overs + 1) as u32, balls: 0 }, ..t };
        let s2 = s1.with_teams(t2, s1.bowling()).change_strike();
        s2.log(GameEvent::EndOver(self.over_summary()))
    }

    /// The snapshot logged at the end of an over: the batting side's score,
    /// with its count rolled to the next over.
    pub open spec fn over_summary(self) -> Summary {
        let t = self.batting();
        Summary {
            runs: t.runs,
            wickets: t.wickets,
            overs: Overs { overs: (t.overs.overs + 1) as u32, balls: 0 },
        }
    }

    /// The entries the engine logs of its own after a delivery ends the
    /// over (`EndOver`), or the innings (`EndInnings`, then `StartInnings`).
    pub open spec fn derived_entries(self, e: GameEvent) -> Seq<GameEvent> {
        let s = self.log(e);
        let over_end = |t: GameView|
            if t.is_end_over() {
                seq![GameEvent::EndOver(t.over_summary())]
            } else {
                Seq::<GameEvent>::empty()
            };
        match e {
            GameEvent::Runs(n) => over_end(s.runs_effect(n)),
            GameEvent::Extra(x) => over_end(s.extra_effect(x)),
            GameEvent::Wicket(w) => {
                let t = s.face_dismissal(w).wicket_effect(w);
                if t.batting().wickets == 10 {
                    seq![GameEvent::EndInnings, GameEvent::StartInnings(t.batting_team.spec_other())]
                } else {
                    over_end(t)
                }
            },
            _ => Seq::empty(),
        }
    }

    /// The end of an innings: the other side bats, and no batter or bowler
    /// is bound any more.
    pub open spec fn end_innings(self) -> GameView {
        GameView {
            batting_team: self.batting_team.spec_other(),
            batter_a: None,
            batter_b: None,
            on_strike_batter: PlayerType::A,
            bowler: None,
            last_bowler: None,
            last_last_bowler: None,
            ..self
        }
    }

    /// Rolls the over if it is complete, and says so with a hint.
    pub open spec fn close_over(self) -> (GameView, Option<Page>) {
        if self.is_end_over() {
            (self.end_over(), Some(Page::SelectBowler))
        } else {
            (self, None)
        }
    }

    pub open spec fn runs_effect(self, n: u32) -> GameView {
        let i = self.on_strike()->0;
        let j = self.bowler->0;
        let s = self.with_teams(self.batting().bat_runs(i, n), self.bowling().bowl_runs(j, n));
        if n % 2 == 1 {
            s.change_strike()
        } else {
            s
        }
    }

    /// Whether the batter named out is the one off strike, so that the
    /// batters change ends before the wicket falls: the survivor then
    /// stands off strike and the replacement comes in on strike.
    pub open spec fn dismissal_changes_ends(self, w: WicketEvent) -> bool {
        w.batter is Some && w.batter != self.on_strike()
    }

    /// The match with the batter named out brought on strike.
    pub open spec fn face_dismissal(self, w: WicketEvent) -> GameView {
        if self.dismissal_changes_ends(w) {
            self.change_strike()
        } else {
            self
        }
    }

    /// Whether a wicket of the batter on strike fits: batter and bowler are
    /// bound and no count overflows.
    pub open spec fn wicket_fits(self) -> bool {
        let bat = self.batting();
        let bowl = self.bowling();
        let bowler = bowl.players[self.bowler->0 as int];
        &&& in_roster(bat, self.on_strike())
        &&& in_roster(bowl, self.bowler)
        &&& bowler.wickets_taken < u32::MAX
        &&& ball_fits(bowler.overs_bowled)
        &&& bat.wickets < u32::MAX
        &&& ball_fits(bat.overs)
    }

    pub open spec fn wicket_effect(self, w: WicketEvent) -> GameView {
        let i = self.on_strike()->0;
        let j = self.bowler->0;
        self.with_teams(self.batting().bat_wicket(i, w), self.bowling().bowl_wicket(j)).set_on_strike(
            None,
        )
    }

    pub open spec fn extra_effect(self, x: Extra) -> GameView {
        let i = self.on_strike()->0;
        let j = self.bowler->0;
        let s = self.with_teams(self.batting().bat_extra(i, x), self.bowling().bowl_extra(j, x));
        if x.runs % 2 == 1 {
            s.change_strike()
        } else {
            s
        }
    }

    /// The bowling order that the player at `i` of the fielding side gets
    /// when picked to bowl.
    pub open spec fn bowling_order_for(self, i: usize) -> usize {
        match self.last_bowler {
            None => 0,
            Some(_) => match self.bowling().players[i as int].bowling_order {
                None => (max_bowling_order(self.bowling().players)->0 + 1) as usize,
                Some(b) => b,
            },
        }
    }

    /// Applying one event: the event is logged first, then its effects follow.
    /// The second part is the hint for the caller.
    pub open spec fn step(self, e: GameEvent) -> (GameView, Option<Page>) {
        let s = self.log(e);
        match e {
            GameEvent::Runs(n) => s.runs_effect(n).close_over(),
            GameEvent::Wicket(w) => {
                let s1 = s.face_dismissal(w).wicket_effect(w);
                if s1.batting().wickets == 10 {
                    let s2 = s1.log(GameEvent::EndInnings).end_innings();
                    let s3 = s2.log(GameEvent::StartInnings(s2.batting_team));
                    (s3, Some(Page::SelectBatter))
                } else {
                    s1.close_over()
                }
            },
            GameEvent::Extra(x) => s.extra_effect(x).close_over(),
            GameEvent::SelectOnStrike(i) => (
                s.with_teams(s.batting().bring_in(i), s.bowling()).set_on_strike(Some(i)),
                None,
            ),
            GameEvent::SelectOffStrike(i) => (
                s.with_teams(s.batting().bring_in(i), s.bowling()).set_off_strike(Some(i)),
                None,
            ),
            GameEvent::SelectBowler(i) => {
                let p = s.bowling().players[i as int];
                let t = s.bowling().update_player(
                    i,
                    Player { bowling_order: Some(s.bowling_order_for(i)), ..p },
                );
                (GameView { bowler: Some(i), ..s.with_teams(s.batting(), t) }, None)
            },
            GameEvent::SubmitTeam(name) => {
                let t = TeamView { team_name: name@, ..s.batting() };
                (GameView { batting_team: s.batting_team.spec_other(), ..s.with_teams(t, s.bowling()) }, None)
            },
            GameEvent::AddPlayer(p) => (
                s.with_teams(TeamView { players: s.batting().players.push(p), ..s.batting() }, s.bowling()),
                None,
            ),
            GameEvent::StartInnings(t) => (GameView { batting_team: t, ..s }, None),
            GameEvent::EndInnings => (s.end_innings(), None),
            GameEvent::StartOver => (s, None),
            GameEvent::EndOver(_) => (s, None),
        }
    }

    /// Whether `e` may be applied now: the batter and bowler that it needs
    /// are bound, the players that it names are on the roster, a catch names
    /// its fielder, and no count would overflow.
    pub open spec fn accepts(self, e: GameEvent) -> bool {
        let bat = self.batting();
        let bowl = self.bowling();
        let i = self.on_strike()->0;
        let j = self.bowler->0;
        let batter = bat.players[i as int];
        let bowler = bowl.players[j as int];
        match e {
            GameEvent::Runs(n) => {
                &&& in_roster(bat, self.on_strike())
                &&& in_roster(bowl, self.bowler)
                &&& batter.balls_faced < u32::MAX
                &&& batter.runs_scored + n <= u32::MAX
                &&& bowler.runs_conceded + n <= u32::MAX
                &&& ball_fits(bowler.overs_bowled)
                &&& bat.runs + n <= u32::MAX
                &&& ball_fits(bat.overs)
            },
            GameEvent::Wicket(w) => {
                &&& w.is_well_formed()
                &&& (w.fielder is Some ==> w.fielder->0 < bowl.players.len())
                &&& (w.batter is Some ==> w.batter == self.on_strike() || w.batter == self.off_strike())
                &&& self.face_dismissal(w).wicket_fits()
            },
            GameEvent::Extra(x) => {
                &&& in_roster(bat, self.on_strike())
                &&& in_roster(bowl, self.bowler)
                &&& batter.balls_faced < u32::MAX
                &&& batter.runs_scored + x.runs <= u32::MAX
                &&& bowler.extras.can_add_extra(x)
                &&& ball_fits(bowler.overs_bowled)
                &&& bat.can_add_extra(x)
                &&& ball_fits(bat.overs)
            },
            GameEvent::SelectOnStrike(k) | GameEvent::SelectOffStrike(k) => {
                &&& k < bat.players.len()
                &&& bat.wickets < u32::MAX
            },
            GameEvent::SelectBowler(k) => {
                &&& k < bowl.players.len()
                &&& (self.last_bowler is Some && bowl.players[k as int].bowling_order is None) ==> {
                    &&& max_bowling_order(bowl.players) is Some
                    &&& max_bowling_order(bowl.players)->0 < usize::MAX
                }
            },
            _ => true,
        }
    }
}

/// The match after each event of `events` in turn, from `s`.
pub open spec fn replay_from(s: GameView, events: Seq<GameEvent>) -> GameView
    decreases events.len(),
{
    if events.len() == 0 {
        s
    } else {
        replay_from(s, events.drop_last()).step(events.last()).0
    }
}

/// Whether every event of `events` is accepted in turn, from `s`.
pub open spec fn replayable_from(s: GameView, events: Seq<GameEvent>) -> bool
    decreases events.len(),
{
    events.len() == 0 || (replayable_from(s, events.drop_last()) && replay_from(
        s,
        events.drop_last(),
    ).accepts(events.last()))
}

/// The match before any event: two empty teams, side A batting.
pub open spec fn fresh_game() -> GameView {
    let t = TeamView {
        players: Seq::empty(),
        team_name: Seq::empty(),
        runs: 0,
        wickets: 0,
        overs: Overs { overs: 0, balls: 0 },
        extras: Extras { wides: 0, no_balls: 0, byes: 0, leg_byes: 0, penalty_runs: 0 },
    };
    GameView {
        team_a: t,
        team_b: t,
        batting_team: TeamType::A,
        events: Seq::empty(),
        event_history: Seq::empty(),
        batter_a: None,
        batter_b: None,
        on_strike_batter: PlayerType::A,
        bowler: None,
        last_bowler: None,
        last_last_bowler: None,
    }
}

/// Whether an entry is one that the engine can log of its own.
pub open spec fn is_marker(e: GameEvent) -> bool {
    e is EndOver || e is EndInnings || e is StartInnings
}

/// Applying an event logs it, then exactly the entries it derives.
pub proof fn lemma_step_log(s: GameView, e: GameEvent)
    ensures
        s.step(e).0.events == s.events.push(e) + s.derived_entries(e),
        forall|i: int| 0 <= i < s.derived_entries(e).len() ==> is_marker(#[trigger] s.derived_entries(e)[i]),
{
    let l = s.log(e);
    match e {
        GameEvent::Runs(n) => {
            assert(l.runs_effect(n).close_over().0.events =~= s.events.push(e) + s.derived_entries(e));
        },
        GameEvent::Extra(x) => {
            assert(l.extra_effect(x).close_over().0.events =~= s.events.push(e) + s.derived_entries(e));
        },
        GameEvent::Wicket(w) => {
            assert(s.step(e).0.events =~= s.events.push(e) + s.derived_entries(e));
        },
        _ => {
            assert(s.step(e).0.events =~= s.events.push(e) + s.derived_entries(e));
        },
    }
}

/// Reading a saved log from `s`: each entry is applied in turn, and the
/// entries that applying it derives must follow it in the log, where they
/// are passed over rather than applied again. `None` when an entry is not
/// accepted, or a derived entry is missing or wrong.
pub open spec fn replay_log(s: GameView, log: Seq<GameEvent>) -> Option<GameView>
    decreases log.len(),
{
    if log.len() == 0 {
        Some(s)
    } else if !s.accepts(log[0]) {
        None
    } else {
        let d = s.derived_entries(log[0]);
        if log.len() < 1 + d.len() || log.subrange(1, 1 + d.len() as int) != d {
            None
        } else {
            replay_log(s.step(log[0]).0, log.subrange(1 + d.len() as int, log.len() as int))
        }
    }
}

/// Reading two logs one after the other is reading them joined.
pub proof fn lemma_replay_log_concat(s: GameView, a: Seq<GameEvent>, b: Seq<GameEvent>)
    requires
        replay_log(s, a) is Some,
    ensures
        replay_log(s, a + b) == replay_log(replay_log(s, a)->0, b),
    decreases a.len(),
{
    if a.len() == 0 {
        assert(a + b =~= b);
    } else {
        let d = s.derived_entries(a[0]);
        let k = d.len() as int;
        assert((a + b)[0] == a[0]);
        assert((a + b).subrange(1, 1 + k) =~= a.subrange(1, 1 + k));
        assert((a + b).subrange(1 + k, (a + b).len() as int) =~= a.subrange(1 + k, a.len() as int) + b);
        lemma_replay_log_concat(s.step(a[0]).0, a.subrange(1 + k, a.len() as int), b);
    }
}

/// The part of `t`'s log written after `s`'s.
pub open spec fn log_since(s: GameView, t: GameView) -> Seq<GameEvent> {
    t.events.subrange(s.events.len() as int, t.events.len() as int)
}

/// Applying events only ever adds to the log, and reading back what they
/// added gives the state they reached.
pub proof fn lemma_log_reads_back(s: GameView, events: Seq<GameEvent>)
    requires
        replayable_from(s, events),
    ensures
        replay_from(s, events).events.len() >= s.events.len(),
        replay_from(s, events).events.subrange(0, s.events.len() as int) == s.events,
        replay_log(s, log_since(s, replay_from(s, events))) == Some(replay_from(s, events)),
    decreases events.len(),
{
    if events.len() == 0 {
        assert(log_since(s, s).len() == 0);
        assert(s.events.subrange(0, s.events.len() as int) =~= s.events);
    } else {
        let prev = events.drop_last();
        let e = events.last();
        lemma_log_reads_back(s, prev);
        let s1 = replay_from(s, prev);
        let s2 = s1.step(e).0;
        lemma_step_log(s1, e);
        let d = s1.derived_entries(e);
        let tail = seq![e] + d;
        assert(s2.events =~= s1.events + tail);
        assert(log_since(s, s2) =~= log_since(s, s1) + tail);
        assert(s2.events.subrange(0, s.events.len() as int) =~= s1.events.subrange(0, s.events.len() as int));
        lemma_replay_log_concat(s, log_since(s, s1), tail);
        assert(tail[0] == e);
        assert(tail.subrange(1, 1 + d.len() as int) =~= d);
        assert(tail.subrange(1 + d.len() as int, tail.len() as int) =~= Seq::<GameEvent>::empty());
        assert(replay_log(s2, Seq::<GameEvent>::empty()) == Some(s2));
    }
}

/// A log that replays in full replays in every prefix.
pub proof fn lemma_replayable_prefix(s: GameView, events: Seq<GameEvent>, n: int)
    requires
        replayable_from(s, events),
        0 <= n <= events.len(),
    ensures
        replayable_from(s, events.take(n)),
    decreases events.len(),
{
    if n < events.len() {
        assert(events.drop_last().take(n) =~= events.take(n));
        lemma_replayable_prefix(s, events.drop_last(), n);
    } else {
        assert(events.take(n) =~= events);
    }
}

} // verus!
