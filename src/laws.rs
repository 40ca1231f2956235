//! Properties that hold of every match and every event.

use vstd::prelude::*;
use crate::event::GameEvent;
use crate::model::{
    fresh_game, lemma_log_reads_back, lemma_replayable_prefix, log_since, replay_from, replay_log,
    replayable_from, GameView,
};
use crate::overs::Overs;
use crate::page::Page;
use crate::team::{TeamType, TeamView};
use crate::wickets::{HowOut, WicketEvent};

verus! {

/// The team of side `t`.
pub open spec fn side(s: GameView, t: TeamType) -> TeamView {
    match t {
        TeamType::A => s.team_a,
        TeamType::B => s.team_b,
    }
}

/// Replaying a log and then applying one more event gives the match that
/// replaying the longer log gives.
pub proof fn law_replay_then_apply(s: GameView, events: Seq<GameEvent>, e: GameEvent)
    ensures
        replay_from(s, events.push(e)) == replay_from(s, events).step(e).0,
        replayable_from(s, events.push(e)) == (replayable_from(s, events) && replay_from(
            s,
            events,
        ).accepts(e)),
{
    assert(events.push(e).drop_last() =~= events);
}

/// Replaying two logs one after the other is replaying them joined.
pub proof fn law_replay_concat(s: GameView, first: Seq<GameEvent>, second: Seq<GameEvent>)
    ensures
        replay_from(s, first + second) == replay_from(replay_from(s, first), second),
        replayable_from(s, first + second) == (replayable_from(s, first) && replayable_from(
            replay_from(s, first),
            second,
        )),
    decreases second.len(),
{
    if second.len() == 0 {
        assert(first + second =~= first);
    } else {
        assert((first + second).drop_last() =~= first + second.drop_last());
        law_replay_concat(s, first, second.drop_last());
    }
}

/// A wicket adds exactly one to the wickets of the side that was batting,
/// and no event takes a wicket away from either side.
pub proof fn law_wicket_monotonic(s: GameView, e: GameEvent)
    requires
        s.accepts(e),
    ensures
        forall|t: TeamType| #[trigger] side(s.step(e).0, t).wickets >= side(s, t).wickets,
        e is Wicket ==> side(s.step(e).0, s.batting_team).wickets == s.batting().wickets + 1,
        e is Wicket ==> side(s.step(e).0, s.batting_team.spec_other()).wickets == s.bowling().wickets,
        !(e is Wicket) ==> forall|t: TeamType| #[trigger] side(s.step(e).0, t).wickets == side(s, t).wickets,
{
}

/// The tenth wicket ends the innings: the log gets the wicket, the end of
/// the innings and the start of the other side's, no batter or bowler is
/// bound, and the caller is sent to pick batters.
pub proof fn law_innings_transition(s: GameView, w: WicketEvent)
    requires
        s.accepts(GameEvent::Wicket(w)),
        s.batting().wickets == 9,
    ensures
        s.step(GameEvent::Wicket(w)).0.events == s.events.push(GameEvent::Wicket(w)).push(
            GameEvent::EndInnings,
        ).push(GameEvent::StartInnings(s.batting_team.spec_other())),
        s.step(GameEvent::Wicket(w)).0.batting_team == s.batting_team.spec_other(),
        s.step(GameEvent::Wicket(w)).0.batter_a is None,
        s.step(GameEvent::Wicket(w)).0.batter_b is None,
        s.step(GameEvent::Wicket(w)).0.bowler is None,
        s.step(GameEvent::Wicket(w)).1 == Some(Page::SelectBatter),
{
}

/// A catch that names no fielder is never accepted.
pub proof fn law_caught_needs_fielder(s: GameView, w: WicketEvent)
    requires
        w.how_out == HowOut::Caught,
        w.fielder is None,
    ensures
        !s.accepts(GameEvent::Wicket(w)),
{
}

/// Whether the event is a delivery that counts toward the over: runs off
/// the bat, a wicket, a bye or a leg bye.
pub open spec fn takes_legal_ball(e: GameEvent) -> bool {
    match e {
        GameEvent::Runs(_) => true,
        GameEvent::Wicket(_) => true,
        GameEvent::Extra(x) => x.extra_type.spec_is_legal_ball(),
        _ => false,
    }
}

/// Whether applying `e` to `s` would be the tenth wicket of the innings.
pub open spec fn is_tenth_wicket(s: GameView, e: GameEvent) -> bool {
    e is Wicket && s.batting().wickets == 9
}

proof fn lemma_ball_step(t: GameView, e: GameEvent)
    requires
        t.accepts(e),
        takes_legal_ball(e),
        !is_tenth_wicket(t, e),
        t.batting().overs.balls < 6,
    ensures
        t.step(e).0.batting_team == t.batting_team,
        t.batting().overs.balls + 1 < 6 ==> {
            &&& t.step(e).0.batting().overs == (Overs {
                overs: t.batting().overs.overs,
                balls: (t.batting().overs.balls + 1) as u32,
            })
            &&& t.step(e).0.bowler == t.bowler
            &&& t.step(e).1 is None
        },
        t.batting().overs.balls + 1 == 6 ==> {
            &&& t.step(e).0.batting().overs == (Overs {
                overs: (t.batting().overs.overs + 1) as u32,
                balls: 0,
            })
            &&& t.step(e).0.bowler is None
            &&& t.step(e).1 == Some(Page::SelectBowler)
        },
{
}

proof fn lemma_over_prefix(s: GameView, balls: Seq<GameEvent>, k: int)
    requires
        balls.len() == 6,
        s.batting().overs.balls == 0,
        forall|i: int| 0 <= i < 6 ==> takes_legal_ball(#[trigger] balls[i]),
        replayable_from(s, balls),
        forall|i: int|
            0 <= i < 6 ==> !is_tenth_wicket(replay_from(s, balls.take(i)), #[trigger] balls[i]),
        0 <= k <= 5,
    ensures
        replay_from(s, balls.take(k)).batting().overs == (Overs {
            overs: s.batting().overs.overs,
            balls: k as u32,
        }),
        replay_from(s, balls.take(k)).batting_team == s.batting_team,
    decreases k,
{
    if k == 0 {
        assert(balls.take(0) =~= Seq::<GameEvent>::empty());
    } else {
        lemma_over_prefix(s, balls, k - 1);
        lemma_replayable_prefix(s, balls, k);
        assert(balls.take(k).drop_last() =~= balls.take(k - 1));
        let t = replay_from(s, balls.take(k - 1));
        assert(balls.take(k).last() == balls[k - 1]);
        lemma_ball_step(t, balls[k - 1]);
    }
}

/// Six deliveries that each count toward the over, from the start of an
/// over and short of the tenth wicket, complete it: the batting side's
/// count goes to the next over with no balls, the bowler is released, and
/// the sixth delivery sends the caller to pick the next bowler.
pub proof fn law_over_rollover(s: GameView, balls: Seq<GameEvent>)
    requires
        balls.len() == 6,
        s.batting().overs.balls == 0,
        forall|i: int| 0 <= i < 6 ==> takes_legal_ball(#[trigger] balls[i]),
        replayable_from(s, balls),
        forall|i: int|
            0 <= i < 6 ==> !is_tenth_wicket(replay_from(s, balls.take(i)), #[trigger] balls[i]),
    ensures
        replay_from(s, balls).batting_team == s.batting_team,
        replay_from(s, balls).batting().overs == (Overs {
            overs: (s.batting().overs.overs + 1) as u32,
            balls: 0,
        }),
        replay_from(s, balls).bowler is None,
        replay_from(s, balls.take(5)).step(balls[5]).1 == Some(Page::SelectBowler),
{
    lemma_over_prefix(s, balls, 5);
    assert(balls.drop_last() =~= balls.take(5));
    assert(balls.last() == balls[5]);
    lemma_ball_step(replay_from(s, balls.take(5)), balls[5]);
}

/// A list of runs off the bat, as events.
pub open spec fn runs_events(runs: Seq<u32>) -> Seq<GameEvent> {
    runs.map_values(|n: u32| GameEvent::Runs(n))
}

/// How many of the values are odd.
pub open spec fn odd_count(runs: Seq<u32>) -> nat
    decreases runs.len(),
{
    if runs.len() == 0 {
        0
    } else {
        odd_count(runs.drop_last()) + if runs.last() % 2 == 1 {
            1nat
        } else {
            0nat
        }
    }
}

/// Within an over, a run of scoring shots leaves the same two batters at
/// the crease, and they have changed ends exactly when an odd number of the
/// shots were worth an odd number of runs.
pub proof fn law_strike_parity(s: GameView, runs: Seq<u32>)
    requires
        replayable_from(s, runs_events(runs)),
        runs.len() > 0 ==> replay_from(s, runs_events(runs)).bowler is Some,
    ensures
        replay_from(s, runs_events(runs)).batter_a == s.batter_a,
        replay_from(s, runs_events(runs)).batter_b == s.batter_b,
        replay_from(s, runs_events(runs)).on_strike_batter == if odd_count(runs) % 2 == 1 {
            s.on_strike_batter.spec_other()
        } else {
            s.on_strike_batter
        },
        replay_from(s, runs_events(runs)).on_strike() == if odd_count(runs) % 2 == 1 {
            s.off_strike()
        } else {
            s.on_strike()
        },
    decreases runs.len(),
{
    let ev = runs_events(runs);
    if runs.len() == 0 {
        assert(ev.len() == 0);
    } else {
        assert(ev.drop_last() =~= runs_events(runs.drop_last()));
        assert(ev.last() == GameEvent::Runs(runs.last()));
        let prev = replay_from(s, ev.drop_last());
        assert(prev.accepts(ev.last()));
        law_strike_parity(s, runs.drop_last());
    }
}

/// Short of the tenth wicket, no event leaves either side's count of balls
/// in the current over at six or more: the sixth legal ball always rolls
/// the over.
pub proof fn law_ball_count_in_range(s: GameView, e: GameEvent)
    requires
        s.accepts(e),
        s.team_a.overs.balls < 6,
        s.team_b.overs.balls < 6,
        !is_tenth_wicket(s, e),
    ensures
        s.step(e).0.team_a.overs.balls < 6,
        s.step(e).0.team_b.overs.balls < 6,
{
}

/// The log is the match: reading back the log that a run of events wrote
/// (with the entries the engine derived passed over, not applied again)
/// gives the very match those events built, log included.
pub proof fn law_log_round_trip(events: Seq<GameEvent>)
    requires
        replayable_from(fresh_game(), events),
    ensures
        replay_log(fresh_game(), replay_from(fresh_game(), events).events) == Some(
            replay_from(fresh_game(), events),
        ),
{
    lemma_log_reads_back(fresh_game(), events);
    let t = replay_from(fresh_game(), events);
    assert(log_since(fresh_game(), t) =~= t.events);
}

} // verus!
