use vstd::prelude::*;
use crate::event::{GameEvent, GameEventHistory};
use crate::extras::{Extra, ExtraType, Extras};
use crate::model::{
    ball_fits, fresh_game, in_roster, is_marker, lemma_replayable_prefix, lemma_step_log, replay_from,
    replay_log, replayable_from, GameView,
};
use crate::overs::Overs;
use crate::page::Page;
use crate::player::{Player, PlayerType};
use crate::summary::Summary;
use crate::team::{Team, TeamType, TeamView};
use crate::wickets::{HowOut, WicketDetails, WicketEvent};

verus! {

/// The match: both rosters, the side batting, the two batters at the crease
/// and the bowler (roster indices), and the log of every event applied.
pub struct GameState {
    pub team_a: Team,
    pub team_b: Team,
    pub batting_team: TeamType,
    pub events: Vec<GameEvent>,
    pub event_history: Vec<GameEventHistory>,
    pub batter_a: Option<usize>,
    pub batter_b: Option<usize>,
    pub on_strike_batter: PlayerType,
    pub bowler: Option<usize>,
    pub last_bowler: Option<usize>,
    pub last_last_bowler: Option<usize>,
}

/// Which batting slot is still empty.
#[derive(Clone, Copy, Debug, PartialEq, Eq, Structural)]
pub enum ReplaceBatter {
    OnStrike,
    OffStrike,
}

impl View for GameState {
    type V = GameView;

    open spec fn view(&self) -> GameView {
        GameView {
            team_a: self.team_a@,
            team_b: self.team_b@,
            batting_team: self.batting_team,
            events: self.events@,
            event_history: self.event_history@,
            batter_a: self.batter_a,
            batter_b: self.batter_b,
            on_strike_batter: self.on_strike_batter,
            bowler: self.bowler,
            last_bowler: self.last_bowler,
            last_last_bowler: self.last_last_bowler,
        }
    }
}

fn team_add_ball(t: &mut Team)
    requires
        old(t).overs.balls < u32::MAX,
    ensures
        final(t)@ == old(t)@.add_ball(),
{
    t.overs.add_ball();
}

fn team_bat_runs(t: &mut Team, i: usize, n: u32)
    requires
        i < old(t)@.players.len(),
        old(t)@.players[i as int].balls_faced < u32::MAX,
        old(t)@.players[i as int].runs_scored + n <= u32::MAX,
        old(t).runs + n <= u32::MAX,
        old(t).overs.balls < u32::MAX,
    ensures
        final(t)@ == old(t)@.bat_runs(i, n),
{
    let p = &mut t.players[i];
    p.balls_faced = p.balls_faced + 1;
    p.runs_scored = p.runs_scored + n;
    t.runs = t.runs + n;
    team_add_ball(t);
}

fn team_bowl_runs(t: &mut Team, j: usize, n: u32)
    requires
        j < old(t)@.players.len(),
        old(t)@.players[j as int].runs_conceded + n <= u32::MAX,
        ball_fits(old(t)@.players[j as int].overs_bowled),
    ensures
        final(t)@ == old(t)@.bowl_runs(j, n),
{
    let p = &mut t.players[j];
    p.overs_bowled.add_ball_bowler();
    p.runs_conceded = p.runs_conceded + n;
}

fn team_bat_wicket(t: &mut Team, i: usize, w: &WicketEvent)
    requires
        i < old(t)@.players.len(),
        old(t).wickets < u32::MAX,
        old(t).overs.balls < u32::MAX,
    ensures
        final(t)@ == old(t)@.bat_wicket(i, *w),
{
    let p = &mut t.players[i];
    p.how_out = w.how_out;
    p.wicket_details = Some(WicketDetails::new(w.bowler, w.fielder));
    t.wickets = t.wickets + 1;
    team_add_ball(t);
}

fn team_bowl_wicket(t: &mut Team, j: usize)
    requires
        j < old(t)@.players.len(),
        old(t)@.players[j as int].wickets_taken < u32::MAX,
        ball_fits(old(t)@.players[j as int].overs_bowled),
    ensures
        final(t)@ == old(t)@.bowl_wicket(j),
{
    let p = &mut t.players[j];
    p.overs_bowled.add_ball_bowler();
    p.wickets_taken = p.wickets_taken + 1;
}

fn team_bat_extra(t: &mut Team, i: usize, x: &Extra)
    requires
        i < old(t)@.players.len(),
        old(t)@.players[i as int].balls_faced < u32::MAX,
        old(t)@.players[i as int].runs_scored + x.runs <= u32::MAX,
        old(t)@.can_add_extra(*x),
        old(t).overs.balls < u32::MAX,
    ensures
        final(t)@ == old(t)@.bat_extra(i, *x),
{
    let p = &mut t.players[i];
    match x.extra_type {
        ExtraType::NoBall => {
            p.runs_scored = p.runs_scored + x.runs;
            p.balls_faced = p.balls_faced + 1;
        },
        ExtraType::Bye | ExtraType::LegBye => {
            p.balls_faced = p.balls_faced + 1;
        },
        _ => {},
    }
    t.add_extra(x);
    if x.extra_type.is_legal_ball() {
        team_add_ball(t);
    }
}

fn team_bowl_extra(t: &mut Team, j: usize, x: &Extra)
    requires
        j < old(t)@.players.len(),
        old(t)@.players[j as int].extras.can_add_extra(*x),
        ball_fits(old(t)@.players[j as int].overs_bowled),
    ensures
        final(t)@ == old(t)@.bowl_extra(j, *x),
{
    t.players[j].add_extra(x);
}

fn team_bring_in(t: &mut Team, i: usize)
    requires
        i < old(t)@.players.len(),
        old(t).wickets < u32::MAX,
    ensures
        final(t)@ == old(t)@.bring_in(i),
{
    let order: usize = if t.wickets == 0 {
        0
    } else {
        (t.wickets + 1) as usize
    };
    let p = &mut t.players[i];
    p.batting_order = Some(order);
    p.how_out = HowOut::NotOut;
}

impl GameState {
    pub fn new() -> (r: Self)
        ensures
            r@ == fresh_game(),
    {
        GameState {
            team_a: Team::new(),
            team_b: Team::new(),
            batting_team: TeamType::A,
            events: Vec::new(),
            event_history: Vec::new(),
            batter_a: None,
            batter_b: None,
            on_strike_batter: PlayerType::A,
            bowler: None,
            last_bowler: None,
            last_last_bowler: None,
        }
    }

    pub fn batting_team(&self) -> (r: &Team)
        ensures
            r@ == self@.batting(),
    {
        match self.batting_team {
            TeamType::A => &self.team_a,
            TeamType::B => &self.team_b,
        }
    }

    pub fn batting_team_mut(&mut self) -> (r: &mut Team)
        ensures
            r@ == old(self)@.batting(),
            final(self)@ == old(self)@.with_teams(final(r)@, old(self)@.bowling()),
    {
        match self.batting_team {
            TeamType::A => &mut self.team_a,
            TeamType::B => &mut self.team_b,
        }
    }

    pub fn bowling_team(&self) -> (r: &Team)
        ensures
            r@ == self@.bowling(),
    {
        match self.batting_team {
            TeamType::A => &self.team_b,
            TeamType::B => &self.team_a,
        }
    }

    /// Appends `event` to the log, with who bowled to whom at that moment.
    fn add_event(&mut self, event: GameEvent)
        ensures
            final(self)@ == old(self)@.log(event),
    {
        let event_index = self.events.len();
        let batter = self.on_strike_batter();
        let bowler = self.bowler;
        self.events.push(event);
        self.event_history.push(GameEventHistory::new(event_index, bowler, batter));
    }

    /// Adds a player to the roster of the side now entered (the batting side).
    pub fn add_player(&mut self, player: Player)
        ensures
            final(self)@ == old(self)@.with_teams(
                TeamView { players: old(self)@.batting().players.push(player), ..old(self)@.batting() },
                old(self)@.bowling(),
            ),
    {
        let team = self.batting_team_mut();
        team.add_player(player);
    }

    /// The number of players on the batting side's roster.
    pub fn team_length(&self) -> (r: usize)
        ensures
            r == self@.batting().players.len(),
    {
        self.batting_team().players.len()
    }

    /// The other side bats.
    pub fn change_team(&mut self)
        ensures
            final(self)@ == (GameView { batting_team: old(self)@.batting_team.spec_other(), ..old(self)@ }),
    {
        self.batting_team = self.batting_team.other();
    }

    /// The batters change ends.
    fn change_strike(&mut self)
        ensures
            final(self)@ == old(self)@.change_strike(),
    {
        self.on_strike_batter = self.on_strike_batter.other();
    }

    /// Which batting slot must be filled next, if any: the on-strike one first.
    pub fn batter_to_replace(&self) -> (r: Option<ReplaceBatter>)
        ensures
            r == self@.batter_to_replace(),
    {
        let (on, off) = match self.on_strike_batter {
            PlayerType::A => (self.batter_a, self.batter_b),
            PlayerType::B => (self.batter_b, self.batter_a),
        };
        if on.is_none() {
            Some(ReplaceBatter::OnStrike)
        } else if off.is_none() {
            Some(ReplaceBatter::OffStrike)
        } else {
            None
        }
    }

    /// Roster index of the batter on strike, if that slot is filled.
    pub fn on_strike_batter(&self) -> (r: Option<usize>)
        ensures
            r == self@.on_strike(),
    {
        match self.on_strike_batter {
            PlayerType::A => self.batter_a,
            PlayerType::B => self.batter_b,
        }
    }

    /// Roster index of the batter off strike, if that slot is filled.
    pub fn off_strike_batter(&self) -> (r: Option<usize>)
        ensures
            r == self@.off_strike(),
    {
        match self.on_strike_batter {
            PlayerType::A => self.batter_b,
            PlayerType::B => self.batter_a,
        }
    }

    pub fn set_on_strike_batter(&mut self, batter: Option<usize>)
        ensures
            final(self)@ == old(self)@.set_on_strike(batter),
    {
        match self.on_strike_batter {
            PlayerType::A => self.batter_a = batter,
            PlayerType::B => self.batter_b = batter,
        }
    }

    fn set_off_strike_batter(&mut self, batter: Option<usize>)
        ensures
            final(self)@ == old(self)@.set_off_strike(batter),
    {
        match self.on_strike_batter {
            PlayerType::A => self.batter_b = batter,
            PlayerType::B => self.batter_a = batter,
        }
    }

    fn is_end_over(&self) -> (r: bool)
        ensures
            r == self@.is_end_over(),
    {
        self.batting_team().overs.balls >= 6
    }

    fn end_over(&mut self)
        requires
            in_roster(old(self)@.bowling(), old(self).bowler),
            old(self)@.batting().overs.overs < u32::MAX,
        ensures
            final(self)@ == old(self)@.end_over(),
    {
        self.last_last_bowler = self.last_bowler;
        let j = self.bowler.unwrap();
        self.last_bowler = Some(self.bowling_team().players[j].order);
        self.bowler = None;
        let team = self.batting_team_mut();
        team.overs.end_over();
        let summary = Summary::new(team.runs, team.wickets, team.overs);
        self.change_strike();
        self.add_event(GameEvent::EndOver(summary));
    }

    fn close_over(&mut self) -> (r: Option<Page>)
        requires
            in_roster(old(self)@.bowling(), old(self).bowler),
            old(self)@.batting().overs.overs < u32::MAX,
        ensures
            (final(self)@, r) == old(self)@.close_over(),
    {
        if self.is_end_over() {
            self.end_over();
            Some(Page::SelectBowler)
        } else {
            None
        }
    }
}

impl GameState {
    fn add_runs(&mut self, runs: u32)
        requires
            old(self)@.accepts(GameEvent::Runs(runs)),
        ensures
            final(self)@ == old(self)@.runs_effect(runs),
    {
        let i = self.on_strike_batter().unwrap();
        let j = self.bowler.unwrap();
        match self.batting_team {
            TeamType::A => {
                team_bat_runs(&mut self.team_a, i, runs);
                team_bowl_runs(&mut self.team_b, j, runs);
            },
            TeamType::B => {
                team_bat_runs(&mut self.team_b, i, runs);
                team_bowl_runs(&mut self.team_a, j, runs);
            },
        }
        if runs % 2 == 1 {
            self.change_strike();
        }
    }

    fn add_wicket(&mut self, wicket_event: &WicketEvent)
        requires
            old(self)@.wicket_fits(),
        ensures
            final(self)@ == old(self)@.wicket_effect(*wicket_event),
    {
        let i = self.on_strike_batter().unwrap();
        let j = self.bowler.unwrap();
        match self.batting_team {
            TeamType::A => {
                team_bat_wicket(&mut self.team_a, i, wicket_event);
                team_bowl_wicket(&mut self.team_b, j);
            },
            TeamType::B => {
                team_bat_wicket(&mut self.team_b, i, wicket_event);
                team_bowl_wicket(&mut self.team_a, j);
            },
        }
        self.set_on_strike_batter(None);
    }

    fn add_extra(&mut self, extra: &Extra)
        requires
            old(self)@.accepts(GameEvent::Extra(*extra)),
        ensures
            final(self)@ == old(self)@.extra_effect(*extra),
    {
        let i = self.on_strike_batter().unwrap();
        let j = self.bowler.unwrap();
        match self.batting_team {
            TeamType::A => {
                team_bat_extra(&mut self.team_a, i, extra);
                team_bowl_extra(&mut self.team_b, j, extra);
            },
            TeamType::B => {
                team_bat_extra(&mut self.team_b, i, extra);
                team_bowl_extra(&mut self.team_a, j, extra);
            },
        }
        if extra.runs % 2 == 1 {
            self.change_strike();
        }
    }

    fn select_bowler(&mut self, player: usize)
        requires
            old(self)@.accepts(GameEvent::SelectBowler(player)),
        ensures
            final(self)@ == (GameView {
                bowler: Some(player),
                ..old(self)@.with_teams(
                    old(self)@.batting(),
                    old(self)@.bowling().update_player(
                        player,
                        Player {
                            bowling_order: Some(old(self)@.bowling_order_for(player)),
                            ..old(self)@.bowling().players[player as int]
                        },
                    ),
                )
            }),
    {
        let order: usize = match self.last_bowler {
            Some(_) => match self.bowling_team().players[player].bowling_order {
                None => self.bowling_team().next_bowling_order(),
                Some(b) => b,
            },
            None => 0,
        };
        match self.batting_team {
            TeamType::A => self.team_b.players[player].bowling_order = Some(order),
            TeamType::B => self.team_a.players[player].bowling_order = Some(order),
        }
        self.bowler = Some(player);
    }

    /// Applies one event: logs it, then carries out its effects. The result
    /// is the choice that the caller must make before play goes on, if any.
    pub fn update(&mut self, event: GameEvent) -> (r: Option<Page>)
        requires
            old(self)@.accepts(event),
        ensures
            (final(self)@, r) == old(self)@.step(event),
    {
        self.add_event(event.duplicate());
        match event {
            GameEvent::Runs(runs) => {
                self.add_runs(runs);
                self.close_over()
            },
            GameEvent::Wicket(wicket_event) => {
                if wicket_event.batter.is_some() && wicket_event.batter != self.on_strike_batter() {
                    self.change_strike();
                }
                self.add_wicket(&wicket_event);
                if self.batting_team().wickets == 10 {
                    self.add_event(GameEvent::EndInnings);
                    self.end_innings();
                    let side = self.batting_team;
                    self.add_event(GameEvent::StartInnings(side));
                    Some(Page::SelectBatter)
                } else {
                    self.close_over()
                }
            },
            GameEvent::Extra(extra) => {
                self.add_extra(&extra);
                self.close_over()
            },
            GameEvent::SelectOnStrike(player) => {
                team_bring_in(self.batting_team_mut(), player);
                self.set_on_strike_batter(Some(player));
                None
            },
            GameEvent::SelectOffStrike(player) => {
                team_bring_in(self.batting_team_mut(), player);
                self.set_off_strike_batter(Some(player));
                None
            },
            GameEvent::SelectBowler(player) => {
                self.select_bowler(player);
                None
            },
            GameEvent::SubmitTeam(team_name) => {
                self.batting_team_mut().team_name = team_name;
                self.change_team();
                None
            },
            GameEvent::AddPlayer(player) => {
                self.add_player(player);
                None
            },
            GameEvent::StartInnings(team_type) => {
                self.batting_team = team_type;
                None
            },
            GameEvent::EndInnings => {
                self.end_innings();
                None
            },
            GameEvent::StartOver | GameEvent::EndOver(_) => None,
        }
    }

    fn end_innings(&mut self)
        ensures
            final(self)@ == old(self)@.end_innings(),
    {
        self.batting_team = self.batting_team.other();
        self.batter_a = None;
        self.batter_b = None;
        self.on_strike_batter = PlayerType::A;
        self.bowler = None;
        self.last_bowler = None;
        self.last_last_bowler = None;
    }
}

fn ball_fits_exec(o: &Overs) -> (r: bool)
    ensures
        r == ball_fits(*o),
{
    o.balls < u32::MAX && o.overs < u32::MAX
}

fn in_roster_exec(t: &Team, i: Option<usize>) -> (r: bool)
    ensures
        r == in_roster(t@, i),
{
    match i {
        Some(k) => k < t.players.len(),
        None => false,
    }
}

/// Whether `a + b` fits in a `u32`.
fn sum_fits(a: u32, b: u32) -> (r: bool)
    ensures
        r == (a + b <= u32::MAX),
{
    a <= u32::MAX - b
}

fn extras_fit(e: &Extras, x: &Extra) -> (r: bool)
    ensures
        r == e.can_add_extra(*x),
{
    match x.extra_type {
        ExtraType::Wide => x.runs < u32::MAX && sum_fits(e.wides, x.runs + 1),
        ExtraType::NoBall => e.no_balls < u32::MAX,
        ExtraType::Bye => sum_fits(e.byes, x.runs),
        ExtraType::LegBye => sum_fits(e.leg_byes, x.runs),
        ExtraType::PenaltyRuns => true,
    }
}

impl GameState {
    /// Whether `event` may be applied now (see `GameView::accepts`).
    pub fn accepts(&self, event: &GameEvent) -> (r: bool)
        ensures
            r == self@.accepts(*event),
    {
        let bat = self.batting_team();
        let bowl = self.bowling_team();
        match event {
            GameEvent::Wicket(w) => {
                let named = match w.how_out {
                    HowOut::Caught => w.fielder.is_some(),
                    _ => true,
                };
                let at_crease = match w.batter {
                    Some(_) => w.batter == self.on_strike_batter() || w.batter == self.off_strike_batter(),
                    None => true,
                };
                let target = if w.batter.is_some() && w.batter != self.on_strike_batter() {
                    self.off_strike_batter()
                } else {
                    self.on_strike_batter()
                };
                let fielder_in_side = match w.fielder {
                    Some(f) => f < bowl.players.len(),
                    None => true,
                };
                if !named || !fielder_in_side || !at_crease || !in_roster_exec(bat, target)
                    || !in_roster_exec(bowl, self.bowler) {
                    return false;
                }
                let bowler = &bowl.players[self.bowler.unwrap()];
                ball_fits_exec(&bowler.overs_bowled) && ball_fits_exec(&bat.overs)
                    && bowler.wickets_taken < u32::MAX && bat.wickets < u32::MAX
            },
            GameEvent::Runs(_) | GameEvent::Extra(_) => {
                if !in_roster_exec(bat, self.on_strike_batter()) || !in_roster_exec(bowl, self.bowler) {
                    return false;
                }
                let batter = &bat.players[self.on_strike_batter().unwrap()];
                let bowler = &bowl.players[self.bowler.unwrap()];
                if !ball_fits_exec(&bowler.overs_bowled) || !ball_fits_exec(&bat.overs) {
                    return false;
                }
                match event {
                    GameEvent::Runs(n) => {
                        batter.balls_faced < u32::MAX && sum_fits(batter.runs_scored, *n)
                            && sum_fits(bowler.runs_conceded, *n) && sum_fits(bat.runs, *n)
                    },
                    GameEvent::Extra(x) => {
                        let team_runs_fit = match x.extra_type {
                            ExtraType::Wide | ExtraType::NoBall => x.runs < u32::MAX && sum_fits(
                                bat.runs,
                                x.runs + 1,
                            ),
                            _ => sum_fits(bat.runs, x.runs),
                        };
                        batter.balls_faced < u32::MAX && sum_fits(batter.runs_scored, x.runs)
                            && extras_fit(&bowler.extras, x) && team_runs_fit && extras_fit(
                            &bat.extras,
                            x,
                        )
                    },
                    _ => true,
                }
            },
            GameEvent::SelectOnStrike(k) | GameEvent::SelectOffStrike(k) => {
                *k < bat.players.len() && bat.wickets < u32::MAX
            },
            GameEvent::SelectBowler(k) => {
                if *k >= bowl.players.len() {
                    false
                } else if self.last_bowler.is_some() && bowl.players[*k].bowling_order.is_none() {
                    match bowl.highest_bowling_order() {
                        Some(m) => m < usize::MAX,
                        None => false,
                    }
                } else {
                    true
                }
            },
            _ => true,
        }
    }

    /// Rebuilds a match by applying each of the submitted events in turn to
    /// a new one. A saved log also holds the entries that the engine derived;
    /// it is read back with `from_log`.
    pub fn from_events(events: Vec<GameEvent>) -> (r: Self)
        requires
            replayable_from(fresh_game(), events@),
        ensures
            r@ == replay_from(fresh_game(), events@),
    {
        let mut game_state = GameState::new();
        let mut i: usize = 0;
        while i < events.len()
            invariant
                i <= events.len(),
                replayable_from(fresh_game(), events@),
                game_state@ == replay_from(fresh_game(), events@.take(i as int)),
            decreases events.len() - i,
        {
            proof {
                lemma_replayable_prefix(fresh_game(), events@, i as int + 1);
            }
            assert(events@.take(i + 1).drop_last() =~= events@.take(i as int));
            game_state.update(events[i].duplicate());
            i = i + 1;
        }
        assert(events@.take(i as int) =~= events@);
        game_state
    }

    /// Rebuilds a match from submitted events, or gives `None` when some
    /// event is not accepted where it stands.
    pub fn try_from_events(events: Vec<GameEvent>) -> (r: Option<Self>)
        ensures
            r is Some <==> replayable_from(fresh_game(), events@),
            r is Some ==> r->0@ == replay_from(fresh_game(), events@),
    {
        let mut game_state = GameState::new();
        let mut i: usize = 0;
        while i < events.len()
            invariant
                i <= events.len(),
                replayable_from(fresh_game(), events@.take(i as int)),
                game_state@ == replay_from(fresh_game(), events@.take(i as int)),
            decreases events.len() - i,
        {
            assert(events@.take(i + 1).drop_last() =~= events@.take(i as int));
            if !game_state.accepts(&events[i]) {
                proof {
                    if replayable_from(fresh_game(), events@) {
                        lemma_replayable_prefix(fresh_game(), events@, i as int + 1);
                        assert(events@.take(i + 1).last() == events@[i as int]);
                    }
                }
                return None;
            }
            game_state.update(events[i].duplicate());
            i = i + 1;
        }
        assert(events@.take(i as int) =~= events@);
        Some(game_state)
    }
}

/// Whether `e` is the entry `d` that the engine derived.
fn same_marker(e: &GameEvent, d: &GameEvent) -> (r: bool)
    requires
        is_marker(*d),
    ensures
        r == (*e == *d),
{
    match (e, d) {
        (GameEvent::EndOver(a), GameEvent::EndOver(b)) => a.runs == b.runs && a.wickets == b.wickets
            && a.overs.overs == b.overs.overs && a.overs.balls == b.overs.balls,
        (GameEvent::EndInnings, GameEvent::EndInnings) => true,
        (GameEvent::StartInnings(a), GameEvent::StartInnings(b)) => *a == *b,
        _ => false,
    }
}

impl GameState {
    /// Reads a saved log (the `events` of a match) back into the match.
    /// Each entry is applied in turn; the entries the engine derived from it
    /// must follow it and are passed over, not applied again. `None` when
    /// the log is not one the engine could have written.
    pub fn from_log(log: Vec<GameEvent>) -> (r: Option<Self>)
        ensures
            r is Some <==> replay_log(fresh_game(), log@) is Some,
            r is Some ==> r->0@ == replay_log(fresh_game(), log@)->0,
    {
        let mut g = GameState::new();
        let mut i: usize = 0;
        assert(log@.subrange(0, log@.len() as int) =~= log@);
        while i < log.len()
            invariant
                i <= log.len(),
                replay_log(fresh_game(), log@) == replay_log(g@, log@.subrange(i as int, log@.len() as int)),
            decreases log.len() - i,
        {
            let ghost sub = log@.subrange(i as int, log@.len() as int);
            assert(sub[0] == log@[i as int]);
            if !g.accepts(&log[i]) {
                return None;
            }
            let ghost g0 = g@;
            proof {
                lemma_step_log(g0, log@[i as int]);
            }
            let ghost d = g0.derived_entries(log@[i as int]);
            let before = g.events.len();
            g.update(log[i].duplicate());
            assert(g.events@ == g0.events.push(log@[i as int]) + d);
            let k = g.events.len() - before - 1;
            assert(k == d.len());
            if k > log.len() - i - 1 {
                return None;
            }
            let mut j: usize = 0;
            while j < k
                invariant
                    j <= k,
                    k == d.len(),
                    i + 1 + k <= log.len(),
                    g.events@ == g0.events.push(log@[i as int]) + d,
                    before == g0.events.len(),
                    g.events.len() == before + 1 + k,
                    sub == log@.subrange(i as int, log@.len() as int),
                    i < log.len(),
                    sub[0] == log@[i as int],
                    g0.accepts(sub[0]),
                    d == g0.derived_entries(sub[0]),
                    replay_log(fresh_game(), log@) == replay_log(g0, sub),
                    forall|q: int| 0 <= q < d.len() ==> is_marker(#[trigger] d[q]),
                    forall|q: int| 0 <= q < j ==> log@[i + 1 + q] == #[trigger] d[q],
                decreases k - j,
            {
                assert(g.events@[before + 1 + j] == d[j as int]);
                if !same_marker(&log[i + 1 + j], &g.events[before + 1 + j]) {
                    assert(sub.subrange(1, 1 + k as int)[j as int] != d[j as int]);
                    return None;
                }
                j = j + 1;
            }
            assert(sub.subrange(1, 1 + k as int) =~= d);
            assert(sub.subrange(1 + k as int, sub.len() as int) =~= log@.subrange(
                (i + 1 + k) as int,
                log@.len() as int,
            ));
            i = i + 1 + k;
        }
        assert(log@.subrange(i as int, log@.len() as int).len() == 0);
        Some(g)
    }
}

} // verus!
