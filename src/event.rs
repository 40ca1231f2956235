use vstd::prelude::*;
use crate::extras::Extra;
use crate::player::Player;
use crate::summary::Summary;
use crate::team::TeamType;
use crate::wickets::WicketEvent;

verus! {

/// One entry of the match log.
#[derive(Clone, Debug)]
pub enum GameEvent {
    Runs(u32),
    Extra(Extra),
    Wicket(WicketEvent),
    StartOver,
    EndOver(Summary),
    StartInnings(TeamType),
    EndInnings,
    SelectOnStrike(usize),
    SelectOffStrike(usize),
    SelectBowler(usize),
    AddPlayer(Player),
    SubmitTeam(String),
}

impl GameEvent {
    /// A copy of the event, field for field.
    pub fn duplicate(&self) -> (r: Self)
        ensures
            r == *self,
    {
        match self {
            GameEvent::Runs(n) => GameEvent::Runs(*n),
            GameEvent::Extra(x) => GameEvent::Extra(*x),
            GameEvent::Wicket(w) => GameEvent::Wicket(*w),
            GameEvent::StartOver => GameEvent::StartOver,
            GameEvent::EndOver(s) => GameEvent::EndOver(*s),
            GameEvent::StartInnings(t) => GameEvent::StartInnings(*t),
            GameEvent::EndInnings => GameEvent::EndInnings,
            GameEvent::SelectOnStrike(i) => GameEvent::SelectOnStrike(*i),
            GameEvent::SelectOffStrike(i) => GameEvent::SelectOffStrike(*i),
            GameEvent::SelectBowler(i) => GameEvent::SelectBowler(*i),
            GameEvent::AddPlayer(p) => GameEvent::AddPlayer(p.duplicate()),
            GameEvent::SubmitTeam(name) => GameEvent::SubmitTeam(name.clone()),
        }
    }

    /// Whether the event is a delivery.
    pub fn is_ball(&self) -> (r: bool)
        ensures
            r == (*self is Runs || *self is Wicket || *self is Extra),
    {
        match self {
            GameEvent::Runs(_) | GameEvent::Wicket(_) | GameEvent::Extra(_) => true,
            _ => false,
        }
    }

    /// Whether the event belongs to entering the teams.
    pub fn is_setup_event(&self) -> (r: bool)
        ensures
            r == (*self is AddPlayer || *self is SubmitTeam),
    {
        match self {
            GameEvent::AddPlayer(_) | GameEvent::SubmitTeam(_) => true,
            _ => false,
        }
    }
}

/// Who bowled to whom when a log entry was made, for display only: roster
/// indices of the bowler and of the batter on strike.
#[derive(Clone, Copy, Debug, PartialEq, Eq, Structural)]
pub struct GameEventHistory {
    pub event_index: usize,
    pub bowler: Option<usize>,
    pub batter: Option<usize>,
}

impl GameEventHistory {
    pub fn new(event_index: usize, bowler: Option<usize>, batter: Option<usize>) -> (r: Self)
        ensures
            r == (GameEventHistory { event_index, bowler, batter }),
    {
        GameEventHistory { event_index, bowler, batter }
    }
}

} // verus!
