use vstd::prelude::*;
use crate::components::fielder_select::{FielderSelect, FielderSelectEvent};
use crate::components::runout_select::{all_indices, RunoutSelect, RunoutSelectEvent};
use crate::components::{AsEvent, ComponentEvent, Event, SubcomponentEvent};
use crate::event::GameEvent;
use crate::game_state::GameState;
use crate::model::GameView;
use crate::page::Page;
use crate::wickets::{how_out_list, HowOut, WicketEvent};

verus! {

/// What the part nested in the wicket screen reports: the fielder of a
/// catch, or the batter run out (roster index) and the fielder, if any.
#[derive(Clone, Copy, Debug)]
pub enum WicketSubcomponentData {
    CaughtSubcomponent(usize),
    RunoutSubcomponent((usize, Option<usize>)),
}

/// Why a wicket cannot be recorded yet.
#[derive(Clone, Copy, Debug, PartialEq, Eq, Structural)]
pub enum WicketError {
    /// A catch names no fielder.
    MissingFielder,
    /// A run out names no batter.
    MissingBatter,
}

/// How a wicket is recorded, keyed by the way out: a catch carries its
/// fielder, a run out its batter and, if any, its fielder; every other way
/// out is of the batter on strike and names no fielder.
pub open spec fn spec_resolve_wicket(
    how_out: HowOut,
    bowler: Option<usize>,
    data: Option<WicketSubcomponentData>,
) -> Result<WicketEvent, WicketError> {
    match how_out {
        HowOut::Caught => match data {
            Some(WicketSubcomponentData::CaughtSubcomponent(f)) => Ok(
                WicketEvent { how_out, bowler, fielder: Some(f), batter: None },
            ),
            _ => Err(WicketError::MissingFielder),
        },
        HowOut::RunOut => match data {
            Some(WicketSubcomponentData::RunoutSubcomponent((b, f))) => Ok(
                WicketEvent { how_out, bowler, fielder: f, batter: Some(b) },
            ),
            _ => Err(WicketError::MissingBatter),
        },
        _ => Ok(WicketEvent { how_out, bowler, fielder: None, batter: None }),
    }
}

/// Turns a chosen way out and what the nested part reports into the
/// wicket to log. A catch without its fielder, or a run out without its
/// batter, is refused.
pub fn resolve_wicket(how_out: HowOut, bowler: Option<usize>, data: Option<WicketSubcomponentData>) -> (r:
    Result<WicketEvent, WicketError>)
    ensures
        r == spec_resolve_wicket(how_out, bowler, data),
{
    match how_out {
        HowOut::Caught => match data {
            Some(WicketSubcomponentData::CaughtSubcomponent(f)) => Ok(WicketEvent::new(how_out, bowler, Some(f))),
            _ => Err(WicketError::MissingFielder),
        },
        HowOut::RunOut => match data {
            Some(WicketSubcomponentData::RunoutSubcomponent((b, f))) => Ok(WicketEvent::run_out(bowler, f, b)),
            _ => Err(WicketError::MissingBatter),
        },
        _ => Ok(WicketEvent::new(how_out, bowler, None)),
    }
}

/// The part nested in the wicket screen, for the ways out that need more.
pub enum WicketSubcomponent {
    Fielder(FielderSelect),
    Runout(RunoutSelect),
}

impl WicketSubcomponent {
    pub open spec fn spec_value(self) -> Option<WicketSubcomponentData> {
        match self {
            WicketSubcomponent::Fielder(f) => match f.selected_player {
                Some(p) => Some(WicketSubcomponentData::CaughtSubcomponent(p)),
                None => None,
            },
            WicketSubcomponent::Runout(r) => match r.batter_select.selected_player {
                Some(b) => Some(
                    WicketSubcomponentData::RunoutSubcomponent((b, r.fielder_select.selected_player)),
                ),
                None => None,
            },
        }
    }

    pub fn get_value(&self) -> (r: Option<WicketSubcomponentData>)
        ensures
            r == self.spec_value(),
    {
        match self {
            WicketSubcomponent::Fielder(f) => f.get_value(),
            WicketSubcomponent::Runout(r) => r.get_value(),
        }
    }

    pub fn can_submit(&self) -> (r: bool)
        ensures
            r == self.spec_value() is Some,
    {
        match self {
            WicketSubcomponent::Fielder(f) => f.can_submit(),
            WicketSubcomponent::Runout(r) => r.can_submit(),
        }
    }
}

/// The wicket screen: pick how the batter on strike got out, and whatever
/// that way out needs.
pub struct WicketSelect {
    pub selected_how_out: Option<usize>,
    pub subcomponent: Option<WicketSubcomponent>,
}

#[derive(Clone, Copy, Debug, PartialEq, Eq, Structural)]
pub enum WicketSelectEvent {
    HowOutSelected(usize),
    SubmitWicket,
    SubcomponentEvent,
}

impl AsEvent for WicketSelectEvent {
    fn as_event(self) -> Event {
        Event::ComponentEvent(ComponentEvent::WicketSelectEvent(self))
    }
}

impl WicketSelect {
    pub fn new() -> (r: Self)
        ensures
            r.selected_how_out is None,
            r.subcomponent is None,
    {
        WicketSelect { selected_how_out: None, subcomponent: None }
    }

    pub open spec fn spec_value(self) -> Option<WicketSubcomponentData> {
        match self.subcomponent {
            Some(c) => c.spec_value(),
            None => None,
        }
    }

    /// The wicket that submitting now would record.
    pub open spec fn submission(self, g: GameView) -> Result<WicketEvent, WicketError> {
        spec_resolve_wicket(
            how_out_list()[self.selected_how_out->0 as int],
            Some(g.bowling().players[g.bowler->0 as int].order),
            self.spec_value(),
        )
    }

    /// Whether the wicket can be submitted: a way out is picked, and a catch
    /// or a run out names what it needs.
    pub fn can_submit(&self) -> (r: bool)
        requires
            self.selected_how_out is Some ==> self.selected_how_out->0 < how_out_list().len(),
        ensures
            r == (self.selected_how_out is Some && (self.subcomponent is None
                || self.spec_value() is Some)),
    {
        match self.selected_how_out {
            None => false,
            Some(_) => match &self.subcomponent {
                None => true,
                Some(c) => c.can_submit(),
            },
        }
    }

    /// Passes an event on to the nested part; one meant for another kind of
    /// part changes nothing.
    pub fn update_subcomponent(&mut self, event: SubcomponentEvent)
        ensures
            final(self).selected_how_out == old(self).selected_how_out,
            final(self).subcomponent is Some == old(self).subcomponent is Some,
    {
        match (&mut self.subcomponent, event) {
            (Some(WicketSubcomponent::Fielder(f)), SubcomponentEvent::FielderSelectEvent(e)) => f.update(e),
            (Some(WicketSubcomponent::Runout(r)), SubcomponentEvent::RunoutSelectEvent(e)) => r.update(e),
            _ => {},
        }
    }

    /// Picking a way out sets up what it needs (a fielder list for a catch,
    /// the batters and fielders for a run out). Submitting records the
    /// wicket and goes to picking the next batter; a catch with no fielder
    /// or a run out with no batter is refused and nothing is recorded.
    pub fn update(&mut self, event: WicketSelectEvent, game_state: &mut GameState) -> (r: Option<Page>)
        requires
            event matches WicketSelectEvent::HowOutSelected(i) ==> {
                &&& i < how_out_list().len()
                &&& how_out_list()[i as int] == HowOut::RunOut ==> (old(game_state)@.batter_a is Some
                    && old(game_state)@.batter_b is Some)
            },
            event == WicketSelectEvent::SubmitWicket ==> {
                &&& old(self).selected_how_out is Some
                &&& old(self).selected_how_out->0 < how_out_list().len()
                &&& old(game_state)@.bowler is Some
                &&& old(game_state)@.bowler->0 < old(game_state)@.bowling().players.len()
                &&& old(self).submission(old(game_state)@) is Ok ==> old(game_state)@.accepts(GameEvent::Wicket(old(self).submission(old(game_state)@)->Ok_0))
            },
        ensures
            match event {
                WicketSelectEvent::HowOutSelected(i) => {
                    &&& r is None
                    &&& final(game_state)@ == old(game_state)@
                    &&& final(self).selected_how_out == Some(i)
                    &&& match how_out_list()[i as int] {
                        HowOut::Caught => final(self).subcomponent matches Some(WicketSubcomponent::Fielder(f)) && f.selected_player is None,
                        HowOut::RunOut => final(self).subcomponent matches Some(WicketSubcomponent::Runout(_)),
                        _ => final(self).subcomponent is None,
                    }
                },
                WicketSelectEvent::SubmitWicket => match old(self).submission(old(game_state)@) {
                    Ok(w) => {
                        &&& r == Some(Page::SelectBatter)
                        &&& final(game_state)@ == old(game_state)@.step(GameEvent::Wicket(w)).0
                    },
                    Err(_) => {
                        &&& r is None
                        &&& final(game_state)@ == old(game_state)@
                    },
                },
                WicketSelectEvent::SubcomponentEvent => {
                    &&& r is None
                    &&& final(game_state)@ == old(game_state)@
                },
            },
    {
        match event {
            WicketSelectEvent::HowOutSelected(i) => {
                self.selected_how_out = Some(i);
                let how_out = HowOut::all()[i];
                match how_out {
                    HowOut::Caught => {
                        let fielders = all_indices(game_state.bowling_team().players.len());
                        self.subcomponent = Some(WicketSubcomponent::Fielder(FielderSelect::new(fielders)));
                    },
                    HowOut::RunOut => {
                        self.subcomponent = Some(WicketSubcomponent::Runout(RunoutSelect::new(game_state)));
                    },
                    _ => self.subcomponent = None,
                }
                None
            },
            WicketSelectEvent::SubmitWicket => {
                let how_out = HowOut::all()[self.selected_how_out.unwrap()];
                let bowler = Some(game_state.bowling_team().players[game_state.bowler.unwrap()].order);
                let data = match &self.subcomponent {
                    Some(c) => c.get_value(),
                    None => None,
                };
                match resolve_wicket(how_out, bowler, data) {
                    Ok(wicket_event) => {
                        game_state.update(GameEvent::Wicket(wicket_event));
                        Some(Page::SelectBatter)
                    },
                    Err(_) => None,
                }
            },
            WicketSelectEvent::SubcomponentEvent => None,
        }
    }
}

} // verus!
