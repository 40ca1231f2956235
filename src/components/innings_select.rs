use vstd::prelude::*;
use crate::components::{AsEvent, ComponentEvent, Event};
use crate::event::GameEvent;
use crate::game_state::GameState;
use crate::page::Page;
use crate::team::TeamType;

verus! {

/// Picks the side that bats first.
pub struct InningsSelect {
    pub selected_team: Option<usize>,
}

#[derive(Clone, Copy, Debug, PartialEq, Eq, Structural)]
pub enum InningsSelectEvent {
    InningsSelected(usize),
    SubmitInnings,
}

impl AsEvent for InningsSelectEvent {
    fn as_event(self) -> Event {
        Event::ComponentEvent(ComponentEvent::InningsSelectEvent(self))
    }
}

/// The side that a pick stands for: 0 is side A, 1 is side B.
pub open spec fn team_of_selection(selected: Option<usize>) -> Option<TeamType> {
    match selected {
        Some(0) => Some(TeamType::A),
        Some(1) => Some(TeamType::B),
        _ => None,
    }
}

impl InningsSelect {
    pub fn new() -> (r: Self)
        ensures
            r.selected_team is None,
    {
        InningsSelect { selected_team: None }
    }

    pub fn selection_to_team_type(&self) -> (r: Option<TeamType>)
        ensures
            r == team_of_selection(self.selected_team),
    {
        match self.selected_team {
            Some(0) => Some(TeamType::A),
            Some(1) => Some(TeamType::B),
            _ => None,
        }
    }

    /// Picking remembers the side; submitting starts its innings and goes to
    /// picking the batters.
    pub fn update(&mut self, event: InningsSelectEvent, game_state: &mut GameState) -> (r: Option<Page>)
        requires
            event == InningsSelectEvent::SubmitInnings ==> team_of_selection(old(self).selected_team) is Some,
        ensures
            match event {
                InningsSelectEvent::InningsSelected(i) => {
                    &&& r is None
                    &&& final(self).selected_team == Some(i)
                    &&& final(game_state)@ == old(game_state)@
                },
                InningsSelectEvent::SubmitInnings => {
                    &&& r == Some(Page::SelectBatter)
                    &&& final(game_state)@ == old(game_state)@.step(
                        GameEvent::StartInnings(team_of_selection(old(self).selected_team)->0),
                    ).0
                },
            },
    {
        match event {
            InningsSelectEvent::InningsSelected(i) => {
                self.selected_team = Some(i);
                None
            },
            InningsSelectEvent::SubmitInnings => {
                let team = self.selection_to_team_type().unwrap();
                game_state.update(GameEvent::StartInnings(team));
                Some(Page::SelectBatter)
            },
        }
    }
}

} // verus!
