use vstd::prelude::*;
use crate::components::{AsEvent, ComponentEvent, Event};
use crate::event::GameEvent;
use crate::game_state::GameState;
use crate::page::Page;

verus! {

/// Picks the bowler of the next over.
pub struct BowlerSelect {
    pub selected_player: Option<usize>,
}

#[derive(Clone, Copy, Debug, PartialEq, Eq, Structural)]
pub enum BowlerSelectEvent {
    BowlerSelected(usize),
    SubmitBowler,
}

impl AsEvent for BowlerSelectEvent {
    fn as_event(self) -> Event {
        Event::ComponentEvent(ComponentEvent::BowlerSelectEvent(self))
    }
}

impl BowlerSelect {
    /// Starts with the bowler of the over before last picked, who bowls
    /// from this end.
    pub fn new(game_state: &GameState) -> (r: Self)
        ensures
            r.selected_player == game_state@.last_last_bowler,
    {
        BowlerSelect { selected_player: game_state.last_last_bowler }
    }

    /// Picking remembers the player; submitting binds the bowler and goes
    /// back to scoring.
    pub fn update(&mut self, event: BowlerSelectEvent, game_state: &mut GameState) -> (r: Option<Page>)
        requires
            event == BowlerSelectEvent::SubmitBowler ==> {
                &&& old(self).selected_player is Some
                &&& old(game_state)@.accepts(GameEvent::SelectBowler(old(self).selected_player->0))
            },
        ensures
            match event {
                BowlerSelectEvent::BowlerSelected(p) => {
                    &&& r is None
                    &&& final(self).selected_player == Some(p)
                    &&& final(game_state)@ == old(game_state)@
                },
                BowlerSelectEvent::SubmitBowler => {
                    &&& r == Some(Page::Scoring)
                    &&& final(self).selected_player == old(self).selected_player
                    &&& final(game_state)@ == old(game_state)@.step(
                        GameEvent::SelectBowler(old(self).selected_player->0),
                    ).0
                },
            },
    {
        match event {
            BowlerSelectEvent::BowlerSelected(p) => {
                self.selected_player = Some(p);
                None
            },
            BowlerSelectEvent::SubmitBowler => {
                game_state.update(GameEvent::SelectBowler(self.selected_player.unwrap()));
                Some(Page::Scoring)
            },
        }
    }
}

} // verus!
