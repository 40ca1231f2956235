use vstd::prelude::*;
use crate::components::{AsEvent, ComponentEvent, Event};
use crate::event::GameEvent;
use crate::game_state::{GameState, ReplaceBatter};
use crate::model::GameView;
use crate::page::Page;
use crate::player::Player;

verus! {

/// Picks the batter for the empty slot at the crease.
pub struct BatterSelect {
    pub selected_player: Option<usize>,
}

#[derive(Clone, Copy, Debug, PartialEq, Eq, Structural)]
pub enum BatterSelectEvent {
    BatterSelected(usize),
    SubmitBatter,
}

impl AsEvent for BatterSelectEvent {
    fn as_event(self) -> Event {
        Event::ComponentEvent(ComponentEvent::BatterSelectEvent(self))
    }
}

/// Whether the player at roster index `i` may be offered to come in: the
/// way the innings stands allows it, and the player is not at the crease.
pub open spec fn may_come_in(g: GameView, players: Seq<Player>, i: usize) -> bool {
    &&& players[i as int].how_out.spec_can_come_in()
    &&& g.batter_a != Some(i)
    &&& g.batter_b != Some(i)
}

/// Roster indices, in order, of the first `n` players who may come in.
pub open spec fn available_indices(g: GameView, players: Seq<Player>, n: nat) -> Seq<usize>
    decreases n,
{
    if n == 0 {
        Seq::empty()
    } else {
        let rest = available_indices(g, players, (n - 1) as nat);
        if may_come_in(g, players, (n - 1) as usize) {
            rest.push((n - 1) as usize)
        } else {
            rest
        }
    }
}

/// The match after the picked batter fills the empty slot, if one is empty.
pub open spec fn fill_slot(g: GameView, player: usize) -> GameView {
    match g.batter_to_replace() {
        Some(ReplaceBatter::OnStrike) => g.step(GameEvent::SelectOnStrike(player)).0,
        Some(ReplaceBatter::OffStrike) => g.step(GameEvent::SelectOffStrike(player)).0,
        None => g,
    }
}

impl BatterSelect {
    pub fn new() -> (r: Self)
        ensures
            r.selected_player is None,
    {
        BatterSelect { selected_player: None }
    }

    /// Roster indices of the batting side's players who may come in.
    pub fn available_batters(game_state: &GameState) -> (r: Vec<usize>)
        ensures
            r@ == available_indices(
                game_state@,
                game_state@.batting().players,
                game_state@.batting().players.len(),
            ),
    {
        let players = &game_state.batting_team().players;
        let mut r: Vec<usize> = Vec::new();
        let mut i: usize = 0;
        while i < players.len()
            invariant
                i <= players.len(),
                players@ == game_state@.batting().players,
                r@ == available_indices(game_state@, players@, i as nat),
            decreases players.len() - i,
        {
            if players[i].how_out.can_come_in() && game_state.batter_a != Some(i)
                && game_state.batter_b != Some(i) {
                r.push(i);
            }
            i = i + 1;
        }
        r
    }

    /// Picking remembers the player. Submitting puts the player in the
    /// empty slot; once both slots are filled the scorer goes on to score,
    /// or to pick a bowler if none is bound.
    pub fn update(&mut self, event: BatterSelectEvent, game_state: &mut GameState) -> (r: Option<Page>)
        requires
            event == BatterSelectEvent::SubmitBatter ==> {
                &&& old(self).selected_player is Some
                &&& match old(game_state)@.batter_to_replace() {
                    Some(ReplaceBatter::OnStrike) => old(game_state)@.accepts(
                        GameEvent::SelectOnStrike(old(self).selected_player->0),
                    ),
                    Some(ReplaceBatter::OffStrike) => old(game_state)@.accepts(
                        GameEvent::SelectOffStrike(old(self).selected_player->0),
                    ),
                    None => true,
                }
            },
        ensures
            match event {
                BatterSelectEvent::BatterSelected(p) => {
                    &&& r is None
                    &&& final(self).selected_player == Some(p)
                    &&& final(game_state)@ == old(game_state)@
                },
                BatterSelectEvent::SubmitBatter => {
                    let g = fill_slot(old(game_state)@, old(self).selected_player->0);
                    &&& final(game_state)@ == g
                    &&& final(self).selected_player == if old(game_state)@.batter_to_replace() is Some {
                        None
                    } else {
                        old(self).selected_player
                    }
                    &&& r == if g.batter_to_replace() is None {
                        Some(if g.bowler is Some { Page::Scoring } else { Page::SelectBowler })
                    } else {
                        None
                    }
                },
            },
    {
        match event {
            BatterSelectEvent::BatterSelected(p) => {
                self.selected_player = Some(p);
                None
            },
            BatterSelectEvent::SubmitBatter => {
                let player = self.selected_player.unwrap();
                match game_state.batter_to_replace() {
                    Some(ReplaceBatter::OnStrike) => {
                        game_state.update(GameEvent::SelectOnStrike(player));
                        self.selected_player = None;
                    },
                    Some(ReplaceBatter::OffStrike) => {
                        game_state.update(GameEvent::SelectOffStrike(player));
                        self.selected_player = None;
                    },
                    None => {},
                }
                if game_state.batter_to_replace().is_none() {
                    if game_state.bowler.is_some() {
                        Some(Page::Scoring)
                    } else {
                        Some(Page::SelectBowler)
                    }
                } else {
                    None
                }
            },
        }
    }
}

} // verus!
