use vstd::prelude::*;
use crate::components::fielder_select::{FielderSelect, Selection};
use crate::components::wicket_select::WicketSubcomponentData;
use crate::components::{AsEvent, ComponentEvent, Event, SubcomponentEvent};
use crate::game_state::GameState;

verus! {

/// Picks which batter was run out and, if any, the fielder who did it.
pub struct RunoutSelect {
    pub batter_select: FielderSelect,
    pub fielder_select: FielderSelect,
}

#[derive(Clone, Copy, Debug, PartialEq, Eq, Structural)]
pub enum RunoutSelectEvent {
    BatterSelectEvent(usize),
    FielderSelectEvent(usize),
}

impl AsEvent for RunoutSelectEvent {
    fn as_event(self) -> Event {
        Event::ComponentEvent(ComponentEvent::SubcomponentEvent(SubcomponentEvent::RunoutSelectEvent(self)))
    }
}

/// The indices `0..n`.
pub fn all_indices(n: usize) -> (r: Vec<usize>)
    ensures
        r@ == Seq::new(n as nat, |i: int| i as usize),
{
    let mut r: Vec<usize> = Vec::new();
    let mut i: usize = 0;
    while i < n
        invariant
            i <= n,
            r@ == Seq::new(i as nat, |k: int| k as usize),
        decreases n - i,
    {
        r.push(i);
        i = i + 1;
        assert(r@ =~= Seq::new(i as nat, |k: int| k as usize));
    }
    r
}

impl RunoutSelect {
    /// Offers the two batters at the crease, the first of them picked, and
    /// the whole fielding side.
    pub fn new(game_state: &GameState) -> (r: Self)
        requires
            game_state@.batter_a is Some,
            game_state@.batter_b is Some,
        ensures
            r.batter_select.players@ == seq![game_state@.batter_a->0, game_state@.batter_b->0],
            r.batter_select.selected_player == game_state@.batter_a,
            r.batter_select.selection == Selection::RunoutBatter,
            r.batter_select.message is Some,
            r.fielder_select.players@ == Seq::new(
                game_state@.bowling().players.len(),
                |i: int| i as usize,
            ),
            r.fielder_select.selected_player is None,
            r.fielder_select.selection == Selection::RunoutFielder,
    {
        let a = game_state.batter_a.unwrap();
        let b = game_state.batter_b.unwrap();
        let batters = vec![a, b];
        let fielders = all_indices(game_state.bowling_team().players.len());
        let mut batter_select = FielderSelect::new_with_selection_fn(
            batters,
            Selection::RunoutBatter,
        ).with_message("Select run out batter:".to_owned());
        batter_select.select_player(a);
        RunoutSelect {
            batter_select,
            fielder_select: FielderSelect::new_with_selection_fn(fielders, Selection::RunoutFielder),
        }
    }

    pub fn update(&mut self, event: RunoutSelectEvent)
        ensures
            final(self).batter_select.selected_player == match event {
                RunoutSelectEvent::BatterSelectEvent(p) => Some(p),
                _ => old(self).batter_select.selected_player,
            },
            final(self).fielder_select.selected_player == match event {
                RunoutSelectEvent::FielderSelectEvent(p) => Some(p),
                _ => old(self).fielder_select.selected_player,
            },
            final(self).batter_select.players@ == old(self).batter_select.players@,
            final(self).fielder_select.players@ == old(self).fielder_select.players@,
    {
        match event {
            RunoutSelectEvent::BatterSelectEvent(p) => self.batter_select.select_player(p),
            RunoutSelectEvent::FielderSelectEvent(p) => self.fielder_select.select_player(p),
        }
    }

    /// A run out can be recorded once the batter is picked; the fielder is
    /// optional (a direct hit by the bowler names none).
    pub fn can_submit(&self) -> (r: bool)
        ensures
            r == self.batter_select.selected_player is Some,
    {
        self.batter_select.selected_player.is_some()
    }

    pub fn get_value(&self) -> (r: Option<WicketSubcomponentData>)
        ensures
            r == match self.batter_select.selected_player {
                Some(b) => Some(
                    WicketSubcomponentData::RunoutSubcomponent((b, self.fielder_select.selected_player)),
                ),
                None => None,
            },
    {
        match self.batter_select.selected_player {
            Some(b) => Some(
                WicketSubcomponentData::RunoutSubcomponent((b, self.fielder_select.selected_player)),
            ),
            None => None,
        }
    }
}

} // verus!
