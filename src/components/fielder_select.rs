use vstd::prelude::*;
use crate::components::runout_select::RunoutSelectEvent;
use crate::components::wicket_select::WicketSubcomponentData;
use crate::components::{AsEvent, ComponentEvent, Event, SubcomponentEvent};

verus! {

/// What a pick in a player list is reported as.
#[derive(Clone, Copy, Debug, PartialEq, Eq, Structural)]
pub enum Selection {
    /// The fielder who took a catch.
    Fielder,
    /// The batter who was run out.
    RunoutBatter,
    /// The fielder who ran the batter out.
    RunoutFielder,
}

/// A list of players to pick one from, by roster index.
pub struct FielderSelect {
    pub players: Vec<usize>,
    pub selected_player: Option<usize>,
    pub selection: Selection,
    pub message: Option<String>,
}

#[derive(Clone, Copy, Debug, PartialEq, Eq, Structural)]
pub enum FielderSelectEvent {
    FielderSelected(usize),
}

impl AsEvent for FielderSelectEvent {
    fn as_event(self) -> Event {
        Event::ComponentEvent(ComponentEvent::SubcomponentEvent(SubcomponentEvent::FielderSelectEvent(self)))
    }
}

/// The event that picking `order` sends, for a list of the given kind.
pub open spec fn selection_event(selection: Selection, order: usize) -> Event {
    match selection {
        Selection::Fielder => Event::ComponentEvent(
            ComponentEvent::SubcomponentEvent(
                SubcomponentEvent::FielderSelectEvent(FielderSelectEvent::FielderSelected(order)),
            ),
        ),
        Selection::RunoutBatter => Event::ComponentEvent(
            ComponentEvent::SubcomponentEvent(
                SubcomponentEvent::RunoutSelectEvent(RunoutSelectEvent::BatterSelectEvent(order)),
            ),
        ),
        Selection::RunoutFielder => Event::ComponentEvent(
            ComponentEvent::SubcomponentEvent(
                SubcomponentEvent::RunoutSelectEvent(RunoutSelectEvent::FielderSelectEvent(order)),
            ),
        ),
    }
}

impl FielderSelect {
    /// A list for picking the fielder who took a catch.
    pub fn new(players: Vec<usize>) -> (r: Self)
        ensures
            r.players@ == players@,
            r.selected_player is None,
            r.selection == Selection::Fielder,
            r.message is None,
    {
        FielderSelect { players, selected_player: None, selection: Selection::Fielder, message: None }
    }

    /// A list whose picks are reported as `selection` says.
    pub fn new_with_selection_fn(players: Vec<usize>, selection: Selection) -> (r: Self)
        ensures
            r.players@ == players@,
            r.selected_player is None,
            r.selection == selection,
            r.message is None,
    {
        FielderSelect { players, selected_player: None, selection, message: None }
    }

    pub fn select_player(&mut self, order: usize)
        ensures
            final(self).selected_player == Some(order),
            final(self).players@ == old(self).players@,
            final(self).selection == old(self).selection,
            final(self).message == old(self).message,
    {
        self.selected_player = Some(order);
    }

    /// The same list under another heading.
    pub fn with_message(self, message: String) -> (r: Self)
        ensures
            r.message == Some(message),
            r.players@ == self.players@,
            r.selected_player == self.selected_player,
            r.selection == self.selection,
    {
        let mut r = self;
        r.message = Some(message);
        r
    }

    pub fn update(&mut self, event: FielderSelectEvent)
        ensures
            final(self).selected_player == Some(
                match event {
                    FielderSelectEvent::FielderSelected(order) => order,
                },
            ),
            final(self).players@ == old(self).players@,
            final(self).selection == old(self).selection,
            final(self).message == old(self).message,
    {
        match event {
            FielderSelectEvent::FielderSelected(order) => self.select_player(order),
        }
    }

    /// The event that picking `order` sends.
    pub fn selection_event(&self, order: usize) -> (r: Event)
        ensures
            r == selection_event(self.selection, order),
    {
        match self.selection {
            Selection::Fielder => Event::ComponentEvent(
                ComponentEvent::SubcomponentEvent(
                    SubcomponentEvent::FielderSelectEvent(FielderSelectEvent::FielderSelected(order)),
                ),
            ),
            Selection::RunoutBatter => Event::ComponentEvent(
                ComponentEvent::SubcomponentEvent(
                    SubcomponentEvent::RunoutSelectEvent(RunoutSelectEvent::BatterSelectEvent(order)),
                ),
            ),
            Selection::RunoutFielder => Event::ComponentEvent(
                ComponentEvent::SubcomponentEvent(
                    SubcomponentEvent::RunoutSelectEvent(RunoutSelectEvent::FielderSelectEvent(order)),
                ),
            ),
        }
    }

    /// A catch can be recorded only once its fielder is picked.
    pub fn can_submit(&self) -> (r: bool)
        ensures
            r == self.selected_player is Some,
    {
        self.selected_player.is_some()
    }

    pub fn get_value(&self) -> (r: Option<WicketSubcomponentData>)
        ensures
            r == match self.selected_player {
                Some(p) => Some(WicketSubcomponentData::CaughtSubcomponent(p)),
                None => None,
            },
    {
        match self.selected_player {
            Some(p) => Some(WicketSubcomponentData::CaughtSubcomponent(p)),
            None => None,
        }
    }
}

} // verus!
