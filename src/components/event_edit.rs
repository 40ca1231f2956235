use vstd::prelude::*;
use crate::components::{AsEvent, ComponentEvent, Event};

verus! {

/// The edit menu beside one log entry.
#[derive(Clone, Copy, Debug, PartialEq, Eq, Structural)]
pub struct EventEdit {
    pub event_index: usize,
}

#[derive(Clone, Copy, Debug, PartialEq, Eq, Structural)]
pub enum EventEditEvent {
    EventDeleted(usize),
}

impl AsEvent for EventEditEvent {
    fn as_event(self) -> Event {
        Event::ComponentEvent(ComponentEvent::EventEditEvent(self))
    }
}

impl EventEditEvent {
    /// Name shown for the choice.
    pub fn label(&self) -> (r: &'static str)
        ensures
            r@ == "Delete"@,
    {
        proof {
            reveal_strlit("Delete");
        }
        "Delete"
    }
}

impl EventEdit {
    pub fn new(event_index: usize) -> (r: Self)
        ensures
            r.event_index == event_index,
    {
        EventEdit { event_index }
    }

    /// The choices the menu offers for its entry.
    pub fn options(&self) -> (r: Vec<EventEditEvent>)
        ensures
            r@ == seq![EventEditEvent::EventDeleted(self.event_index)],
    {
        vec![EventEditEvent::EventDeleted(self.event_index)]
    }

    /// What choosing an option asks of the scorer.
    pub fn on_pick(&self, option: EventEditEvent) -> (r: Event)
        ensures
            r == Event::DeleteEvent(self.event_index),
    {
        Event::DeleteEvent(self.event_index)
    }
}

} // verus!
