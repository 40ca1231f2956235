use vstd::prelude::*;
use crate::components::{AsEvent, ComponentEvent, Event};
use crate::page::Page;

verus! {

/// The opening screen.
pub struct Start {}

#[derive(Clone, Copy, Debug, PartialEq, Eq, Structural)]
pub enum StartEvent {
    NewGame,
}

impl AsEvent for StartEvent {
    fn as_event(self) -> Event {
        Event::ComponentEvent(ComponentEvent::StartEvent(self))
    }
}

impl Start {
    pub fn new() -> (r: Self)
        ensures
            r == (Start {}),
    {
        Start {}
    }

    /// A new game goes to entering the teams.
    pub fn update(&mut self, event: StartEvent) -> (r: Option<Page>)
        ensures
            r == Some(Page::TeamEntry),
    {
        match event {
            StartEvent::NewGame => Some(Page::TeamEntry),
        }
    }
}

} // verus!
