use vstd::prelude::*;
use crate::components::{AsEvent, ComponentEvent, Event};

verus! {

/// A counter of runs that cannot go below a minimum.
#[derive(Clone, Copy, Debug, PartialEq, Eq, Structural)]
pub struct RunsButton {
    pub runs: u32,
    pub minimum_runs: u32,
}

#[derive(Clone, Copy, Debug, PartialEq, Eq, Structural)]
pub enum RunsButtonEvent {
    Add,
    Subtract,
}

impl AsEvent for RunsButtonEvent {
    fn as_event(self) -> Event {
        Event::ComponentEvent(ComponentEvent::RunsButtonEvent(self))
    }
}

impl RunsButton {
    pub fn new(minimum_runs: u32) -> (r: Self)
        ensures
            r == (RunsButton { runs: minimum_runs, minimum_runs }),
    {
        RunsButton { runs: minimum_runs, minimum_runs }
    }

    /// One more run, or one fewer but never under the minimum.
    pub fn update(&mut self, event: RunsButtonEvent)
        requires
            event == RunsButtonEvent::Add ==> old(self).runs < u32::MAX,
        ensures
            final(self).minimum_runs == old(self).minimum_runs,
            final(self).runs == match event {
                RunsButtonEvent::Add => old(self).runs + 1,
                RunsButtonEvent::Subtract => if old(self).runs > old(self).minimum_runs {
                    old(self).runs - 1
                } else {
                    old(self).minimum_runs as int
                },
            },
    {
        match event {
            RunsButtonEvent::Add => self.runs = self.runs + 1,
            RunsButtonEvent::Subtract => {
                self.runs = if self.runs > self.minimum_runs {
                    self.runs - 1
                } else {
                    self.minimum_runs
                };
            },
        }
    }
}

} // verus!
