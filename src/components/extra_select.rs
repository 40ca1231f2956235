use vstd::prelude::*;
use crate::components::runs_button::{RunsButton, RunsButtonEvent};
use crate::components::{AsEvent, ComponentEvent, Event};
use crate::event::GameEvent;
use crate::extras::{extra_type_list, Extra, ExtraType};
use crate::game_state::GameState;
use crate::page::Page;

verus! {

/// Picks the kind of an extra and the runs that go with it.
pub struct ExtraSelect {
    pub selected_extra: Option<usize>,
    pub runs_button: Option<RunsButton>,
    pub runs_button_runs: u32,
}

#[derive(Clone, Copy, Debug, PartialEq, Eq, Structural)]
pub enum ExtraSelectEvent {
    ExtraSelected(usize),
    SubmitExtra,
}

impl AsEvent for ExtraSelectEvent {
    fn as_event(self) -> Event {
        Event::ComponentEvent(ComponentEvent::ExtraSelectEvent(self))
    }
}

impl ExtraSelect {
    pub fn new() -> (r: Self)
        ensures
            r.selected_extra is None,
            r.runs_button is None,
            r.runs_button_runs == 0,
    {
        ExtraSelect { selected_extra: None, runs_button: None, runs_button_runs: 0 }
    }

    /// The extra that submitting now would record.
    pub open spec fn pending(self) -> Extra {
        Extra { runs: self.runs_button_runs, extra_type: extra_type_list()[self.selected_extra->0 as int] }
    }

    /// Picking a kind sets the runs counter, and the runs to record, to that
    /// kind's minimum;
    /// submitting records the extra and goes back to scoring.
    pub fn update(&mut self, event: ExtraSelectEvent, game_state: &mut GameState) -> (r: Option<Page>)
        requires
            event matches ExtraSelectEvent::ExtraSelected(i) ==> i < extra_type_list().len(),
            event == ExtraSelectEvent::SubmitExtra ==> {
                &&& old(self).selected_extra is Some
                &&& old(self).selected_extra->0 < extra_type_list().len()
                &&& old(game_state)@.accepts(GameEvent::Extra(old(self).pending()))
            },
        ensures
            match event {
                ExtraSelectEvent::ExtraSelected(i) => {
                    let t = extra_type_list()[i as int];
                    let minimum: u32 = if t is Wide || t is NoBall { 0 } else { 1 };
                    &&& r is None
                    &&& final(self).selected_extra == Some(i)
                    &&& final(self).runs_button == Some(RunsButton { runs: minimum, minimum_runs: minimum })
                    &&& final(self).runs_button_runs == minimum
                    &&& final(game_state)@ == old(game_state)@
                },
                ExtraSelectEvent::SubmitExtra => {
                    &&& r == Some(Page::Scoring)
                    &&& final(game_state)@ == old(game_state)@.step(GameEvent::Extra(old(self).pending())).0
                },
            },
    {
        match event {
            ExtraSelectEvent::ExtraSelected(i) => {
                self.selected_extra = Some(i);
                let extra_type = ExtraType::all()[i];
                let minimum = extra_type.minimum_runs();
                self.runs_button = Some(RunsButton::new(minimum));
                self.runs_button_runs = minimum;
                None
            },
            ExtraSelectEvent::SubmitExtra => {
                let extra_type = ExtraType::all()[self.selected_extra.unwrap()];
                let extra = Extra::new(self.runs_button_runs, extra_type);
                game_state.update(GameEvent::Extra(extra));
                Some(Page::Scoring)
            },
        }
    }

    /// Passes a press of the runs counter on, and keeps its value.
    pub fn update_runs(&mut self, event: RunsButtonEvent)
        requires
            old(self).runs_button is Some,
            event == RunsButtonEvent::Add ==> old(self).runs_button->0.runs < u32::MAX,
        ensures
            final(self).runs_button is Some,
            final(self).runs_button_runs == final(self).runs_button->0.runs,
            final(self).runs_button->0.minimum_runs == old(self).runs_button->0.minimum_runs,
            final(self).runs_button->0.runs == match event {
                RunsButtonEvent::Add => old(self).runs_button->0.runs + 1,
                RunsButtonEvent::Subtract => if old(self).runs_button->0.runs
                    > old(self).runs_button->0.minimum_runs {
                    old(self).runs_button->0.runs - 1
                } else {
                    old(self).runs_button->0.minimum_runs as int
                },
            },
            final(self).selected_extra == old(self).selected_extra,
    {
        let mut button = self.runs_button.unwrap();
        button.update(event);
        self.runs_button = Some(button);
        self.runs_button_runs = button.runs;
    }
}

} // verus!
