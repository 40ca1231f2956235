//! The choices a scorer makes between deliveries (who bats, who bowls, how a
//! batter got out, which extra), each as a small state machine that turns
//! its own events into events of the match.

pub mod batter_select;
pub mod bowler_select;
pub mod event_edit;
pub mod extra_select;
pub mod fielder_select;
pub mod innings_select;
pub mod runout_select;
pub mod runs_button;
pub mod start;
pub mod team_entry;
pub mod wicket_select;

use vstd::prelude::*;
use crate::event::GameEvent;
use crate::page::Page;

use event_edit::EventEditEvent;

use batter_select::BatterSelectEvent;
use bowler_select::BowlerSelectEvent;
use extra_select::ExtraSelectEvent;
use fielder_select::FielderSelectEvent;
use innings_select::InningsSelectEvent;
use runout_select::RunoutSelectEvent;
use runs_button::RunsButtonEvent;
use start::StartEvent;
use team_entry::TeamEntryEvent;
use wicket_select::WicketSelectEvent;

verus! {

/// Everything the scorer's screens can ask for.
#[derive(Clone, Debug)]
pub enum Event {
    ComponentEvent(ComponentEvent),
    GameEvent(GameEvent),
    LoadGame,
    SaveGame,
    ChangePage(Page),
    Undo,
    DeleteEvent(usize),
}

/// An event for the component on screen.
#[derive(Clone, Debug)]
pub enum ComponentEvent {
    BatterSelectEvent(BatterSelectEvent),
    BowlerSelectEvent(BowlerSelectEvent),
    StartEvent(StartEvent),
    TeamEntryEvent(TeamEntryEvent),
    WicketSelectEvent(WicketSelectEvent),
    ExtraSelectEvent(ExtraSelectEvent),
    RunsButtonEvent(RunsButtonEvent),
    InningsSelectEvent(InningsSelectEvent),
    SubcomponentEvent(SubcomponentEvent),
    EventEditEvent(EventEditEvent),
}

/// An event for a part nested in the component on screen.
#[derive(Clone, Debug)]
pub enum SubcomponentEvent {
    FielderSelectEvent(FielderSelectEvent),
    RunoutSelectEvent(RunoutSelectEvent),
}

/// A component's own event, wrapped as an event of the whole scorer.
pub trait AsEvent {
    fn as_event(self) -> Event;
}

} // verus!
