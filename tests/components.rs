use scricket::components::batter_select::{BatterSelect, BatterSelectEvent};
use scricket::components::bowler_select::{BowlerSelect, BowlerSelectEvent};
use scricket::components::event_edit::{EventEdit, EventEditEvent};
use scricket::components::extra_select::{ExtraSelect, ExtraSelectEvent};
use scricket::components::innings_select::{InningsSelect, InningsSelectEvent};
use scricket::components::runout_select::RunoutSelectEvent;
use scricket::components::runs_button::{RunsButton, RunsButtonEvent};
use scricket::components::start::{Start, StartEvent};
use scricket::components::team_entry::{TeamEntry, TeamEntryEvent};
use scricket::components::wicket_select::{
    resolve_wicket, WicketError, WicketSelect, WicketSelectEvent, WicketSubcomponentData,
};
use scricket::components::{Event, SubcomponentEvent};
use scricket::game_state::GameState;
use scricket::page::Page;
use scricket::team::TeamType;
use scricket::wickets::HowOut;

fn enter_side(entry: &mut TeamEntry, g: &mut GameState, name: &str) -> Option<Page> {
    for i in 0..11 {
        entry.update(TeamEntryEvent::FirstNameChanged(format!("F{}", i)), g);
        entry.update(TeamEntryEvent::LastNameChanged(format!("L{}", i)), g);
        entry.update(TeamEntryEvent::SubmitName, g);
    }
    assert!(TeamEntry::can_confirm(g));
    entry.update(TeamEntryEvent::TeamNameChanged(name.to_string()), g);
    entry.update(TeamEntryEvent::SubmitTeam, g)
}

fn started_game() -> GameState {
    let mut g = GameState::new();
    let mut entry = TeamEntry::new();
    assert_eq!(enter_side(&mut entry, &mut g, "Home"), None);
    assert_eq!(enter_side(&mut entry, &mut g, "Away"), Some(Page::SelectInnings));
    let mut innings = InningsSelect::new();
    innings.update(InningsSelectEvent::InningsSelected(0), &mut g);
    assert_eq!(innings.update(InningsSelectEvent::SubmitInnings, &mut g), Some(Page::SelectBatter));
    let mut batters = BatterSelect::new();
    batters.update(BatterSelectEvent::BatterSelected(0), &mut g);
    assert_eq!(batters.update(BatterSelectEvent::SubmitBatter, &mut g), None);
    batters.update(BatterSelectEvent::BatterSelected(1), &mut g);
    assert_eq!(batters.update(BatterSelectEvent::SubmitBatter, &mut g), Some(Page::SelectBowler));
    let mut bowler = BowlerSelect::new(&g);
    bowler.update(BowlerSelectEvent::BowlerSelected(3), &mut g);
    assert_eq!(bowler.update(BowlerSelectEvent::SubmitBowler, &mut g), Some(Page::Scoring));
    g
}

#[test]
fn start_goes_to_team_entry() {
    let mut s = Start::new();
    assert_eq!(s.update(StartEvent::NewGame), Some(Page::TeamEntry));
}

#[test]
fn team_entry_fills_both_rosters() {
    let g = started_game();
    assert_eq!(g.team_a.team_name, "Home");
    assert_eq!(g.team_b.team_name, "Away");
    assert_eq!(g.team_a.players[4].first_name, "F4");
    assert_eq!(g.team_b.players[10].order, 10);
    assert_eq!(g.batting_team, TeamType::A);
    assert_eq!(g.bowler, Some(3));
}

#[test]
fn team_cannot_be_confirmed_short() {
    let mut g = GameState::new();
    let mut entry = TeamEntry::new();
    entry.update(TeamEntryEvent::FirstNameChanged("A".to_string()), &mut g);
    entry.update(TeamEntryEvent::SubmitName, &mut g);
    assert_eq!(entry.order, 1);
    assert_eq!(entry.first_name_input, "");
    assert!(!TeamEntry::can_confirm(&g));
}

#[test]
fn available_batters_leave_out_those_at_the_crease() {
    let g = started_game();
    assert_eq!(BatterSelect::available_batters(&g), (2..11).collect::<Vec<usize>>());
}

#[test]
fn caught_needs_a_fielder_to_resolve() {
    assert_eq!(resolve_wicket(HowOut::Caught, Some(3), None).unwrap_err(), WicketError::MissingFielder);
    let w = resolve_wicket(HowOut::Caught, Some(3), Some(WicketSubcomponentData::CaughtSubcomponent(7))).unwrap();
    assert_eq!((w.how_out, w.bowler, w.fielder, w.batter), (HowOut::Caught, Some(3), Some(7), None));
}

#[test]
fn run_out_names_its_batter() {
    let w = resolve_wicket(
        HowOut::RunOut,
        Some(3),
        Some(WicketSubcomponentData::RunoutSubcomponent((1, None))),
    )
    .unwrap();
    assert_eq!((w.how_out, w.fielder, w.batter), (HowOut::RunOut, None, Some(1)));
    let w = resolve_wicket(
        HowOut::RunOut,
        Some(3),
        Some(WicketSubcomponentData::RunoutSubcomponent((0, Some(2)))),
    )
    .unwrap();
    assert_eq!((w.fielder, w.batter), (Some(2), Some(0)));
    assert_eq!(resolve_wicket(HowOut::RunOut, None, None).unwrap_err(), WicketError::MissingBatter);
    let w = resolve_wicket(HowOut::Bowled, Some(3), None).unwrap();
    assert_eq!((w.fielder, w.batter), (None, None));
}

#[test]
fn wicket_screen_catch() {
    let mut g = started_game();
    let mut ws = WicketSelect::new();
    ws.update(WicketSelectEvent::HowOutSelected(4), &mut g);
    assert!(!ws.can_submit());
    ws.update_subcomponent(SubcomponentEvent::FielderSelectEvent(
        scricket::components::fielder_select::FielderSelectEvent::FielderSelected(6),
    ));
    assert!(ws.can_submit());
    assert_eq!(ws.update(WicketSelectEvent::SubmitWicket, &mut g), Some(Page::SelectBatter));
    assert_eq!(g.team_a.players[0].how_out, HowOut::Caught);
    assert_eq!(g.team_a.players[0].wicket_details.unwrap().fielder, Some(6));
    assert_eq!(g.team_a.players[0].wicket_details.unwrap().bowler, Some(3));
}

#[test]
fn wicket_screen_refuses_a_catch_without_fielder() {
    let mut g = started_game();
    let logged = g.events.len();
    let mut ws = WicketSelect::new();
    ws.update(WicketSelectEvent::HowOutSelected(4), &mut g);
    assert!(!ws.can_submit());
    assert_eq!(ws.update(WicketSelectEvent::SubmitWicket, &mut g), None);
    assert_eq!(g.events.len(), logged);
    assert_eq!(g.team_a.wickets, 0);
    assert_eq!(g.team_a.players[0].how_out, HowOut::NotOut);
}

#[test]
fn wicket_screen_run_out_of_non_striker() {
    let mut g = started_game();
    let mut ws = WicketSelect::new();
    ws.update(WicketSelectEvent::HowOutSelected(5), &mut g);
    assert!(ws.can_submit());
    ws.update_subcomponent(SubcomponentEvent::RunoutSelectEvent(RunoutSelectEvent::BatterSelectEvent(1)));
    ws.update(WicketSelectEvent::SubmitWicket, &mut g);
    assert_eq!(g.team_a.players[1].how_out, HowOut::RunOut);
    assert_eq!(g.team_a.players[0].how_out, HowOut::NotOut);
    // the survivor is off strike; the replacement comes in on strike
    assert_eq!(g.on_strike_batter(), None);
    assert_eq!(g.off_strike_batter(), Some(0));
}

#[test]
fn extra_screen_records_the_extra() {
    let mut g = started_game();
    let mut es = ExtraSelect::new();
    es.update(ExtraSelectEvent::ExtraSelected(2), &mut g);
    assert_eq!(es.runs_button, Some(RunsButton::new(1)));
    assert_eq!(es.runs_button_runs, 1);
    es.update_runs(RunsButtonEvent::Add);
    es.update_runs(RunsButtonEvent::Add);
    assert_eq!(es.runs_button_runs, 3);
    assert_eq!(es.update(ExtraSelectEvent::SubmitExtra, &mut g), Some(Page::Scoring));
    assert_eq!(g.team_a.extras.byes, 3);
    assert_eq!(g.team_a.runs, 3);
    assert_eq!(g.on_strike_batter(), Some(1));
}

#[test]
fn extra_screen_records_the_shown_minimum() {
    let mut g = started_game();
    let mut es = ExtraSelect::new();
    es.update(ExtraSelectEvent::ExtraSelected(3), &mut g);
    es.update(ExtraSelectEvent::SubmitExtra, &mut g);
    assert_eq!(g.team_a.extras.leg_byes, 1);
    assert_eq!(g.team_a.runs, 1);
}

#[test]
fn runs_button_stays_at_or_above_minimum() {
    let mut b = RunsButton::new(1);
    b.update(RunsButtonEvent::Subtract);
    assert_eq!(b.runs, 1);
    b.update(RunsButtonEvent::Add);
    b.update(RunsButtonEvent::Add);
    b.update(RunsButtonEvent::Subtract);
    assert_eq!(b.runs, 2);
}

#[test]
fn bowler_screen_starts_with_the_bowler_before_last() {
    let mut g = started_game();
    for _ in 0..6 {
        g.update(scricket::event::GameEvent::Runs(0));
    }
    let mut bs = BowlerSelect::new(&g);
    assert_eq!(bs.selected_player, None);
    bs.update(BowlerSelectEvent::BowlerSelected(8), &mut g);
    bs.update(BowlerSelectEvent::SubmitBowler, &mut g);
    for _ in 0..6 {
        g.update(scricket::event::GameEvent::Runs(0));
    }
    let bs = BowlerSelect::new(&g);
    assert_eq!(bs.selected_player, Some(3));
}

#[test]
fn innings_selection_maps_to_sides() {
    let mut s = InningsSelect::new();
    let mut g = GameState::new();
    assert_eq!(s.selection_to_team_type(), None);
    s.update(InningsSelectEvent::InningsSelected(1), &mut g);
    assert_eq!(s.selection_to_team_type(), Some(TeamType::B));
    s.update(InningsSelectEvent::InningsSelected(2), &mut g);
    assert_eq!(s.selection_to_team_type(), None);
}

#[test]
fn event_edit_offers_delete() {
    let e = EventEdit::new(4);
    assert_eq!(e.options(), vec![EventEditEvent::EventDeleted(4)]);
    assert!(matches!(e.on_pick(EventEditEvent::EventDeleted(4)), Event::DeleteEvent(4)));
    assert_eq!(EventEditEvent::EventDeleted(4).label(), "Delete");
}
