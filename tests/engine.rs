use scricket::event::GameEvent;
use scricket::extras::{Extra, ExtraType, Extras};
use scricket::game_state::{GameState, ReplaceBatter};
use scricket::overs::Overs;
use scricket::page::Page;
use scricket::player::{Player, PlayerType};
use scricket::team::TeamType;
use scricket::wickets::{HowOut, WicketEvent};

fn entry_events() -> Vec<GameEvent> {
    let mut events = Vec::new();
    for side in ["Home", "Away"] {
        for i in 0..11usize {
            events.push(GameEvent::AddPlayer(Player::new(side, &format!("Player{}", i), i)));
        }
        events.push(GameEvent::SubmitTeam(side.to_string()));
    }
    events.push(GameEvent::StartInnings(TeamType::A));
    events.push(GameEvent::SelectOnStrike(0));
    events.push(GameEvent::SelectOffStrike(1));
    events.push(GameEvent::SelectBowler(0));
    events
}

fn ready_game() -> GameState {
    let mut g = GameState::new();
    for e in entry_events() {
        assert!(g.accepts(&e));
        g.update(e);
    }
    g
}

fn apply(g: &mut GameState, e: GameEvent) -> Option<Page> {
    assert!(g.accepts(&e));
    g.update(e)
}

#[test]
fn team_policy_counter_does_not_roll_over() {
    let mut o = Overs::new();
    for _ in 0..6 {
        o.add_ball();
    }
    assert_eq!(o, Overs { overs: 0, balls: 6 });
    o.end_over();
    assert_eq!(o, Overs { overs: 1, balls: 0 });
}

#[test]
fn bowler_policy_counter_rolls_over_at_six() {
    let mut o = Overs::new();
    for _ in 0..5 {
        o.add_ball_bowler();
    }
    assert_eq!(o, Overs { overs: 0, balls: 5 });
    o.add_ball_bowler();
    assert_eq!(o, Overs { overs: 1, balls: 0 });
}

#[test]
fn end_over_rolls_even_a_short_over() {
    let mut o = Overs { overs: 3, balls: 2 };
    o.end_over();
    assert_eq!(o, Overs { overs: 4, balls: 0 });
}

#[test]
fn extras_ledger_routes_by_kind() {
    let mut e = Extras::new();
    e.add_extra(&Extra::new(2, ExtraType::Wide));
    e.add_extra(&Extra::new(4, ExtraType::NoBall));
    e.add_extra(&Extra::new(3, ExtraType::Bye));
    e.add_extra(&Extra::new(1, ExtraType::LegBye));
    e.add_extra(&Extra::new(5, ExtraType::PenaltyRuns));
    assert_eq!(e, Extras { wides: 3, no_balls: 1, byes: 3, leg_byes: 1, penalty_runs: 0 });
}

#[test]
fn setup_binds_batters_and_bowler() {
    let g = ready_game();
    assert_eq!(g.team_a.team_name, "Home");
    assert_eq!(g.team_b.team_name, "Away");
    assert_eq!(g.team_a.players.len(), 11);
    assert_eq!(g.batting_team, TeamType::A);
    assert_eq!(g.on_strike_batter(), Some(0));
    assert_eq!(g.off_strike_batter(), Some(1));
    assert_eq!(g.bowler, Some(0));
    assert_eq!(g.batter_to_replace(), None);
    assert_eq!(g.team_a.players[0].how_out, HowOut::NotOut);
    assert_eq!(g.team_a.players[0].batting_order, Some(0));
    assert_eq!(g.team_b.players[0].bowling_order, Some(0));
    assert_eq!(g.events.len(), 28);
    assert_eq!(g.event_history.len(), 28);
}

#[test]
fn odd_runs_change_strike_and_even_do_not() {
    let mut g = ready_game();
    assert_eq!(apply(&mut g, GameEvent::Runs(2)), None);
    assert_eq!(g.on_strike_batter(), Some(0));
    assert_eq!(apply(&mut g, GameEvent::Runs(3)), None);
    assert_eq!(g.on_strike_batter(), Some(1));
    assert_eq!(g.team_a.runs, 5);
    assert_eq!(g.team_a.players[0].runs_scored, 5);
    assert_eq!(g.team_a.players[0].balls_faced, 2);
    assert_eq!(g.team_b.players[0].runs_conceded, 5);
    assert_eq!(g.team_b.players[0].overs_bowled, Overs { overs: 0, balls: 2 });
    assert_eq!(g.team_a.overs, Overs { overs: 0, balls: 2 });
}

#[test]
fn strike_parity_over_a_run_of_shots() {
    let mut g = ready_game();
    for n in [1u32, 4, 3, 1, 6] {
        apply(&mut g, GameEvent::Runs(n));
    }
    // three odd values: the batters have changed ends
    assert_eq!(g.on_strike_batter(), Some(1));
    assert_eq!(g.off_strike_batter(), Some(0));
}

#[test]
fn six_balls_complete_the_over() {
    let mut g = ready_game();
    for _ in 0..5 {
        assert_eq!(apply(&mut g, GameEvent::Runs(0)), None);
    }
    assert_eq!(apply(&mut g, GameEvent::Runs(0)), Some(Page::SelectBowler));
    assert_eq!(g.team_a.overs, Overs { overs: 1, balls: 0 });
    assert_eq!(g.bowler, None);
    assert_eq!(g.last_bowler, Some(0));
    assert_eq!(g.on_strike_batter(), Some(1));
    assert_eq!(g.team_b.players[0].overs_bowled, Overs { overs: 1, balls: 0 });
    match g.events.last() {
        Some(GameEvent::EndOver(s)) => {
            assert_eq!(s.runs, 0);
            assert_eq!(s.overs, Overs { overs: 1, balls: 0 });
        }
        other => panic!("expected an end of over, got {:?}", other),
    }
    assert!(!g.accepts(&GameEvent::Runs(1)));
}

#[test]
fn a_bye_can_be_the_sixth_ball() {
    let mut g = ready_game();
    for _ in 0..5 {
        apply(&mut g, GameEvent::Runs(0));
    }
    let hint = apply(&mut g, GameEvent::Extra(Extra::new(1, ExtraType::Bye)));
    assert_eq!(hint, Some(Page::SelectBowler));
    assert_eq!(g.team_a.overs, Overs { overs: 1, balls: 0 });
    assert_eq!(g.bowler, None);
}

#[test]
fn a_wicket_can_be_the_sixth_ball() {
    let mut g = ready_game();
    for _ in 0..5 {
        apply(&mut g, GameEvent::Runs(0));
    }
    let hint = apply(&mut g, GameEvent::Wicket(WicketEvent::new(HowOut::Bowled, Some(0), None)));
    assert_eq!(hint, Some(Page::SelectBowler));
    assert_eq!(g.team_a.overs, Overs { overs: 1, balls: 0 });
    assert_eq!(g.team_a.wickets, 1);
}

#[test]
fn wide_of_two_scores_three_and_keeps_strike() {
    let mut g = ready_game();
    assert_eq!(g.team_a.runs, 0);
    assert_eq!(g.team_a.wickets, 0);
    apply(&mut g, GameEvent::Extra(Extra::new(2, ExtraType::Wide)));
    assert_eq!(g.team_a.runs, 3);
    assert_eq!(g.team_a.extras.wides, 3);
    assert_eq!(g.team_a.overs, Overs { overs: 0, balls: 0 });
    assert_eq!(g.on_strike_batter(), Some(0));
    assert_eq!(g.team_a.players[0].balls_faced, 0);
    assert_eq!(g.team_b.players[0].overs_bowled, Overs { overs: 0, balls: 0 });
    assert_eq!(g.team_b.players[0].extras.wides, 3);
    assert_eq!(g.team_b.players[0].runs_conceded, 0);
}

#[test]
fn no_ball_runs_go_to_the_batter() {
    let mut g = ready_game();
    apply(&mut g, GameEvent::Extra(Extra::new(1, ExtraType::NoBall)));
    assert_eq!(g.team_a.runs, 2);
    assert_eq!(g.team_a.extras.no_balls, 1);
    assert_eq!(g.team_a.players[0].runs_scored, 1);
    assert_eq!(g.team_a.players[0].balls_faced, 1);
    assert_eq!(g.team_a.overs.balls, 0);
    assert_eq!(g.on_strike_batter(), Some(1));
}

#[test]
fn leg_byes_are_a_legal_ball_but_not_batter_runs() {
    let mut g = ready_game();
    apply(&mut g, GameEvent::Extra(Extra::new(2, ExtraType::LegBye)));
    assert_eq!(g.team_a.runs, 2);
    assert_eq!(g.team_a.extras.leg_byes, 2);
    assert_eq!(g.team_a.players[0].runs_scored, 0);
    assert_eq!(g.team_a.players[0].balls_faced, 1);
    assert_eq!(g.team_a.overs.balls, 1);
    assert_eq!(g.team_b.players[0].overs_bowled.balls, 1);
}

#[test]
fn penalty_runs_go_to_the_total_only() {
    let mut g = ready_game();
    apply(&mut g, GameEvent::Extra(Extra::new(5, ExtraType::PenaltyRuns)));
    assert_eq!(g.team_a.runs, 5);
    assert_eq!(g.team_a.extras, Extras::new());
    assert_eq!(g.on_strike_batter(), Some(1));
}

#[test]
fn wicket_records_dismissal_and_empties_the_slot() {
    let mut g = ready_game();
    let hint = apply(&mut g, GameEvent::Wicket(WicketEvent::new(HowOut::Caught, Some(0), Some(4))));
    assert_eq!(hint, None);
    assert_eq!(g.team_a.wickets, 1);
    assert_eq!(g.team_a.players[0].how_out, HowOut::Caught);
    let details = g.team_a.players[0].wicket_details.unwrap();
    assert_eq!((details.bowler, details.fielder), (Some(0), Some(4)));
    assert_eq!(g.team_b.players[0].wickets_taken, 1);
    assert_eq!(g.on_strike_batter(), None);
    assert_eq!(g.batter_to_replace(), Some(ReplaceBatter::OnStrike));
    assert!(!g.accepts(&GameEvent::Runs(1)));
    apply(&mut g, GameEvent::SelectOnStrike(2));
    assert_eq!(g.team_a.players[2].batting_order, Some(2));
    assert_eq!(g.batter_to_replace(), None);
}

#[test]
fn caught_without_fielder_is_refused() {
    let g = ready_game();
    assert!(!g.accepts(&GameEvent::Wicket(WicketEvent::new(HowOut::Caught, Some(0), None))));
    assert!(g.accepts(&GameEvent::Wicket(WicketEvent::new(HowOut::Bowled, Some(0), None))));
}

#[test]
fn fielder_must_be_on_the_fielding_side() {
    let g = ready_game();
    assert!(!g.accepts(&GameEvent::Wicket(WicketEvent::new(HowOut::Caught, Some(0), Some(11)))));
    assert!(g.accepts(&GameEvent::Wicket(WicketEvent::new(HowOut::Caught, Some(0), Some(10)))));
    assert!(!g.accepts(&GameEvent::Wicket(WicketEvent::run_out(Some(0), Some(40), 0))));
}

fn innings_of_ten_wickets(g: &mut GameState) {
    let mut next = 2usize;
    for _ in 0..10 {
        if g.bowler.is_none() {
            apply(g, GameEvent::SelectBowler(1));
        }
        apply(g, GameEvent::Runs(1));
        if g.bowler.is_none() {
            apply(g, GameEvent::SelectBowler(2));
        }
        apply(g, GameEvent::Wicket(WicketEvent::new(HowOut::Bowled, Some(0), None)));
        if next < 11 && g.batting_team == TeamType::A {
            match g.batter_to_replace() {
                Some(ReplaceBatter::OnStrike) => apply(g, GameEvent::SelectOnStrike(next)),
                Some(ReplaceBatter::OffStrike) => apply(g, GameEvent::SelectOffStrike(next)),
                None => None,
            };
            next += 1;
        }
    }
}

#[test]
fn a_saved_log_reads_back_to_the_same_match() {
    let mut live = ready_game();
    innings_of_ten_wickets(&mut live);
    assert_eq!(live.batting_team, TeamType::B);
    assert!(live.events.iter().any(|e| matches!(e, GameEvent::EndOver(_))));
    apply(&mut live, GameEvent::EndInnings);
    let back = GameState::from_log(live.events.clone()).unwrap();
    assert_eq!(back.events.len(), live.events.len());
    assert_eq!(format!("{:?}", back.events), format!("{:?}", live.events));
    assert_eq!(back.team_a.players, live.team_a.players);
    assert_eq!(back.team_b.players, live.team_b.players);
    assert_eq!(back.team_a.overs, live.team_a.overs);
    assert_eq!(back.team_a.wickets, 10);
    assert_eq!(back.batting_team, live.batting_team);
    assert_eq!(back.event_history, live.event_history);
    let again = GameState::from_log(back.events.clone()).unwrap();
    assert_eq!(again.events.len(), live.events.len());
}

#[test]
fn a_log_missing_a_derived_entry_is_refused() {
    let mut live = ready_game();
    for _ in 0..6 {
        apply(&mut live, GameEvent::Runs(0));
    }
    let mut log = live.events.clone();
    assert!(matches!(log.pop(), Some(GameEvent::EndOver(_))));
    assert!(GameState::from_log(log).is_none());
    let mut log = live.events.clone();
    log.push(GameEvent::Runs(4));
    assert!(GameState::from_log(log).is_none());
}

#[test]
fn scoring_needs_a_bowler_and_batters() {
    let g = GameState::new();
    assert!(!g.accepts(&GameEvent::Runs(1)));
    assert!(!g.accepts(&GameEvent::Extra(Extra::new(0, ExtraType::Wide))));
    assert!(!g.accepts(&GameEvent::SelectOnStrike(0)));
    assert!(g.accepts(&GameEvent::EndInnings));
}

#[test]
fn wickets_never_go_down_and_count_one_each() {
    let mut g = ready_game();
    let mut next = 2usize;
    for k in 1..=9u32 {
        apply(&mut g, GameEvent::Wicket(WicketEvent::new(HowOut::Bowled, Some(0), None)));
        assert_eq!(g.team_a.wickets, k);
        if g.bowler.is_none() {
            apply(&mut g, GameEvent::SelectBowler(1));
        }
        apply(&mut g, GameEvent::SelectOnStrike(next));
        next += 1;
        apply(&mut g, GameEvent::Runs(2));
        assert_eq!(g.team_a.wickets, k);
        if g.bowler.is_none() {
            apply(&mut g, GameEvent::SelectBowler(1));
        }
    }
}

#[test]
fn tenth_wicket_ends_the_innings() {
    let mut g = ready_game();
    let mut next = 2usize;
    for _ in 0..9 {
        apply(&mut g, GameEvent::Wicket(WicketEvent::new(HowOut::Bowled, Some(0), None)));
        if g.bowler.is_none() {
            apply(&mut g, GameEvent::SelectBowler(1));
        }
        apply(&mut g, GameEvent::SelectOnStrike(next));
        next += 1;
    }
    assert_eq!(g.team_a.wickets, 9);
    let hint = apply(&mut g, GameEvent::Wicket(WicketEvent::new(HowOut::Lbw, Some(0), None)));
    assert_eq!(hint, Some(Page::SelectBatter));
    assert_eq!(g.team_a.wickets, 10);
    assert_eq!(g.batting_team, TeamType::B);
    assert_eq!(g.batter_a, None);
    assert_eq!(g.batter_b, None);
    assert_eq!(g.bowler, None);
    assert_eq!(g.last_bowler, None);
    assert_eq!(g.on_strike_batter, PlayerType::A);
    let n = g.events.len();
    assert!(matches!(g.events[n - 3], GameEvent::Wicket(_)));
    assert!(matches!(g.events[n - 2], GameEvent::EndInnings));
    assert!(matches!(g.events[n - 1], GameEvent::StartInnings(TeamType::B)));
}

#[test]
fn second_bowler_gets_the_next_bowling_order() {
    let mut g = ready_game();
    for _ in 0..6 {
        apply(&mut g, GameEvent::Runs(1));
    }
    apply(&mut g, GameEvent::SelectBowler(5));
    assert_eq!(g.team_b.players[5].bowling_order, Some(1));
    for _ in 0..6 {
        apply(&mut g, GameEvent::Runs(0));
    }
    assert_eq!(g.last_last_bowler, Some(0));
    apply(&mut g, GameEvent::SelectBowler(0));
    assert_eq!(g.team_b.players[0].bowling_order, Some(0));
    assert_eq!(g.team_b.next_bowling_order(), 2);
    assert_eq!(g.team_b.bowled_players_in_order(), vec![0, 5]);
    assert_eq!(g.team_b.not_bowled_players(), vec![1, 2, 3, 4, 6, 7, 8, 9, 10]);
}

#[test]
fn bowling_card_orders_by_bowling_order() {
    let mut players = Vec::new();
    for (i, order) in [Some(2usize), None, Some(0), Some(1), None].iter().enumerate() {
        let mut p = Player::new("F", "L", i);
        p.bowling_order = *order;
        players.push(p);
    }
    let t = scricket::team::Team::new_with_players(players);
    assert_eq!(t.bowled_players_in_order(), vec![2, 3, 0]);
    assert_eq!(t.not_bowled_players(), vec![1, 4]);
    assert_eq!(t.highest_bowling_order(), Some(2));
    assert_eq!(t.next_bowling_order(), 3);
}

#[test]
fn replay_gives_the_live_state() {
    let mut events = entry_events();
    events.extend([
        GameEvent::Runs(1),
        GameEvent::Extra(Extra::new(2, ExtraType::Wide)),
        GameEvent::Runs(4),
        GameEvent::Wicket(WicketEvent::new(HowOut::Stumped, Some(0), None)),
        GameEvent::SelectOnStrike(2),
        GameEvent::Extra(Extra::new(1, ExtraType::Bye)),
        GameEvent::Runs(0),
        GameEvent::Runs(6),
    ]);
    let mut live = GameState::new();
    for e in events.iter() {
        apply(&mut live, e.clone());
    }
    let replayed = GameState::from_events(events.clone());
    assert_eq!(replayed.team_a.players, live.team_a.players);
    assert_eq!(replayed.team_b.players, live.team_b.players);
    assert_eq!(replayed.team_a.runs, live.team_a.runs);
    assert_eq!(replayed.team_a.wickets, live.team_a.wickets);
    assert_eq!(replayed.team_a.overs, live.team_a.overs);
    assert_eq!(replayed.team_a.extras, live.team_a.extras);
    assert_eq!(replayed.batter_a, live.batter_a);
    assert_eq!(replayed.batter_b, live.batter_b);
    assert_eq!(replayed.on_strike_batter, live.on_strike_batter);
    assert_eq!(replayed.bowler, live.bowler);
    assert_eq!(replayed.last_bowler, live.last_bowler);
    assert_eq!(replayed.event_history, live.event_history);
    assert_eq!(replayed.events.len(), live.events.len());
    assert_eq!(live.team_a.runs, 1 + 3 + 4 + 1 + 0 + 6);
    assert_eq!(live.team_a.overs, Overs { overs: 1, balls: 0 });
    assert_eq!(live.bowler, None);
}

#[test]
fn run_out_of_the_non_striker_changes_ends_and_replays() {
    let mut live = ready_game();
    apply(&mut live, GameEvent::Wicket(WicketEvent::run_out(Some(0), Some(5), 1)));
    assert_eq!(live.team_a.players[1].how_out, HowOut::RunOut);
    assert_eq!(live.team_a.players[0].how_out, HowOut::NotOut);
    assert_eq!(live.on_strike_batter(), None);
    assert_eq!(live.off_strike_batter(), Some(0));
    assert_eq!(live.batter_to_replace(), Some(ReplaceBatter::OnStrike));
    let replayed = GameState::from_events(live.events.clone());
    assert_eq!(replayed.batter_a, live.batter_a);
    assert_eq!(replayed.batter_b, live.batter_b);
    assert_eq!(replayed.on_strike_batter, live.on_strike_batter);
    assert_eq!(replayed.team_a.players, live.team_a.players);
}

#[test]
fn run_out_must_name_a_batter_at_the_crease() {
    let g = ready_game();
    assert!(!g.accepts(&GameEvent::Wicket(WicketEvent::run_out(Some(0), None, 7))));
    assert!(g.accepts(&GameEvent::Wicket(WicketEvent::run_out(Some(0), None, 0))));
}

#[test]
fn try_from_events_refuses_an_illegal_log() {
    let mut events = entry_events();
    events.push(GameEvent::SelectBowler(99));
    assert!(GameState::try_from_events(events).is_none());
    let ok = GameState::try_from_events(entry_events()).unwrap();
    assert_eq!(ok.bowler, Some(0));
}

#[test]
fn event_kinds() {
    assert!(GameEvent::Runs(3).is_ball());
    assert!(GameEvent::Extra(Extra::new(0, ExtraType::Wide)).is_ball());
    assert!(!GameEvent::EndInnings.is_ball());
    assert!(GameEvent::SubmitTeam("X".to_string()).is_setup_event());
    assert!(!GameEvent::Runs(1).is_setup_event());
}

#[test]
fn labels_of_values() {
    assert_eq!(HowOut::Lbw.label(), "LBW");
    assert_eq!(HowOut::HandledBall.label(), "Handled the ball");
    assert_eq!(ExtraType::NoBall.label(), "No ball");
    assert_eq!(HowOut::all().len(), 14);
    assert_eq!(ExtraType::all()[3], ExtraType::LegBye);
    assert_eq!(ExtraType::Bye.minimum_runs(), 1);
    assert_eq!(ExtraType::Wide.minimum_runs(), 0);
}

#[test]
fn player_starts_without_an_innings() {
    let p = Player::new("Ada", "Lovelace", 3);
    assert_eq!(p.first_name, "Ada");
    assert_eq!(p.last_name, "Lovelace");
    assert_eq!(p.how_out, HowOut::DidNotBat);
    assert_eq!(p.order, 3);
    assert_eq!(p.duplicate(), p);
}
