use vstd::prelude::*;
use crate::components::{AsEvent, ComponentEvent, Event};
use crate::event::GameEvent;
use crate::game_state::GameState;
use crate::page::Page;
use crate::player::Player;
use crate::team::TeamType;

verus! {

/// Players a side must have before it can be confirmed.
pub const FULL_SIDE: usize = 11;

/// Entry of one side's players, then of its name.
pub struct TeamEntry {
    pub first_name_input: String,
    pub last_name_input: String,
    pub team_name_input: String,
    pub order: usize,
}

#[derive(Clone, Debug)]
pub enum TeamEntryEvent {
    FirstNameChanged(String),
    LastNameChanged(String),
    TeamNameChanged(String),
    SubmitName,
    SubmitTeam,
}

impl AsEvent for TeamEntryEvent {
    fn as_event(self) -> Event {
        Event::ComponentEvent(ComponentEvent::TeamEntryEvent(self))
    }
}

impl TeamEntry {
    pub fn new() -> (r: Self)
        ensures
            r.first_name_input@ == Seq::<char>::empty(),
            r.last_name_input@ == Seq::<char>::empty(),
            r.team_name_input@ == Seq::<char>::empty(),
            r.order == 0,
    {
        TeamEntry {
            first_name_input: String::new(),
            last_name_input: String::new(),
            team_name_input: String::new(),
            order: 0,
        }
    }

    /// A side can be confirmed once it has a full eleven.
    pub fn can_confirm(game_state: &GameState) -> (r: bool)
        ensures
            r == (game_state@.batting().players.len() >= FULL_SIDE),
    {
        game_state.team_length() >= FULL_SIDE
    }

    /// Typing fills the inputs. Submitting a name adds that player to the
    /// side being entered, with the next roster order. Submitting the side
    /// names it and moves on to the other side; after the second side the
    /// scorer picks who bats first.
    pub fn update(&mut self, event: TeamEntryEvent, game_state: &mut GameState) -> (r: Option<Page>)
        requires
            event is SubmitName ==> old(self).order < usize::MAX,
        ensures
            match event {
                TeamEntryEvent::FirstNameChanged(s) => {
                    &&& r is None
                    &&& final(self).first_name_input == s
                    &&& final(game_state)@ == old(game_state)@
                },
                TeamEntryEvent::LastNameChanged(s) => {
                    &&& r is None
                    &&& final(self).last_name_input == s
                    &&& final(game_state)@ == old(game_state)@
                },
                TeamEntryEvent::TeamNameChanged(s) => {
                    &&& r is None
                    &&& final(self).team_name_input == s
                    &&& final(game_state)@ == old(game_state)@
                },
                TeamEntryEvent::SubmitName => {
                    &&& r is None
                    &&& final(self).order == old(self).order + 1
                    &&& final(self).first_name_input@ == Seq::<char>::empty()
                    &&& final(self).last_name_input@ == Seq::<char>::empty()
                    &&& exists|p: Player|
                        {
                            &&& #[trigger] p.is_new(
                                old(self).first_name_input@,
                                old(self).last_name_input@,
                                old(self).order,
                            )
                            &&& final(game_state)@ == old(game_state)@.step(GameEvent::AddPlayer(p)).0
                        }
                },
                TeamEntryEvent::SubmitTeam => {
                    &&& r == if old(game_state)@.batting_team == TeamType::B {
                        Some(Page::SelectInnings)
                    } else {
                        None
                    }
                    &&& final(self).order == 0
                    &&& final(self).team_name_input@ == Seq::<char>::empty()
                    &&& final(game_state)@ == old(game_state)@.step(
                        GameEvent::SubmitTeam(old(self).team_name_input),
                    ).0
                },
            },
    {
        match event {
            TeamEntryEvent::FirstNameChanged(s) => {
                self.first_name_input = s;
                None
            },
            TeamEntryEvent::LastNameChanged(s) => {
                self.last_name_input = s;
                None
            },
            TeamEntryEvent::TeamNameChanged(s) => {
                self.team_name_input = s;
                None
            },
            TeamEntryEvent::SubmitName => {
                let player = Player::new(
                    self.first_name_input.as_str(),
                    self.last_name_input.as_str(),
                    self.order,
                );
                game_state.update(GameEvent::AddPlayer(player));
                self.first_name_input = String::new();
                self.last_name_input = String::new();
                self.order = self.order + 1;
                None
            },
            TeamEntryEvent::SubmitTeam => {
                let page = if game_state.batting_team == TeamType::B {
                    Some(Page::SelectInnings)
                } else {
                    None
                };
                game_state.update(GameEvent::SubmitTeam(self.team_name_input.clone()));
                self.order = 0;
                self.team_name_input = String::new();
                page
            },
        }
    }
}

} // verus!
