//! Scoring engine for a cricket match: the match state, the rules that turn
//! one submitted event into the next state, and replay of an event log.

pub mod overs;
pub mod extras;
pub mod wickets;
pub mod player;
pub mod summary;
pub mod team;
pub mod page;
pub mod event;
pub mod model;
pub mod game_state;
pub mod laws;
pub mod components;
