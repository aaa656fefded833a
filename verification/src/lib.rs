//! Reconstruction of a flat, per-pitch record sequence from the nested,
//! event-sourced description of one baseball game.

pub mod boxscore;
pub mod defense;
pub mod engine;
pub mod game;
pub mod laws;
pub mod pitch_text;
pub mod play_by_play;
pub mod players;
pub mod run_expectancy;
pub mod runners;
pub mod text;
