//! Win-probability estimates for baseball games.
//!
//! A prediction plays a game many times over, plate appearance by plate
//! appearance, and takes the share of the games that the home side won.
//!
//! - [`simba`] holds the rules of play: what an outcome does to the
//!   runners, when a half-inning and when a game is over, and how the final
//!   scores of many games are reduced to one estimate.
//! - [`laws`] states what holds of every game that is played by these
//!   rules.
//! - [`tally`] counts final scores.
//! - [`mlbstats`] holds the career statistics of players and teams, the
//!   queries that ask the statistics service for them, and the reading of
//!   its answers.
//! - [`json`] keeps the documents that the service sends.
//! - [`gameline`] writes the line that reports on one game.
//! - [`config`] holds the settings of a run.
//! - [`text`] compares, builds and reads texts.

pub mod config;
pub mod gameline;
pub mod json;
pub mod laws;
pub mod mlbstats;
pub mod simba;
pub mod tally;
pub mod text;
