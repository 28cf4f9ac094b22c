//! A leaderboard: per-game player scores kept in an SQLite table and read
//! back ranked by score.

pub mod api;
pub mod command;
pub mod engine;
pub mod error;
pub mod laws;
pub mod ranking;
pub mod record;
pub mod seed;
pub mod store;
