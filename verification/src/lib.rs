//! A habit tracker's state store: days, the habits recorded on them, and the
//! operations that keep the two tables consistent.

pub mod clock;
pub mod cmd;
pub mod dates;
pub mod db;
pub mod habit_map;
pub mod ids;
pub mod laws;
pub mod outside;
pub mod types;
pub mod utils;
