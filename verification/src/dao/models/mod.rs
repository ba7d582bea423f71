//! The rows of the database tables.
pub mod event;
pub mod leagues;
pub mod players;
pub mod streams;
pub mod team_player;
pub mod teams;
pub mod tournaments;
