//! The esports API side: the records that the API returns.
pub mod serde_models;

pub mod views;
pub mod parse;
