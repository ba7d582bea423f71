//! Verified core of a League of Legends esports data synchroniser: the data
//! models of the esports API and of the database, the decisions taken when
//! API data is merged into local state, and the plans that say which database
//! rows are inserted or updated.

pub mod deep;
pub mod seqs;
pub mod service;
pub mod dao;
pub mod data_pull;
