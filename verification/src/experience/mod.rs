//! Outcomes of served requests, the signals that routing learns from.
pub mod data;
pub mod outcome;
