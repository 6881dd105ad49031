//! A verified core for a training-plan service: plan generation from a
//! generative model's output (prompt construction and tolerant extraction
//! into typed workouts), and synchronization of workout batches into a
//! training platform (athlete resolution, credential encoding, and
//! all-or-nothing bulk-upload classification).

pub mod auth;
pub mod config;
pub mod dates;
pub mod errors;
pub mod jsonrep;
pub mod models;
pub mod plan;
pub mod sync;
pub mod text;
