//! A social-deduction party game engine — one human seat and several
//! computer players with secret roles — together with the decision
//! subsystem that drives each computer player: a belief model over the
//! other players, lexical speech heuristics, and a strategy selector.
//!
//! The game phase state machine owns the authoritative state; every
//! mutation goes through its operations, and its transition graph, vote
//! bookkeeping, eliminations, and win rule carry full contracts. Scores
//! and probabilities are fixed-point thousandths; randomness and the
//! wall clock enter only through the two wrappers in `rng` and `clock`.
pub mod agent;
pub mod clock;
pub mod error;
pub mod game;
pub mod jsontext;
pub mod manager;
pub mod nlp;
pub mod personality;
pub mod reasoning;
pub mod replay;
pub mod retry;
pub mod rng;
pub mod roles;
pub mod score;
pub mod seq_util;
pub mod shuffle;
pub mod speech;
pub mod strategy;
pub mod types;
