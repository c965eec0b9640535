//! Error taxonomy. Game-logic errors are user-facing and recoverable: the
//! offending operation is rejected and the game state is left unchanged.
use vstd::prelude::*;

verus! {

/// The reason a game-logic operation was rejected.
#[derive(Debug, Clone, Copy, PartialEq, Eq, Structural)]
pub enum GameLogicError {
    /// The roster is empty, so the game cannot start.
    NoPlayers,
    /// A game configuration with zero players was supplied.
    NoPlayersConfigured,
    /// A vote was cast outside the voting phase.
    NotVotingPhase,
    /// The voter does not exist in the live roster.
    VoterNotAlive,
    /// The vote target does not exist in the live roster.
    TargetNotAlive,
    /// An operation needs a created game and none exists.
    GameNotCreated,
}

/// Application-level error type.
#[derive(Debug, Clone, Copy, PartialEq, Eq, Structural)]
pub enum AppError {
    Io,
    Serialization,
    Network,
    LlmApi,
    Database,
    GameLogic(GameLogicError),
    Config,
    Unknown,
    NotFound,
}

pub type AppResult<T> = Result<T, AppError>;

impl AppError {
    /// A short human-readable description of the error.
    pub fn message(&self) -> &'static str {
        match self {
            AppError::Io => "io error",
            AppError::Serialization => "serialization error",
            AppError::Network => "network error",
            AppError::LlmApi => "llm api error",
            AppError::Database => "database error",
            AppError::GameLogic(_) => "game logic error",
            AppError::Config => "configuration error",
            AppError::Unknown => "unknown error",
            AppError::NotFound => "resource not found",
        }
    }
}

} // verus!
