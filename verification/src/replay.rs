//! The downstream reporting taxonomy: the kinds of events and decisions a
//! finished game is recorded under, and a simple aggregation of who won
//! and why. Recording itself is the persistence layer's concern; the core
//! only emits.
use vstd::prelude::*;
use crate::game::count_alive_faction;
use crate::roles::Faction;
use crate::types::GameState;

verus! {

/// The kinds of events a recorded game is made of.
#[derive(Debug, Clone, Copy, PartialEq, Eq, Structural)]
pub enum GameEventType {
    GameStart,
    GameEnd,
    RoleAssignment,
    Speech,
    Vote,
    SkillUse,
    PhaseChange,
    PlayerDeath,
    SheriffElection,
    LastWords,
    SystemAnnouncement,
}

/// The kinds of decisions an agent's log is made of.
#[derive(Debug, Clone, Copy, PartialEq, Eq, Structural)]
pub enum DecisionType {
    Speech,
    Vote,
    SkillTarget,
    SheriffVote,
    Strategy,
}

/// The angles an insight about a finished game can take.
#[derive(Debug, Clone, Copy, PartialEq, Eq, Structural)]
pub enum InsightCategory {
    Deception,
    Reasoning,
    Teamwork,
    Voting,
    Communication,
    RolePlay,
}

/// The formats a recorded game can be exported in.
#[derive(Debug, Clone, Copy, PartialEq, Eq, Structural)]
pub enum ExportFormat {
    Json,
    Csv,
    Html,
}

/// Who won a finished game, and the live counts behind the outcome.
#[derive(Debug, Clone, Copy, PartialEq, Eq, Structural)]
pub struct WinnerAnalysis {
    pub winning_faction: Faction,
    pub surviving_werewolves: u32,
    pub surviving_villagers: u32,
    pub days_played: u32,
}

/// The analyzer of finished games.
pub struct GameAnalyzer;

impl GameAnalyzer {
    /// Create an analyzer.
    pub fn new() -> (r: GameAnalyzer)
        ensures
            r == GameAnalyzer,
    {
        GameAnalyzer
    }

    /// Summarize who won: the recorded winner together with the live
    /// faction counts and the number of days played. A game without a
    /// recorded winner has no summary.
    pub fn analyze_winner(&self, state: &GameState) -> (r: Option<WinnerAnalysis>)
        requires
            state.players@.len() <= u32::MAX,
        ensures
            match state.winner {
                None => r is None,
                Some(f) => r matches Some(a) && {
                    &&& a.winning_faction == f
                    &&& a.surviving_werewolves == count_alive_faction(
                        state.players@,
                        Faction::Werewolf,
                    )
                    &&& a.surviving_villagers == count_alive_faction(
                        state.players@,
                        Faction::Villager,
                    )
                    &&& a.days_played == state.day
                },
            },
    {
        let winning_faction = match state.winner {
            Some(f) => f,
            None => {
                return None;
            },
        };
        let wolves = crate::game::count_alive_in_faction(&state.players, Faction::Werewolf);
        let villagers = crate::game::count_alive_in_faction(&state.players, Faction::Villager);
        proof {
            state.players@.lemma_filter_len(
                |p: crate::types::Player| p.is_alive && p.faction == Faction::Werewolf,
            );
            state.players@.lemma_filter_len(
                |p: crate::types::Player| p.is_alive && p.faction == Faction::Villager,
            );
        }
        Some(
            WinnerAnalysis {
                winning_faction,
                surviving_werewolves: wolves as u32,
                surviving_villagers: villagers as u32,
                days_played: state.day,
            },
        )
    }
}

} // verus!
