//! The shared data model: players, roles in play, phases, votes, night
//! actions, speech, and chat records.
//!
//! Scores and traits are fixed-point thousandths (see `score`); identities
//! are plain integer ids, and analyzed text is a vector of characters.
use vstd::prelude::*;
use crate::roles::{Role, Faction, RoleType, RoleDistribution, role_wf};
use crate::score::valid_score;

verus! {

/// Personality traits, each a score in [0, 1000].
#[derive(Debug, Clone, Copy, PartialEq, Eq, Structural)]
pub struct PersonalityTraits {
    pub aggressiveness: u32,
    pub logic: u32,
    pub deception: u32,
    pub trustfulness: u32,
}

/// All four traits lie in the valid score interval.
pub open spec fn traits_wf(t: PersonalityTraits) -> bool {
    &&& valid_score(t.aggressiveness)
    &&& valid_score(t.logic)
    &&& valid_score(t.deception)
    &&& valid_score(t.trustfulness)
}

/// A computer player's personality.
#[derive(Debug, Clone, PartialEq, Eq)]
pub struct AIPersonality {
    pub id: u64,
    pub name: Vec<char>,
    pub traits: PersonalityTraits,
}

/// A participant: identity, secret role, liveness, and control.
#[derive(Debug, Clone)]
pub struct Player {
    pub id: u64,
    pub name: Vec<char>,
    pub role: Role,
    pub faction: Faction,
    pub is_alive: bool,
    pub is_ai: bool,
    pub personality: Option<AIPersonality>,
}

/// A player record is well formed when its faction mirrors its role's
/// faction and the role record itself is well formed.
pub open spec fn player_wf(p: Player) -> bool {
    &&& role_wf(p.role)
    &&& p.faction == p.role.faction
}

/// The game phases.
#[derive(Debug, Clone, Copy, PartialEq, Eq, Structural)]
pub enum GamePhase {
    Preparation,
    Night,
    DayDiscussion,
    Voting,
    LastWords,
    GameOver,
}

/// One pending vote: who voted for whom, and when.
#[derive(Debug, Clone, Copy, PartialEq, Eq, Structural)]
pub struct VoteRecord {
    pub voter: u64,
    pub target: u64,
    pub timestamp: i64,
}

/// Game configuration, validated only for a positive player count.
#[derive(Debug, Clone, Copy, PartialEq, Eq, Structural)]
pub struct GameConfig {
    pub total_players: u8,
    pub role_distribution: RoleDistribution,
    pub discussion_time: u32,
    pub voting_time: u32,
    pub enable_voice: bool,
}

/// The single authoritative game aggregate.
#[derive(Debug, Clone)]
pub struct GameState {
    pub phase: GamePhase,
    pub day: u32,
    pub players: Vec<Player>,
    pub dead_players: Vec<Player>,
    pub votes: Vec<VoteRecord>,
    pub game_config: GameConfig,
    pub winner: Option<Faction>,
    pub current_speaker: Option<u64>,
    pub time_remaining: Option<u32>,
}

/// Night action kinds.
#[derive(Debug, Clone, Copy, PartialEq, Eq, Structural)]
pub enum NightActionType {
    Kill,
    Check,
    Heal,
    Protect,
    Poison,
}

/// A night action by one player against an optional target.
#[derive(Debug, Clone, Copy, PartialEq, Eq, Structural)]
pub struct NightAction {
    pub player: u64,
    pub action: NightActionType,
    pub target: Option<u64>,
}

/// What an agent learns about the night when day breaks.
#[derive(Debug, Clone, Copy, PartialEq, Eq, Structural)]
pub enum NightResult {
    PlayerKilled(u64),
    PlayerSaved,
    NoKill,
}

/// Speech intents.
#[derive(Debug, Clone, Copy, PartialEq, Eq, Structural)]
pub enum SpeechType {
    Accusation,
    Defense,
    Information,
    Strategy,
    Vote,
}

/// The classified intent of one line of speech.
#[derive(Debug, Clone)]
pub struct SpeechIntent {
    pub intent_type: SpeechType,
    pub target: Option<u64>,
    pub content: Vec<char>,
    pub confidence: u32,
}

/// Who produced a chat message.
#[derive(Debug, Clone, Copy, PartialEq, Eq, Structural)]
pub enum MessageType {
    Human,
    AI,
    System,
}

/// One chat message.
#[derive(Debug, Clone)]
pub struct ChatMessage {
    pub id: u64,
    pub sender: u64,
    pub content: Vec<char>,
    pub timestamp: i64,
    pub message_type: MessageType,
}

/// Text-generation service providers the application may be configured with.
#[derive(Debug, Clone, Copy, PartialEq, Eq, Structural)]
pub enum LLMProvider {
    OpenAI,
    Anthropic,
    Azure,
    Custom,
}

} // verus!
