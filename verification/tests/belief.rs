use mindwolf::game::GameEngine;
use mindwolf::reasoning::{Evidence, EvidenceType, ReasoningEngine};
use mindwolf::roles::generate_role_distribution;
use mindwolf::types::GameConfig;

fn config(total: u8) -> GameConfig {
    GameConfig {
        total_players: total,
        role_distribution: generate_role_distribution(total),
        discussion_time: 60,
        voting_time: 30,
        enable_voice: false,
    }
}

fn seeded_engine(total: u8) -> ReasoningEngine {
    let mut game = GameEngine::new(config(total)).unwrap();
    game.initialize_game().unwrap();
    let mut re = ReasoningEngine::new();
    re.initialize(game.get_state());
    re
}

fn evidence(kind: EvidenceType, confidence: u32, weight: u32) -> Evidence {
    Evidence {
        evidence_type: kind,
        confidence,
        source: vec!['t', 'e', 's', 't'],
        description: vec!['t', 'e', 's', 't'],
        weight,
    }
}

#[test]
fn test_initialize_seeds_neutral_scores() {
    let re = seeded_engine(8);
    assert_eq!(re.nodes.len(), 8);
    for node in re.nodes.iter() {
        assert_eq!(node.trust_score, 500);
        assert_eq!(node.suspicion_score, 500);
        // Three werewolves among eight players.
        assert_eq!(node.faction_probability, 375);
        assert_eq!(node.role_probabilities.werewolf, 375);
        assert_eq!(node.role_probabilities.seer, 125);
        assert!(node.evidence.is_empty());
    }
}

#[test]
fn test_scores_stay_in_range_under_adversarial_evidence() {
    let mut re = seeded_engine(6);
    let kinds = [
        EvidenceType::VotingPattern,
        EvidenceType::SpeechAnalysis,
        EvidenceType::NightResult,
        EvidenceType::RoleClaimConsistency,
        EvidenceType::DefensiveBehavior,
        EvidenceType::AggressiveBehavior,
        EvidenceType::LogicalInconsistency,
        EvidenceType::TeamworkIndicator,
    ];
    for round in 0..50 {
        for id in 0u64..6 {
            let kind = kinds[(round + id as usize) % kinds.len()];
            re.add_evidence(id, evidence(kind, 1000, 1000)).unwrap();
        }
    }
    for node in re.nodes.iter() {
        assert!(node.suspicion_score <= 1000);
        assert!(node.trust_score <= 1000);
        assert!(node.faction_probability <= 1000);
        assert_eq!(node.evidence.len(), 50);
    }
}

#[test]
fn test_logical_inconsistency_update_is_exact() {
    let mut re = seeded_engine(6);
    // weight 1000, confidence 1000: base is 1000; suspicion moves by 400,
    // the hostile-faction estimate by 300.
    re.add_evidence(2, evidence(EvidenceType::LogicalInconsistency, 1000, 1000))
        .unwrap();
    let node = re.nodes.iter().find(|n| n.player_id == 2).unwrap();
    assert_eq!(node.suspicion_score, 900);
    assert_eq!(node.trust_score, 500);
    // Two of six players are werewolves: the seed is 333.
    assert_eq!(node.faction_probability, 633);
}

#[test]
fn test_speech_analysis_gate_on_confidence() {
    let mut re = seeded_engine(6);
    // Confidence at the neutral 500 leaves the scores untouched.
    re.add_evidence(1, evidence(EvidenceType::SpeechAnalysis, 500, 1000))
        .unwrap();
    let node = re.nodes.iter().find(|n| n.player_id == 1).unwrap();
    assert_eq!(node.suspicion_score, 500);
    assert_eq!(node.trust_score, 500);
    // High confidence raises suspicion and lowers trust.
    re.add_evidence(1, evidence(EvidenceType::SpeechAnalysis, 1000, 1000))
        .unwrap();
    let node = re.nodes.iter().find(|n| n.player_id == 1).unwrap();
    assert_eq!(node.suspicion_score, 700);
    assert_eq!(node.trust_score, 400);
}

#[test]
fn test_analyze_vote_raises_faction_estimate() {
    let mut re = seeded_engine(6);
    let before = re.get_werewolf_probability(1);
    re.analyze_vote(1, 2).unwrap();
    let after = re.get_werewolf_probability(1);
    // weight 300 at confidence 800: base 240, multiplier 150 -> +36.
    assert_eq!(after, before + 36);
    let node = re.nodes.iter().find(|n| n.player_id == 1).unwrap();
    assert_eq!(node.evidence.len(), 1);
    assert_eq!(node.evidence[0].evidence_type, EvidenceType::VotingPattern);
}

#[test]
fn test_unknown_player_yields_neutral_probability() {
    let re = seeded_engine(6);
    assert_eq!(re.get_werewolf_probability(99), 500);
}

#[test]
fn test_most_suspicious_and_trusted_tie_break_lowest_id() {
    let re = seeded_engine(6);
    // All scores are equal: the lowest id wins both queries.
    assert_eq!(re.get_most_suspicious_player(), Some(0));
    assert_eq!(re.get_most_trusted_player(), Some(0));
}

#[test]
fn test_most_suspicious_follows_evidence() {
    let mut re = seeded_engine(6);
    re.add_evidence(3, evidence(EvidenceType::DefensiveBehavior, 1000, 1000))
        .unwrap();
    assert_eq!(re.get_most_suspicious_player(), Some(3));
    assert_eq!(re.get_most_trusted_player(), Some(0));
}

#[test]
fn test_empty_engine_has_no_answers() {
    let re = ReasoningEngine::new();
    assert_eq!(re.get_most_suspicious_player(), None);
    assert_eq!(re.get_most_trusted_player(), None);
}

#[test]
fn test_analyze_speech_logs_evidence() {
    let mut re = seeded_engine(6);
    let line: Vec<char> = "why suspect me".chars().collect();
    re.analyze_speech(4, &line).unwrap();
    let node = re.nodes.iter().find(|n| n.player_id == 4).unwrap();
    assert_eq!(node.evidence.len(), 1);
    assert_eq!(node.evidence[0].evidence_type, EvidenceType::SpeechAnalysis);
    // One defensive phrase and a short line: weight 300, confidence 600.
    assert_eq!(node.evidence[0].weight, 300);
    assert_eq!(node.evidence[0].confidence, 600);
}
