use mindwolf::agent::AIAgent;
use mindwolf::error::{AppError, GameLogicError};
use mindwolf::game::GameEngine;
use mindwolf::manager::{generate_simple_night_action, GameManager};
use mindwolf::reasoning::{Evidence, EvidenceType, ReasoningEngine};
use mindwolf::roles::{generate_role_distribution, Faction, Role, RoleType};
use mindwolf::strategy::{StrategyEngine, StrategyType, VotingStrategy};
use mindwolf::types::{
    AIPersonality, GameConfig, GamePhase, NightActionType, PersonalityTraits,
};

fn config(total: u8) -> GameConfig {
    GameConfig {
        total_players: total,
        role_distribution: generate_role_distribution(total),
        discussion_time: 60,
        voting_time: 30,
        enable_voice: false,
    }
}

fn game(total: u8) -> GameEngine {
    let mut engine = GameEngine::new(config(total)).unwrap();
    engine.initialize_game().unwrap();
    engine
}

fn seeded_reasoning(engine: &GameEngine) -> ReasoningEngine {
    let mut re = ReasoningEngine::new();
    re.initialize(engine.get_state());
    re
}

fn personality(aggr: u32, logic: u32, deception: u32, trust: u32) -> AIPersonality {
    AIPersonality {
        id: 1,
        name: vec!['T'],
        traits: PersonalityTraits {
            aggressiveness: aggr,
            logic,
            deception,
            trustfulness: trust,
        },
    }
}

fn mark_suspicious(re: &mut ReasoningEngine, id: u64) {
    re.add_evidence(
        id,
        Evidence {
            evidence_type: EvidenceType::DefensiveBehavior,
            confidence: 1000,
            source: vec!['t'],
            description: vec!['t'],
            weight: 1000,
        },
    )
    .unwrap();
}

#[test]
fn test_initial_strategy_derivation() {
    let wolf_role = Role::create(RoleType::Werewolf);
    let deceptive = StrategyEngine::new(personality(300, 500, 800, 500), &wolf_role);
    assert_eq!(
        deceptive.current_strategy.strategy_type,
        StrategyType::Deceptive
    );
    assert_eq!(
        deceptive.current_strategy.voting_strategy,
        VotingStrategy::FollowMajority
    );
    let defensive = StrategyEngine::new(personality(300, 500, 300, 500), &wolf_role);
    assert_eq!(
        defensive.current_strategy.strategy_type,
        StrategyType::Defensive
    );
    assert_eq!(
        defensive.current_strategy.voting_strategy,
        VotingStrategy::Protective
    );
    let villager_role = Role::create(RoleType::Villager);
    let logical = StrategyEngine::new(personality(300, 800, 300, 500), &villager_role);
    assert_eq!(logical.current_strategy.strategy_type, StrategyType::Logical);
    assert_eq!(
        logical.current_strategy.voting_strategy,
        VotingStrategy::Independent
    );
}

#[test]
fn test_protective_voter_never_picks_trusted() {
    let engine = game(6);
    let mut re = seeded_reasoning(&engine);
    // Player 0 is the most trusted (neutral tie, lowest id); player 3 the
    // most suspicious after the evidence.
    mark_suspicious(&mut re, 3);
    let wolf_role = Role::create(RoleType::Werewolf);
    let se = StrategyEngine::new(personality(300, 500, 300, 500), &wolf_role);
    assert_eq!(
        se.current_strategy.voting_strategy,
        VotingStrategy::Protective
    );
    let trusted = re.get_most_trusted_player();
    let suspicious = re.get_most_suspicious_player();
    assert_eq!(trusted, Some(0));
    assert_eq!(suspicious, Some(3));
    for _ in 0..20 {
        let target = se.decide_vote_target(1, engine.get_state(), &re).unwrap();
        assert_eq!(target, Some(3));
        assert_ne!(target, trusted);
    }
}

#[test]
fn test_protective_voter_with_coinciding_extremes() {
    let engine = game(6);
    let re = seeded_reasoning(&engine);
    // All scores are neutral: player 0 is both extremes, so the vote
    // falls back to a random live player other than the voter.
    let wolf_role = Role::create(RoleType::Werewolf);
    let se = StrategyEngine::new(personality(300, 500, 300, 500), &wolf_role);
    for _ in 0..20 {
        let target = se.decide_vote_target(1, engine.get_state(), &re).unwrap();
        let t = target.unwrap();
        assert_ne!(t, 1);
        assert!(engine.get_state().players.iter().any(|p| p.id == t && p.is_alive));
    }
}

#[test]
fn test_aggressive_voter_picks_most_suspicious() {
    let engine = game(6);
    let mut re = seeded_reasoning(&engine);
    mark_suspicious(&mut re, 4);
    let villager_role = Role::create(RoleType::Villager);
    let se = StrategyEngine::new(personality(700, 500, 300, 500), &villager_role);
    assert_eq!(
        se.current_strategy.voting_strategy,
        VotingStrategy::Aggressive
    );
    let target = se.decide_vote_target(1, engine.get_state(), &re).unwrap();
    assert_eq!(target, Some(4));
}

#[test]
fn test_werewolf_aggressive_kills_most_trusted_villager() {
    let engine = game(6);
    let re = seeded_reasoning(&engine);
    let wolf_role = Role::create(RoleType::Werewolf);
    let se = StrategyEngine::new(personality(700, 500, 300, 500), &wolf_role);
    assert_eq!(
        se.current_strategy.strategy_type,
        StrategyType::Aggressive
    );
    // All belief scores are neutral, so the most trusted player is the
    // one with the lowest id. The kill goes to that player when they are
    // a live villager, and to some live villager otherwise.
    let most_trusted = re.get_most_trusted_player().unwrap();
    let trusted_is_villager = engine
        .get_state()
        .players
        .iter()
        .any(|p| p.id == most_trusted && p.is_alive && p.faction == Faction::Villager);
    for _ in 0..10 {
        let action = se
            .decide_night_action(0, &wolf_role, engine.get_state(), &re)
            .unwrap()
            .unwrap();
        assert_eq!(action.action, NightActionType::Kill);
        assert_eq!(action.player, 0);
        let t = action.target.unwrap();
        assert!(engine
            .get_state()
            .players
            .iter()
            .any(|p| p.id == t && p.is_alive && p.faction == Faction::Villager));
        if trusted_is_villager {
            assert_eq!(t, most_trusted);
        }
    }
}

#[test]
fn test_seer_checks_most_suspicious() {
    let engine = game(6);
    let mut re = seeded_reasoning(&engine);
    mark_suspicious(&mut re, 5);
    let seer_role = Role::create(RoleType::Seer);
    let se = StrategyEngine::new(personality(300, 500, 300, 500), &seer_role);
    let action = se
        .decide_night_action(2, &seer_role, engine.get_state(), &re)
        .unwrap()
        .unwrap();
    assert_eq!(action.action, NightActionType::Check);
    assert_eq!(action.target, Some(5));
}

#[test]
fn test_guard_protects_most_trusted() {
    let engine = game(6);
    let re = seeded_reasoning(&engine);
    let guard_role = Role::create(RoleType::Guard);
    let se = StrategyEngine::new(personality(300, 500, 300, 500), &guard_role);
    let action = se
        .decide_night_action(2, &guard_role, engine.get_state(), &re)
        .unwrap()
        .unwrap();
    assert_eq!(action.action, NightActionType::Protect);
    assert_eq!(action.target, Some(0));
}

#[test]
fn test_witch_heals_or_poisons() {
    let engine = game(6);
    let mut re = seeded_reasoning(&engine);
    mark_suspicious(&mut re, 2);
    let witch_role = Role::create(RoleType::Witch);
    let se = StrategyEngine::new(personality(300, 500, 300, 500), &witch_role);
    for _ in 0..30 {
        let action = se
            .decide_night_action(1, &witch_role, engine.get_state(), &re)
            .unwrap()
            .unwrap();
        match action.action {
            NightActionType::Heal => assert_eq!(action.target, None),
            NightActionType::Poison => assert_eq!(action.target, Some(2)),
            other => panic!("unexpected witch action {:?}", other),
        }
    }
}

#[test]
fn test_villager_has_no_night_action() {
    let engine = game(6);
    let re = seeded_reasoning(&engine);
    let villager_role = Role::create(RoleType::Villager);
    let se = StrategyEngine::new(personality(300, 500, 300, 500), &villager_role);
    let action = se
        .decide_night_action(2, &villager_role, engine.get_state(), &re)
        .unwrap();
    assert!(action.is_none());
}

#[test]
fn test_update_strategy_escalates_after_day_three() {
    let mut engine = game(6);
    let re = seeded_reasoning(&engine);
    let wolf_role = Role::create(RoleType::Werewolf);
    let mut se = StrategyEngine::new(personality(300, 500, 300, 500), &wolf_role);
    assert_eq!(se.current_strategy.strategy_type, StrategyType::Defensive);
    engine.state.day = 4;
    se.update_strategy(engine.get_state(), &re);
    assert_eq!(se.current_strategy.strategy_type, StrategyType::Aggressive);
    assert_eq!(se.current_strategy.deception_level, 400);
    assert_eq!(se.current_strategy.priority_targets, vec![0]);
    assert_eq!(se.current_strategy.avoid_targets, vec![0]);
}

#[test]
fn test_simple_night_action_by_role() {
    let engine = game(6);
    let state = engine.get_state();
    let wolf = state
        .players
        .iter()
        .find(|p| p.role.role_type == RoleType::Werewolf)
        .unwrap();
    let action = generate_simple_night_action(wolf, state).unwrap();
    assert_eq!(action.action, NightActionType::Kill);
    assert_eq!(action.player, wolf.id);
    let t = action.target.unwrap();
    assert_ne!(t, wolf.id);
    assert!(state.players.iter().any(|p| p.id == t && p.is_alive));
    let villager = state
        .players
        .iter()
        .find(|p| p.role.role_type == RoleType::Villager)
        .unwrap();
    assert!(generate_simple_night_action(villager, state).is_none());
}

#[test]
fn test_manager_without_game_rejects_operations() {
    let mut manager = GameManager::new();
    assert_eq!(
        manager.start_game(),
        Err(AppError::GameLogic(GameLogicError::GameNotCreated))
    );
    assert_eq!(
        manager.player_vote(0, 1),
        Err(AppError::GameLogic(GameLogicError::GameNotCreated))
    );
    assert!(!manager.all_players_voted());
}

#[test]
fn test_manager_runs_a_round() {
    let mut manager = GameManager::new();
    manager.create_game(config(6)).unwrap();
    assert!(!manager.is_game_running());
    manager.start_game().unwrap();
    assert!(manager.is_game_running());
    assert_eq!(manager.get_game_state().unwrap().phase, GamePhase::Night);
    manager.proceed_to_next_phase().unwrap();
    assert_eq!(
        manager.get_game_state().unwrap().phase,
        GamePhase::DayDiscussion
    );
    manager.end_game().unwrap();
    assert!(manager.get_game_state().is_none());
}

#[test]
fn test_manager_vote_replaces_without_advance() {
    let mut manager = GameManager::new();
    manager.create_game(config(6)).unwrap();
    manager.start_game().unwrap();
    manager.proceed_to_next_phase().unwrap(); // DayDiscussion
    manager.proceed_to_next_phase().unwrap(); // Voting
    manager.player_vote(1, 2).unwrap();
    manager.player_vote(1, 3).unwrap();
    // Only one of six players voted: nothing advanced, and the voter's
    // later vote replaced the earlier one.
    let state = manager.get_game_state().unwrap();
    assert_eq!(state.phase, GamePhase::Voting);
    let by_one: Vec<_> = state.votes.iter().filter(|v| v.voter == 1).collect();
    assert_eq!(by_one.len(), 1);
    assert_eq!(by_one[0].target, 3);
    assert_eq!(state.votes.len(), 1);
}

#[test]
fn test_manager_completed_round_eliminates_plurality_target() {
    let mut manager = GameManager::new();
    manager.create_game(config(6)).unwrap();
    manager.start_game().unwrap();
    manager.proceed_to_next_phase().unwrap(); // DayDiscussion
    manager.proceed_to_next_phase().unwrap(); // Voting
    for voter in 0u64..5 {
        manager.player_vote(voter, 4).unwrap();
    }
    // The sixth vote completes the round: player 4 holds the plurality
    // and is eliminated, the votes are cleared, and the game moves on.
    manager.player_vote(5, 0).unwrap();
    let state = manager.get_game_state().unwrap();
    assert!(state.votes.is_empty());
    assert!(state.players.iter().all(|p| p.id != 4));
    let dead: Vec<_> = state.dead_players.iter().filter(|p| p.id == 4).collect();
    assert_eq!(dead.len(), 1);
    assert!(!dead[0].is_alive);
    assert_ne!(state.phase, GamePhase::Voting);
}

#[test]
fn test_manager_auto_advances_when_all_voted() {
    let mut manager = GameManager::new();
    manager.create_game(config(6)).unwrap();
    manager.start_game().unwrap();
    manager.proceed_to_next_phase().unwrap(); // DayDiscussion
    manager.proceed_to_next_phase().unwrap(); // Voting
    assert_eq!(manager.get_game_state().unwrap().phase, GamePhase::Voting);
    for voter in 0u64..6 {
        manager.player_vote(voter, (voter + 1) % 6).unwrap();
    }
    // Every live player voted: the round resolved without waiting.
    let state = manager.get_game_state().unwrap();
    assert!(state.votes.is_empty());
    assert_ne!(state.phase, GamePhase::Voting);
}

#[test]
fn test_agent_full_cycle() {
    let engine = game(8);
    let wolf = engine
        .get_state()
        .players
        .iter()
        .find(|p| p.faction == Faction::Werewolf)
        .unwrap()
        .clone();
    let mut agent = AIAgent::new(wolf.id, personality(700, 500, 300, 500), wolf.role);
    agent.initialize(engine.get_state()).unwrap();
    assert_eq!(agent.reasoning_engine.nodes.len(), 8);
    let line: Vec<char> = "trust me i am not a werewolf".chars().collect();
    agent
        .process_player_speech(2, line, engine.get_state())
        .unwrap();
    assert_eq!(agent.memory.speech_history.len(), 1);
    let action = agent.decide_night_action(engine.get_state()).unwrap();
    assert!(action.is_some());
    let vote = agent.decide_vote(engine.get_state()).unwrap();
    assert!(vote.is_some());
}

#[test]
fn test_agent_analysis_report() {
    let engine = game(6);
    let villager = Role::create(RoleType::Villager);
    let mut agent = AIAgent::new(1, personality(300, 500, 300, 500), villager);
    agent.initialize(engine.get_state()).unwrap();
    agent.update_player_impression(2, 900);
    agent.update_player_impression(4, 100);
    for (speaker, line) in [(2u64, "first remark"), (3, "second remark"), (4, "third remark"), (5, "fourth remark")] {
        agent
            .process_player_speech(speaker, line.chars().collect(), engine.get_state())
            .unwrap();
    }
    let report = agent.get_analysis_report();
    assert_eq!(report.agent_id, 1);
    assert_eq!(report.trust_rankings.len(), 5);
    assert_eq!(report.suspicion_rankings.len(), 5);
    // Rankings fall monotonically.
    for w in report.trust_rankings.windows(2) {
        assert!(w[0].1 >= w[1].1);
    }
    for w in report.suspicion_rankings.windows(2) {
        assert!(w[0].1 >= w[1].1);
    }
    assert_eq!(report.reasoning_summary.player_analysis.len(), 6);
    for w in report.reasoning_summary.player_analysis.windows(2) {
        assert!(w[0].suspicion_score >= w[1].suspicion_score);
    }
    // The three most recent speeches, newest first.
    assert_eq!(report.memory_highlights.len(), 3);
    assert_eq!(report.memory_highlights[0].speaker, 5);
    assert_eq!(report.memory_highlights[1].speaker, 4);
    assert_eq!(report.memory_highlights[2].speaker, 3);
}

#[test]
fn test_agent_impression_moves_toward_credibility() {
    let engine = game(6);
    let villager = Role::create(RoleType::Villager);
    let mut agent = AIAgent::new(1, personality(300, 500, 300, 500), villager);
    agent.initialize(engine.get_state()).unwrap();
    agent.update_player_impression(2, 900);
    let entry = agent
        .memory
        .impressions
        .iter()
        .find(|e| e.player_id == 2)
        .unwrap();
    assert_eq!(entry.trust, 700);
    assert_eq!(entry.suspicion, 300);
}
