use mindwolf::error::{AppError, GameLogicError};
use mindwolf::game::{check_win_condition, GameEngine};
use mindwolf::roles::{
    generate_role_distribution, get_faction_description, get_role_description, Faction, Role,
    RoleType,
};
use mindwolf::types::{GameConfig, GamePhase, NightAction, NightActionType, Player};

fn config(total: u8) -> GameConfig {
    GameConfig {
        total_players: total,
        role_distribution: generate_role_distribution(total),
        discussion_time: 60,
        voting_time: 30,
        enable_voice: false,
    }
}

fn initialized_engine(total: u8) -> GameEngine {
    let mut engine = GameEngine::new(config(total)).unwrap();
    engine.initialize_game().unwrap();
    engine
}

fn role_count(engine: &GameEngine, rt: RoleType) -> usize {
    engine
        .get_state()
        .players
        .iter()
        .filter(|p| p.role.role_type == rt)
        .count()
}

#[test]
fn test_initialize_roster_size_table() {
    for total in [6u8, 8, 10, 12] {
        let engine = initialized_engine(total);
        assert_eq!(engine.get_state().players.len(), total as usize);
    }
}

#[test]
fn test_initialize_role_counts_six() {
    let engine = initialized_engine(6);
    assert_eq!(role_count(&engine, RoleType::Werewolf), 2);
    assert_eq!(role_count(&engine, RoleType::Villager), 2);
    assert_eq!(role_count(&engine, RoleType::Seer), 1);
    assert_eq!(role_count(&engine, RoleType::Witch), 1);
    assert_eq!(role_count(&engine, RoleType::Hunter), 0);
    assert_eq!(role_count(&engine, RoleType::Guard), 0);
}

#[test]
fn test_initialize_role_counts_eight() {
    let engine = initialized_engine(8);
    assert_eq!(role_count(&engine, RoleType::Werewolf), 3);
    assert_eq!(role_count(&engine, RoleType::Villager), 3);
    assert_eq!(role_count(&engine, RoleType::Seer), 1);
    assert_eq!(role_count(&engine, RoleType::Witch), 1);
}

#[test]
fn test_initialize_role_counts_twelve() {
    let engine = initialized_engine(12);
    assert_eq!(role_count(&engine, RoleType::Werewolf), 4);
    assert_eq!(role_count(&engine, RoleType::Villager), 4);
    assert_eq!(role_count(&engine, RoleType::Seer), 1);
    assert_eq!(role_count(&engine, RoleType::Witch), 1);
    assert_eq!(role_count(&engine, RoleType::Hunter), 1);
    assert_eq!(role_count(&engine, RoleType::Guard), 1);
}

#[test]
fn test_initialize_unknown_count_degrades() {
    let engine = initialized_engine(7);
    assert_eq!(engine.get_state().players.len(), 7);
    assert_eq!(role_count(&engine, RoleType::Werewolf), 2);
    assert_eq!(role_count(&engine, RoleType::Villager), 5);
}

#[test]
fn test_initialize_zero_players_rejected() {
    let mut engine = GameEngine::new(config(0)).unwrap();
    let r = engine.initialize_game();
    assert_eq!(
        r,
        Err(AppError::GameLogic(GameLogicError::NoPlayersConfigured))
    );
}

#[test]
fn test_initialize_one_human_rest_agents() {
    let engine = initialized_engine(8);
    let players = &engine.get_state().players;
    assert!(!players[0].is_ai);
    for p in players.iter().skip(1) {
        assert!(p.is_ai);
        assert!(p.personality.is_some());
    }
    for (i, p) in players.iter().enumerate() {
        assert_eq!(p.id, i as u64);
        assert!(p.is_alive);
        assert_eq!(p.faction, p.role.faction);
    }
}

fn engine_in_voting(total: u8) -> GameEngine {
    let mut engine = initialized_engine(total);
    engine.start_game().unwrap();
    engine.next_phase().unwrap(); // Night -> DayDiscussion
    engine.next_phase().unwrap(); // DayDiscussion -> Voting
    engine
}

#[test]
fn test_vote_replaces_earlier_vote() {
    let mut engine = engine_in_voting(6);
    engine.vote(1, 2).unwrap();
    engine.vote(1, 3).unwrap();
    let votes = &engine.get_state().votes;
    let by_one: Vec<_> = votes.iter().filter(|v| v.voter == 1).collect();
    assert_eq!(by_one.len(), 1);
    assert_eq!(by_one[0].target, 3);
}

#[test]
fn test_vote_replacement_for_many_pairs() {
    for voter in 0u64..6 {
        for (t1, t2) in [(0u64, 1u64), (2, 3), (4, 5), (5, 0)] {
            let mut engine = engine_in_voting(6);
            engine.vote(voter, t1).unwrap();
            engine.vote(voter, t2).unwrap();
            let votes = &engine.get_state().votes;
            let mine: Vec<_> = votes.iter().filter(|v| v.voter == voter).collect();
            assert_eq!(mine.len(), 1);
            assert_eq!(mine[0].target, t2);
        }
    }
}

#[test]
fn test_vote_outside_voting_phase_rejected() {
    let mut engine = initialized_engine(6);
    engine.start_game().unwrap();
    let r = engine.vote(1, 2);
    assert_eq!(r, Err(AppError::GameLogic(GameLogicError::NotVotingPhase)));
}

#[test]
fn test_vote_dead_voter_rejected() {
    let mut engine = initialized_engine(6);
    engine.start_game().unwrap();
    engine.eliminate_player(1).unwrap();
    engine.next_phase().unwrap();
    engine.next_phase().unwrap();
    assert_eq!(
        engine.vote(1, 2),
        Err(AppError::GameLogic(GameLogicError::VoterNotAlive))
    );
    assert_eq!(
        engine.vote(2, 1),
        Err(AppError::GameLogic(GameLogicError::TargetNotAlive))
    );
}

#[test]
fn test_phase_transition_graph() {
    let mut engine = initialized_engine(6);
    assert_eq!(engine.get_state().phase, GamePhase::Preparation);
    engine.next_phase().unwrap();
    assert_eq!(engine.get_state().phase, GamePhase::Night);
    assert_eq!(engine.get_state().day, 1);
    engine.next_phase().unwrap();
    assert_eq!(engine.get_state().phase, GamePhase::DayDiscussion);
    engine.next_phase().unwrap();
    assert_eq!(engine.get_state().phase, GamePhase::Voting);
    engine.next_phase().unwrap();
    // No votes, nobody eliminated, no winner: a new night begins.
    assert_eq!(engine.get_state().phase, GamePhase::Night);
    assert_eq!(engine.get_state().day, 2);
}

#[test]
fn test_next_phase_from_empty_preparation_errors() {
    let mut engine = GameEngine::new(config(6)).unwrap();
    let r = engine.next_phase();
    assert_eq!(r, Err(AppError::GameLogic(GameLogicError::NoPlayers)));
    assert_eq!(engine.get_state().phase, GamePhase::Preparation);
}

#[test]
fn test_next_phase_game_over_is_noop() {
    let mut engine = initialized_engine(6);
    engine.start_game().unwrap();
    engine.state.phase = GamePhase::GameOver;
    let day = engine.get_state().day;
    let players = engine.get_state().players.len();
    engine.next_phase().unwrap();
    assert_eq!(engine.get_state().phase, GamePhase::GameOver);
    assert_eq!(engine.get_state().day, day);
    assert_eq!(engine.get_state().players.len(), players);
}

#[test]
fn test_last_words_opens_next_night() {
    let mut engine = initialized_engine(6);
    engine.start_game().unwrap();
    engine.state.phase = GamePhase::LastWords;
    engine.next_phase().unwrap();
    assert_eq!(engine.get_state().phase, GamePhase::Night);
    assert_eq!(engine.get_state().day, 2);
}

#[test]
fn test_eliminate_player_moves_to_dead() {
    let mut engine = initialized_engine(8);
    engine.start_game().unwrap();
    engine.eliminate_player(3).unwrap();
    let state = engine.get_state();
    assert!(state.players.iter().all(|p| p.id != 3));
    let dead: Vec<_> = state.dead_players.iter().filter(|p| p.id == 3).collect();
    assert_eq!(dead.len(), 1);
    assert!(!dead[0].is_alive);
    assert_eq!(state.players.len(), 7);
}

#[test]
fn test_eliminate_absent_player_is_noop() {
    let mut engine = initialized_engine(6);
    engine.start_game().unwrap();
    engine.eliminate_player(99).unwrap();
    assert_eq!(engine.get_state().players.len(), 6);
    assert_eq!(engine.get_state().dead_players.len(), 0);
}

#[test]
fn test_role_and_faction_descriptions() {
    assert_eq!(
        get_role_description(&RoleType::Seer),
        "learns one player's true side each night"
    );
    assert_eq!(
        get_faction_description(&Faction::Villager),
        "the village: find and banish every werewolf"
    );
}

#[test]
fn test_win_condition_table() {
    assert_eq!(check_win_condition(0, 3), Some(Faction::Villager));
    assert_eq!(check_win_condition(2, 2), Some(Faction::Werewolf));
    assert_eq!(check_win_condition(1, 3), None);
    assert_eq!(check_win_condition(3, 3), Some(Faction::Werewolf));
    assert_eq!(check_win_condition(4, 3), Some(Faction::Werewolf));
    assert_eq!(check_win_condition(0, 0), Some(Faction::Villager));
}

#[test]
fn test_vote_resolution_plurality() {
    let mut engine = engine_in_voting(6);
    engine.vote(0, 2).unwrap();
    engine.vote(1, 2).unwrap();
    engine.vote(3, 4).unwrap();
    engine.next_phase().unwrap();
    let state = engine.get_state();
    assert!(state.players.iter().all(|p| p.id != 2));
    assert!(state.dead_players.iter().any(|p| p.id == 2));
    assert!(state.votes.is_empty());
}

#[test]
fn test_vote_resolution_tie_breaks_to_lowest_id() {
    let mut engine = engine_in_voting(6);
    engine.vote(0, 4).unwrap();
    engine.vote(1, 3).unwrap();
    engine.next_phase().unwrap();
    let state = engine.get_state();
    // Targets 4 and 3 are tied with one vote each: the lower id goes.
    assert!(state.players.iter().all(|p| p.id != 3));
    assert!(state.players.iter().any(|p| p.id == 4));
}

#[test]
fn test_kill_scenario_eight_players() {
    let mut engine = initialized_engine(8);
    engine.start_game().unwrap();
    assert_eq!(engine.get_state().phase, GamePhase::Night);
    assert_eq!(engine.get_state().day, 1);
    let wolf = engine
        .get_state()
        .players
        .iter()
        .find(|p| p.faction == Faction::Werewolf)
        .unwrap()
        .id;
    let victim = engine
        .get_state()
        .players
        .iter()
        .find(|p| p.faction == Faction::Villager && p.is_alive)
        .unwrap()
        .id;
    engine
        .execute_night_action(NightAction {
            player: wolf,
            action: NightActionType::Kill,
            target: Some(victim),
        })
        .unwrap();
    engine.next_phase().unwrap(); // Night -> DayDiscussion
    engine.next_phase().unwrap(); // DayDiscussion -> Voting
    engine.next_phase().unwrap(); // Voting -> resolution -> Night
    let state = engine.get_state();
    assert_eq!(state.players.len(), 7);
    assert!(state.dead_players.iter().any(|p| p.id == victim && !p.is_alive));
    assert_eq!(state.phase, GamePhase::Night);
    assert_eq!(state.day, 2);
}

fn custom_player(id: u64, rt: RoleType) -> Player {
    let role = Role::create(rt);
    Player {
        id,
        name: vec!['P'],
        role,
        faction: role.faction,
        is_alive: true,
        is_ai: true,
        personality: None,
    }
}

#[test]
fn test_resolve_night_protect_outranks_kill() {
    let mut engine = GameEngine::new(config(4)).unwrap();
    engine.state.players = vec![
        custom_player(0, RoleType::Werewolf),
        custom_player(1, RoleType::Guard),
        custom_player(2, RoleType::Villager),
        custom_player(3, RoleType::Witch),
    ];
    let actions = vec![
        NightAction { player: 0, action: NightActionType::Kill, target: Some(2) },
        NightAction { player: 1, action: NightActionType::Protect, target: Some(2) },
    ];
    engine.resolve_night_actions(&actions).unwrap();
    assert_eq!(engine.get_state().players.len(), 4);
    assert!(engine.get_state().dead_players.is_empty());
}

#[test]
fn test_resolve_night_poison_ignores_protection() {
    let mut engine = GameEngine::new(config(4)).unwrap();
    engine.state.players = vec![
        custom_player(0, RoleType::Werewolf),
        custom_player(1, RoleType::Guard),
        custom_player(2, RoleType::Villager),
        custom_player(3, RoleType::Witch),
    ];
    let actions = vec![
        NightAction { player: 3, action: NightActionType::Poison, target: Some(2) },
        NightAction { player: 1, action: NightActionType::Protect, target: Some(2) },
    ];
    engine.resolve_night_actions(&actions).unwrap();
    assert_eq!(engine.get_state().players.len(), 3);
    assert!(engine.get_state().dead_players.iter().any(|p| p.id == 2));
}

#[test]
fn test_resolve_night_heal_cancels_kill() {
    let mut engine = GameEngine::new(config(3)).unwrap();
    engine.state.players = vec![
        custom_player(0, RoleType::Werewolf),
        custom_player(1, RoleType::Witch),
        custom_player(2, RoleType::Villager),
    ];
    let actions = vec![
        NightAction { player: 0, action: NightActionType::Kill, target: Some(2) },
        NightAction { player: 1, action: NightActionType::Heal, target: Some(2) },
    ];
    engine.resolve_night_actions(&actions).unwrap();
    assert_eq!(engine.get_state().players.len(), 3);
}

#[test]
fn test_update_timer_counts_down() {
    let mut engine = initialized_engine(6);
    engine.start_game().unwrap();
    engine.next_phase().unwrap(); // DayDiscussion: 60 seconds
    assert_eq!(engine.get_state().time_remaining, Some(60));
    assert_eq!(engine.update_timer(20), Ok(false));
    assert_eq!(engine.get_state().time_remaining, Some(40));
    assert_eq!(engine.update_timer(40), Ok(true));
    assert_eq!(engine.get_state().time_remaining, None);
}
