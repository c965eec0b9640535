use mindwolf::game::GameEngine;
use mindwolf::nlp::{Emotion, KeyInfo, NLPProcessor};
use mindwolf::personality::{
    create_personality_by_difficulty, CompatibilityLevel, PersonalityManager,
};
use mindwolf::roles::{generate_role_distribution, Role, RoleType};
use mindwolf::speech::{contains_sub, perform_speech_analysis};
use mindwolf::types::{AIPersonality, GameConfig, PersonalityTraits, SpeechType};

fn chars(s: &str) -> Vec<char> {
    s.chars().collect()
}

fn config(total: u8) -> GameConfig {
    GameConfig {
        total_players: total,
        role_distribution: generate_role_distribution(total),
        discussion_time: 60,
        voting_time: 30,
        enable_voice: false,
    }
}

#[test]
fn test_contains_sub_basics() {
    assert!(contains_sub(&chars("hello there"), &chars("lo th")));
    assert!(contains_sub(&chars("abc"), &chars("")));
    assert!(!contains_sub(&chars("abc"), &chars("abcd")));
    assert!(!contains_sub(&chars("hello"), &chars("world")));
}

#[test]
fn test_speech_analysis_values() {
    // One defensive phrase, short line: weight 300, confidence 600.
    assert_eq!(perform_speech_analysis(&chars("why suspect me")), (300, 600));
    // Nothing matches, normal length: weight 0, neutral confidence.
    assert_eq!(
        perform_speech_analysis(&chars("the weather is nice today")),
        (0, 500)
    );
    // One overconfident word in a short line: 100 + 100.
    assert_eq!(perform_speech_analysis(&chars("absolutely")), (200, 500));
}

#[test]
fn test_intent_priority() {
    let nlp = NLPProcessor::new();
    assert_eq!(
        nlp.analyze_intent(&chars("i vote for him")).intent_type,
        SpeechType::Vote
    );
    assert_eq!(
        nlp.analyze_intent(&chars("i suspect the quiet one")).intent_type,
        SpeechType::Accusation
    );
    assert_eq!(
        nlp.analyze_intent(&chars("it was not me")).intent_type,
        SpeechType::Defense
    );
    assert_eq!(
        nlp.analyze_intent(&chars("i checked him last night")).intent_type,
        SpeechType::Information
    );
    assert_eq!(
        nlp.analyze_intent(&chars("let us stay calm")).intent_type,
        SpeechType::Strategy
    );
    // A vote intent outranks an accusation in the same line.
    assert_eq!(
        nlp.analyze_intent(&chars("i suspect him so i vote him")).intent_type,
        SpeechType::Vote
    );
}

#[test]
fn test_emotion_buckets() {
    let nlp = NLPProcessor::new();
    assert_eq!(nlp.analyze_emotion(&chars("i am angry now")), Emotion::Anger);
    assert_eq!(nlp.analyze_emotion(&chars("that was not me")), Emotion::Nervous);
    assert_eq!(nlp.analyze_emotion(&chars("it must be him")), Emotion::Confident);
    assert_eq!(nlp.analyze_emotion(&chars("nothing to add")), Emotion::Calm);
}

#[test]
fn test_credibility_penalties() {
    let nlp = NLPProcessor::new();
    assert_eq!(nlp.calculate_credibility(&chars("a calm statement")), 700);
    assert_eq!(nlp.calculate_credibility(&chars("it is absolutely him")), 600);
    assert_eq!(nlp.calculate_credibility(&chars("why suspect me here")), 500);
    let long = "x".repeat(201);
    assert_eq!(nlp.calculate_credibility(&chars(&long)), 600);
}

#[test]
fn test_key_info_extraction() {
    let nlp = NLPProcessor::new();
    let info = nlp.extract_key_info(&chars("i am the seer and i checked him so vote"));
    assert_eq!(
        info,
        vec![KeyInfo::RoleClaim, KeyInfo::CheckResult, KeyInfo::VoteIntent]
    );
    assert!(nlp.extract_key_info(&chars("nothing here")).is_empty());
}

#[test]
fn test_targets_mentioned() {
    let mut engine = GameEngine::new(config(6)).unwrap();
    engine.initialize_game().unwrap();
    // Give two players recognizable names.
    engine.state.players[2].name = chars("alice");
    engine.state.players[4].name = chars("bob");
    let nlp = NLPProcessor::new();
    let targets = nlp.extract_targets(
        &chars("i think alice and bob acted oddly"),
        engine.get_state(),
    );
    assert_eq!(targets, vec![2, 4]);
}

#[test]
fn test_fallback_speech_pools() {
    let mut engine = GameEngine::new(config(6)).unwrap();
    engine.initialize_game().unwrap();
    let nlp = NLPProcessor::new();
    let mut wolf = engine.get_state().players[1].clone();
    wolf.role = Role::create(RoleType::Werewolf);
    engine.state.day = 1;
    let line = nlp.generate_fallback_speech(&wolf, engine.get_state());
    assert_eq!(line, chars("we should study the votes closely"));
    engine.state.day = 4;
    let line2 = nlp.generate_fallback_speech(&wolf, engine.get_state());
    assert_eq!(line2, chars("we should study the votes closely"));
    let mut seer = wolf.clone();
    seer.role = Role::create(RoleType::Seer);
    engine.state.day = 0;
    assert_eq!(
        nlp.generate_fallback_speech(&seer, engine.get_state()),
        chars("i have information to share")
    );
}

#[test]
fn test_post_process_speech() {
    let nlp = NLPProcessor::new();
    assert_eq!(
        nlp.post_process_speech(&chars("  hello over there  ")),
        chars("hello over there")
    );
    assert_eq!(
        nlp.post_process_speech(&chars("hi")),
        chars("let me think this over")
    );
    let long = "y".repeat(250);
    let processed = nlp.post_process_speech(&chars(&long));
    assert_eq!(processed.len(), 200);
    assert_eq!(processed[197..], ['.', '.', '.']);
}

#[test]
fn test_record_speech_caps_memory() {
    let mut nlp = NLPProcessor::new();
    for i in 0..60u64 {
        nlp.record_speech(i, chars("line"), mindwolf::types::GamePhase::DayDiscussion, 1);
    }
    assert_eq!(nlp.context_memory.len(), 50);
    assert_eq!(nlp.context_memory[0].speaker, 10);
    assert_eq!(nlp.context_memory[49].speaker, 59);
}

#[test]
fn test_personality_templates() {
    let templates = PersonalityManager::get_personality_templates();
    assert_eq!(templates.len(), 6);
    assert_eq!(templates[0].base_traits.logic, 900);
    assert_eq!(templates[2].base_traits.deception, 900);
    assert_eq!(templates[4].behavioral_tendencies.leadership, 900);
    for (i, t) in templates.iter().enumerate() {
        assert_eq!(t.id, i as u64);
    }
}

#[test]
fn test_optimize_personality_for_role() {
    let base = AIPersonality {
        id: 7,
        name: vec!['B'],
        traits: PersonalityTraits {
            aggressiveness: 500,
            logic: 500,
            deception: 500,
            trustfulness: 500,
        },
    };
    let wolf = PersonalityManager::optimize_personality_for_role(
        &base,
        &Role::create(RoleType::Werewolf),
    );
    assert_eq!(wolf.traits.deception, 800);
    assert_eq!(wolf.traits.trustfulness, 300);
    assert_eq!(wolf.traits.aggressiveness, 500);
    let seer = PersonalityManager::optimize_personality_for_role(
        &base,
        &Role::create(RoleType::Seer),
    );
    assert_eq!(seer.traits.logic, 700);
    assert_eq!(seer.traits.trustfulness, 600);
    // Raising saturates at one; lowering floors at a tenth.
    let high = AIPersonality {
        id: 8,
        name: vec!['H'],
        traits: PersonalityTraits {
            aggressiveness: 150,
            logic: 950,
            deception: 900,
            trustfulness: 150,
        },
    };
    let wolf2 = PersonalityManager::optimize_personality_for_role(
        &high,
        &Role::create(RoleType::Werewolf),
    );
    assert_eq!(wolf2.traits.deception, 1000);
    assert_eq!(wolf2.traits.trustfulness, 100);
}

#[test]
fn test_personality_compatibility() {
    let a = AIPersonality {
        id: 1,
        name: vec!['A'],
        traits: PersonalityTraits {
            aggressiveness: 500,
            logic: 500,
            deception: 500,
            trustfulness: 500,
        },
    };
    let same = PersonalityManager::analyze_personality_compatibility(&a, &a);
    assert_eq!(same.compatibility_score, 1000);
    assert_eq!(same.relationship_type, CompatibilityLevel::High);
    let b = AIPersonality {
        id: 2,
        name: vec!['B'],
        traits: PersonalityTraits {
            aggressiveness: 100,
            logic: 900,
            deception: 100,
            trustfulness: 900,
        },
    };
    let far = PersonalityManager::analyze_personality_compatibility(&a, &b);
    assert_eq!(far.compatibility_score, 600);
    assert_eq!(far.relationship_type, CompatibilityLevel::Low);
    assert_eq!(far.main_differences, vec![400, 400, 400, 400]);
}

#[test]
fn test_role_names() {
    assert_eq!(PersonalityManager::get_role_name(&RoleType::Werewolf), "Werewolf");
    assert_eq!(PersonalityManager::get_role_name(&RoleType::Seer), "Seer");
    assert_eq!(PersonalityManager::get_role_name(&RoleType::Guard), "Guard");
}

#[test]
fn test_personality_by_difficulty() {
    let easy = create_personality_by_difficulty(&chars("easy"));
    assert_eq!(easy.traits.logic, 300);
    assert_eq!(easy.traits.deception, 200);
    let hard = create_personality_by_difficulty(&chars("hard"));
    assert_eq!(hard.traits.logic, 800);
    assert_eq!(hard.traits.deception, 800);
    let expert = create_personality_by_difficulty(&chars("expert"));
    assert_eq!(expert.traits.logic, 900);
    assert_eq!(expert.traits.deception, 700);
    assert_eq!(expert.traits.aggressiveness, 800);
    let other = create_personality_by_difficulty(&chars("whatever"));
    assert!(other.traits.logic >= 300 && other.traits.logic < 900);
}

#[test]
fn test_random_personality_bands() {
    for _ in 0..20 {
        let p = PersonalityManager::create_random_personality();
        assert!(p.traits.aggressiveness >= 100 && p.traits.aggressiveness < 900);
        assert!(p.traits.logic >= 300 && p.traits.logic < 900);
        assert!(p.traits.deception >= 100 && p.traits.deception < 800);
        assert!(p.traits.trustfulness >= 200 && p.traits.trustfulness < 800);
    }
}

#[test]
fn test_speech_style_label() {
    let p = AIPersonality {
        id: 1,
        name: vec!['A'],
        traits: PersonalityTraits {
            aggressiveness: 300,
            logic: 800,
            deception: 300,
            trustfulness: 500,
        },
    };
    assert_eq!(PersonalityManager::get_speech_style_from_personality(&p), "analytical");
}
