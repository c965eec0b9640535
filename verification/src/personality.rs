//! Personality management: the fixed template library, random and
//! difficulty-based personality creation, per-role optimization, and
//! compatibility analysis. All trait values are scores in thousandths.
use vstd::prelude::*;
use crate::roles::{Role, RoleType};
use crate::score::{valid_score, clamped, clamp_add};
use crate::types::{AIPersonality, traits_wf};
use crate::rng::rand_below;
use crate::speech::chars_eq;

verus! {

/// The extended trait set a template describes.
#[derive(Debug, Clone, Copy, PartialEq, Eq, Structural)]
pub struct PersonalityTraits {
    pub aggressiveness: u32,
    pub logic: u32,
    pub deception: u32,
    pub trustfulness: u32,
    pub patience: u32,
    pub confidence: u32,
    pub empathy: u32,
    pub impulsiveness: u32,
}

/// How verbose a template speaks.
#[derive(Debug, Clone, Copy, PartialEq, Eq, Structural)]
pub enum SpeechVerbosity {
    Concise,
    Moderate,
    Verbose,
}

/// How formal a template speaks.
#[derive(Debug, Clone, Copy, PartialEq, Eq, Structural)]
pub enum SpeechFormality {
    Casual,
    Neutral,
    Formal,
}

/// A template's speech habits.
#[derive(Debug, Clone, Copy, PartialEq, Eq, Structural)]
pub struct SpeechPatterns {
    pub verbosity: SpeechVerbosity,
    pub formality: SpeechFormality,
    pub emotional_expression: u32,
    pub humor_usage: u32,
    pub question_frequency: u32,
    pub interruption_tendency: u32,
}

/// A template's behavioral tendencies.
#[derive(Debug, Clone, Copy, PartialEq, Eq, Structural)]
pub struct BehavioralTendencies {
    pub risk_taking: u32,
    pub team_cooperation: u32,
    pub leadership: u32,
    pub adaptability: u32,
    pub memory_retention: u32,
    pub pattern_recognition: u32,
}

/// A predefined personality template.
#[derive(Debug, Clone)]
pub struct PersonalityTemplate {
    pub id: u64,
    pub name: Vec<char>,
    pub base_traits: PersonalityTraits,
    pub speech_patterns: SpeechPatterns,
    pub behavioral_tendencies: BehavioralTendencies,
}

/// The template that belongs at each library slot.
pub open spec fn template_ok(t: PersonalityTemplate, idx: int) -> bool {
    &&& t.id == idx
    &&& t.name@ == spec_template_name(idx)
    &&& t.base_traits == spec_template_traits(idx)
    &&& t.speech_patterns == spec_template_speech(idx)
    &&& t.behavioral_tendencies == spec_template_behavior(idx)
}

/// The display name of each template.
pub open spec fn spec_template_name(idx: int) -> Seq<char> {
    if idx == 0 {
        seq!['A', 'n', 'a', 'l', 'y', 's', 't']
    } else if idx == 1 {
        seq!['F', 'i', 'r', 'e', 'b', 'r', 'a', 'n', 'd']
    } else if idx == 2 {
        seq!['T', 'r', 'i', 'c', 'k', 's', 't', 'e', 'r']
    } else if idx == 3 {
        seq!['W', 'a', 't', 'c', 'h', 'e', 'r']
    } else if idx == 4 {
        seq!['L', 'e', 'a', 'd', 'e', 'r']
    } else {
        seq!['W', 'i', 'l', 'd', 'c', 'a', 'r', 'd']
    }
}

/// The base traits of each template: the analyst, the firebrand, the
/// trickster, the watcher, the leader, and the wildcard.
pub open spec fn spec_template_traits(idx: int) -> PersonalityTraits {
    if idx == 0 {
        PersonalityTraits {
            aggressiveness: 300, logic: 900, deception: 200, trustfulness: 700,
            patience: 800, confidence: 700, empathy: 400, impulsiveness: 200,
        }
    } else if idx == 1 {
        PersonalityTraits {
            aggressiveness: 800, logic: 400, deception: 300, trustfulness: 600,
            patience: 200, confidence: 600, empathy: 800, impulsiveness: 900,
        }
    } else if idx == 2 {
        PersonalityTraits {
            aggressiveness: 500, logic: 700, deception: 900, trustfulness: 300,
            patience: 800, confidence: 800, empathy: 300, impulsiveness: 300,
        }
    } else if idx == 3 {
        PersonalityTraits {
            aggressiveness: 200, logic: 600, deception: 400, trustfulness: 800,
            patience: 900, confidence: 400, empathy: 700, impulsiveness: 100,
        }
    } else if idx == 4 {
        PersonalityTraits {
            aggressiveness: 700, logic: 800, deception: 400, trustfulness: 500,
            patience: 600, confidence: 900, empathy: 600, impulsiveness: 400,
        }
    } else {
        PersonalityTraits {
            aggressiveness: 600, logic: 300, deception: 500, trustfulness: 400,
            patience: 300, confidence: 700, empathy: 500, impulsiveness: 800,
        }
    }
}

/// The speech habits of each template.
pub open spec fn spec_template_speech(idx: int) -> SpeechPatterns {
    if idx == 0 {
        SpeechPatterns {
            verbosity: SpeechVerbosity::Moderate, formality: SpeechFormality::Formal,
            emotional_expression: 300, humor_usage: 200, question_frequency: 700,
            interruption_tendency: 200,
        }
    } else if idx == 1 {
        SpeechPatterns {
            verbosity: SpeechVerbosity::Verbose, formality: SpeechFormality::Casual,
            emotional_expression: 900, humor_usage: 500, question_frequency: 800,
            interruption_tendency: 800,
        }
    } else if idx == 2 {
        SpeechPatterns {
            verbosity: SpeechVerbosity::Moderate, formality: SpeechFormality::Neutral,
            emotional_expression: 600, humor_usage: 400, question_frequency: 500,
            interruption_tendency: 300,
        }
    } else if idx == 3 {
        SpeechPatterns {
            verbosity: SpeechVerbosity::Concise, formality: SpeechFormality::Formal,
            emotional_expression: 300, humor_usage: 100, question_frequency: 300,
            interruption_tendency: 100,
        }
    } else if idx == 4 {
        SpeechPatterns {
            verbosity: SpeechVerbosity::Moderate, formality: SpeechFormality::Formal,
            emotional_expression: 700, humor_usage: 300, question_frequency: 400,
            interruption_tendency: 500,
        }
    } else {
        SpeechPatterns {
            verbosity: SpeechVerbosity::Verbose, formality: SpeechFormality::Casual,
            emotional_expression: 800, humor_usage: 800, question_frequency: 900,
            interruption_tendency: 700,
        }
    }
}

/// The behavioral tendencies of each template.
pub open spec fn spec_template_behavior(idx: int) -> BehavioralTendencies {
    if idx == 0 {
        BehavioralTendencies {
            risk_taking: 300, team_cooperation: 800, leadership: 600, adaptability: 700,
            memory_retention: 900, pattern_recognition: 900,
        }
    } else if idx == 1 {
        BehavioralTendencies {
            risk_taking: 800, team_cooperation: 500, leadership: 700, adaptability: 600,
            memory_retention: 400, pattern_recognition: 500,
        }
    } else if idx == 2 {
        BehavioralTendencies {
            risk_taking: 700, team_cooperation: 400, leadership: 500, adaptability: 900,
            memory_retention: 800, pattern_recognition: 700,
        }
    } else if idx == 3 {
        BehavioralTendencies {
            risk_taking: 200, team_cooperation: 900, leadership: 300, adaptability: 400,
            memory_retention: 800, pattern_recognition: 800,
        }
    } else if idx == 4 {
        BehavioralTendencies {
            risk_taking: 600, team_cooperation: 700, leadership: 900, adaptability: 700,
            memory_retention: 700, pattern_recognition: 600,
        }
    } else {
        BehavioralTendencies {
            risk_taking: 900, team_cooperation: 400, leadership: 500, adaptability: 800,
            memory_retention: 300, pattern_recognition: 400,
        }
    }
}

/// The four base traits a template hands to a created personality, after
/// per-trait variation, stay inside the clamped band around the template.
pub open spec fn trait_in_band(value: u32, base: u32, variation: u32) -> bool {
    clamped(base - variation) <= value <= clamped(base + variation)
}

/// How traits are nudged to suit a role.
pub open spec fn spec_optimized_traits(
    t: crate::types::PersonalityTraits,
    rt: RoleType,
) -> crate::types::PersonalityTraits {
    match rt {
        RoleType::Werewolf => crate::types::PersonalityTraits {
            deception: spec_raise(t.deception, 300),
            trustfulness: spec_lower(t.trustfulness, 200),
            ..t
        },
        RoleType::Seer => crate::types::PersonalityTraits {
            logic: spec_raise(t.logic, 200),
            trustfulness: spec_raise(t.trustfulness, 100),
            ..t
        },
        RoleType::Witch => crate::types::PersonalityTraits {
            logic: spec_raise(t.logic, 150),
            aggressiveness: spec_lower(t.aggressiveness, 100),
            ..t
        },
        RoleType::Hunter => crate::types::PersonalityTraits {
            aggressiveness: spec_raise(t.aggressiveness, 200),
            ..t
        },
        RoleType::Guard => crate::types::PersonalityTraits {
            trustfulness: spec_raise(t.trustfulness, 150),
            aggressiveness: spec_lower(t.aggressiveness, 100),
            ..t
        },
        RoleType::Villager => crate::types::PersonalityTraits {
            logic: spec_raise(t.logic, 100),
            ..t
        },
    }
}

/// Raise a trait, capping at one.
pub open spec fn spec_raise(v: u32, by: u32) -> u32 {
    if v + by > 1000 {
        1000
    } else {
        (v + by) as u32
    }
}

/// Lower a trait, flooring at a tenth.
pub open spec fn spec_lower(v: u32, by: u32) -> u32 {
    if v - by >= 100 {
        (v - by) as u32
    } else {
        100
    }
}

/// The level a compatibility score falls into.
#[derive(Debug, Clone, Copy, PartialEq, Eq, Structural)]
pub enum CompatibilityLevel {
    High,
    Moderate,
    Low,
    Incompatible,
}

/// The result of comparing two personalities.
#[derive(Debug, Clone)]
pub struct CompatibilityAnalysis {
    pub compatibility_score: u32,
    pub relationship_type: CompatibilityLevel,
    pub main_differences: Vec<u32>,
}

/// The absolute difference of two scores.
pub open spec fn spec_diff(a: u32, b: u32) -> int {
    if a >= b {
        a - b
    } else {
        b - a
    }
}

/// The level each score falls into.
pub open spec fn spec_level(score: int) -> CompatibilityLevel {
    if score > 800 {
        CompatibilityLevel::High
    } else if score > 600 {
        CompatibilityLevel::Moderate
    } else if score > 400 {
        CompatibilityLevel::Low
    } else {
        CompatibilityLevel::Incompatible
    }
}

/// The personality manager: the template library and the operations that
/// derive concrete personalities from it.
pub struct PersonalityManager;

impl PersonalityManager {
    /// The six predefined templates.
    pub fn get_personality_templates() -> (r: Vec<PersonalityTemplate>)
        ensures
            r@.len() == 6,
            forall|i: int| 0 <= i < 6 ==> template_ok(#[trigger] r@[i], i),
    {
        let mut r: Vec<PersonalityTemplate> = Vec::new();
        r.push(PersonalityTemplate {
            id: 0,
            name: vec!['A', 'n', 'a', 'l', 'y', 's', 't'],
            base_traits: PersonalityTraits {
                aggressiveness: 300, logic: 900, deception: 200, trustfulness: 700,
                patience: 800, confidence: 700, empathy: 400, impulsiveness: 200,
            },
            speech_patterns: SpeechPatterns {
                verbosity: SpeechVerbosity::Moderate, formality: SpeechFormality::Formal,
                emotional_expression: 300, humor_usage: 200, question_frequency: 700,
                interruption_tendency: 200,
            },
            behavioral_tendencies: BehavioralTendencies {
                risk_taking: 300, team_cooperation: 800, leadership: 600, adaptability: 700,
                memory_retention: 900, pattern_recognition: 900,
            },
        });
        r.push(PersonalityTemplate {
            id: 1,
            name: vec!['F', 'i', 'r', 'e', 'b', 'r', 'a', 'n', 'd'],
            base_traits: PersonalityTraits {
                aggressiveness: 800, logic: 400, deception: 300, trustfulness: 600,
                patience: 200, confidence: 600, empathy: 800, impulsiveness: 900,
            },
            speech_patterns: SpeechPatterns {
                verbosity: SpeechVerbosity::Verbose, formality: SpeechFormality::Casual,
                emotional_expression: 900, humor_usage: 500, question_frequency: 800,
                interruption_tendency: 800,
            },
            behavioral_tendencies: BehavioralTendencies {
                risk_taking: 800, team_cooperation: 500, leadership: 700, adaptability: 600,
                memory_retention: 400, pattern_recognition: 500,
            },
        });
        r.push(PersonalityTemplate {
            id: 2,
            name: vec!['T', 'r', 'i', 'c', 'k', 's', 't', 'e', 'r'],
            base_traits: PersonalityTraits {
                aggressiveness: 500, logic: 700, deception: 900, trustfulness: 300,
                patience: 800, confidence: 800, empathy: 300, impulsiveness: 300,
            },
            speech_patterns: SpeechPatterns {
                verbosity: SpeechVerbosity::Moderate, formality: SpeechFormality::Neutral,
                emotional_expression: 600, humor_usage: 400, question_frequency: 500,
                interruption_tendency: 300,
            },
            behavioral_tendencies: BehavioralTendencies {
                risk_taking: 700, team_cooperation: 400, leadership: 500, adaptability: 900,
                memory_retention: 800, pattern_recognition: 700,
            },
        });
        r.push(PersonalityTemplate {
            id: 3,
            name: vec!['W', 'a', 't', 'c', 'h', 'e', 'r'],
            base_traits: PersonalityTraits {
                aggressiveness: 200, logic: 600, deception: 400, trustfulness: 800,
                patience: 900, confidence: 400, empathy: 700, impulsiveness: 100,
            },
            speech_patterns: SpeechPatterns {
                verbosity: SpeechVerbosity::Concise, formality: SpeechFormality::Formal,
                emotional_expression: 300, humor_usage: 100, question_frequency: 300,
                interruption_tendency: 100,
            },
            behavioral_tendencies: BehavioralTendencies {
                risk_taking: 200, team_cooperation: 900, leadership: 300, adaptability: 400,
                memory_retention: 800, pattern_recognition: 800,
            },
        });
        r.push(PersonalityTemplate {
            id: 4,
            name: vec!['L', 'e', 'a', 'd', 'e', 'r'],
            base_traits: PersonalityTraits {
                aggressiveness: 700, logic: 800, deception: 400, trustfulness: 500,
                patience: 600, confidence: 900, empathy: 600, impulsiveness: 400,
            },
            speech_patterns: SpeechPatterns {
                verbosity: SpeechVerbosity::Moderate, formality: SpeechFormality::Formal,
                emotional_expression: 700, humor_usage: 300, question_frequency: 400,
                interruption_tendency: 500,
            },
            behavioral_tendencies: BehavioralTendencies {
                risk_taking: 600, team_cooperation: 700, leadership: 900, adaptability: 700,
                memory_retention: 700, pattern_recognition: 600,
            },
        });
        r.push(PersonalityTemplate {
            id: 5,
            name: vec!['W', 'i', 'l', 'd', 'c', 'a', 'r', 'd'],
            base_traits: PersonalityTraits {
                aggressiveness: 600, logic: 300, deception: 500, trustfulness: 400,
                patience: 300, confidence: 700, empathy: 500, impulsiveness: 800,
            },
            speech_patterns: SpeechPatterns {
                verbosity: SpeechVerbosity::Verbose, formality: SpeechFormality::Casual,
                emotional_expression: 800, humor_usage: 800, question_frequency: 900,
                interruption_tendency: 700,
            },
            behavioral_tendencies: BehavioralTendencies {
                risk_taking: 900, team_cooperation: 400, leadership: 500, adaptability: 800,
                memory_retention: 300, pattern_recognition: 400,
            },
        });
        r
    }

    /// Nudge one trait by a uniform draw within the variation band,
    /// clamped to the score interval.
    fn vary_trait(base: u32, variation: u32) -> (r: u32)
        requires
            valid_score(base),
            variation <= 1000,
        ensures
            valid_score(r),
            trait_in_band(r, base, variation),
    {
        let span: u64 = 2 * variation as u64 + 1;
        let draw = rand_below(span);
        let delta: i64 = draw as i64 - variation as i64;
        clamp_add(base, delta)
    }

    /// Create a personality from a template, with per-trait variation.
    pub fn create_personality_from_template(
        template: &PersonalityTemplate,
        variation: u32,
    ) -> (p: AIPersonality)
        requires
            valid_score(template.base_traits.aggressiveness),
            valid_score(template.base_traits.logic),
            valid_score(template.base_traits.deception),
            valid_score(template.base_traits.trustfulness),
            variation <= 1000,
        ensures
            traits_wf(p.traits),
            trait_in_band(p.traits.aggressiveness, template.base_traits.aggressiveness, variation),
            trait_in_band(p.traits.logic, template.base_traits.logic, variation),
            trait_in_band(p.traits.deception, template.base_traits.deception, variation),
            trait_in_band(p.traits.trustfulness, template.base_traits.trustfulness, variation),
    {
        let traits = crate::types::PersonalityTraits {
            aggressiveness: Self::vary_trait(template.base_traits.aggressiveness, variation),
            logic: Self::vary_trait(template.base_traits.logic, variation),
            deception: Self::vary_trait(template.base_traits.deception, variation),
            trustfulness: Self::vary_trait(template.base_traits.trustfulness, variation),
        };
        let id = rand_below(0xFFFF_FFFF_FFFF_FFFF);
        AIPersonality { id, name: vec!['V', 'a', 'r', 'i', 'a', 'n', 't'], traits }
    }

    /// Create a fully random personality within the standard bands.
    pub fn create_random_personality() -> (p: AIPersonality)
        ensures
            traits_wf(p.traits),
            100 <= p.traits.aggressiveness < 900,
            300 <= p.traits.logic < 900,
            100 <= p.traits.deception < 800,
            200 <= p.traits.trustfulness < 800,
    {
        let traits = crate::types::PersonalityTraits {
            aggressiveness: 100 + rand_below(800) as u32,
            logic: 300 + rand_below(600) as u32,
            deception: 100 + rand_below(700) as u32,
            trustfulness: 200 + rand_below(600) as u32,
        };
        let id = rand_below(0xFFFF_FFFF_FFFF_FFFF);
        AIPersonality { id, name: vec!['R', 'a', 'n', 'd', 'o', 'm'], traits }
    }

    /// Nudge a personality to suit the role it was dealt.
    pub fn optimize_personality_for_role(base_personality: &AIPersonality, role: &Role) -> (p:
        AIPersonality)
        requires
            traits_wf(base_personality.traits),
        ensures
            traits_wf(p.traits),
            p.traits == spec_optimized_traits(base_personality.traits, role.role_type),
            p.id == base_personality.id,
    {
        let t = base_personality.traits;
        let optimized = match role.role_type {
            RoleType::Werewolf => crate::types::PersonalityTraits {
                deception: raise(t.deception, 300),
                trustfulness: lower(t.trustfulness, 200),
                ..t
            },
            RoleType::Seer => crate::types::PersonalityTraits {
                logic: raise(t.logic, 200),
                trustfulness: raise(t.trustfulness, 100),
                ..t
            },
            RoleType::Witch => crate::types::PersonalityTraits {
                logic: raise(t.logic, 150),
                aggressiveness: lower(t.aggressiveness, 100),
                ..t
            },
            RoleType::Hunter => crate::types::PersonalityTraits {
                aggressiveness: raise(t.aggressiveness, 200),
                ..t
            },
            RoleType::Guard => crate::types::PersonalityTraits {
                trustfulness: raise(t.trustfulness, 150),
                aggressiveness: lower(t.aggressiveness, 100),
                ..t
            },
            RoleType::Villager => crate::types::PersonalityTraits {
                logic: raise(t.logic, 100),
                ..t
            },
        };
        let mut name: Vec<char> = Vec::new();
        let src = &base_personality.name;
        let mut i: usize = 0;
        while i < src.len()
            decreases src@.len() - i,
        {
            name.push(src[i]);
            i = i + 1;
        }
        AIPersonality { id: base_personality.id, name, traits: optimized }
    }

    /// A short label for the personality's speaking style.
    pub fn get_speech_style_from_personality(personality: &AIPersonality) -> (r: &'static str)
        ensures
            ({
                let t = personality.traits;
                if t.logic > 700 {
                    r@ == "analytical"@
                } else if t.aggressiveness > 700 {
                    r@ == "aggressive"@
                } else if t.deception > 600 {
                    r@ == "devious"@
                } else if t.trustfulness > 700 {
                    r@ == "earnest"@
                } else {
                    r@ == "balanced"@
                }
            }),
    {
        let t = personality.traits;
        if t.logic > 700 {
            "analytical"
        } else if t.aggressiveness > 700 {
            "aggressive"
        } else if t.deception > 600 {
            "devious"
        } else if t.trustfulness > 700 {
            "earnest"
        } else {
            "balanced"
        }
    }

    /// Compare two personalities: the average absolute trait difference,
    /// inverted into a compatibility score and level.
    pub fn analyze_personality_compatibility(
        personality1: &AIPersonality,
        personality2: &AIPersonality,
    ) -> (r: CompatibilityAnalysis)
        requires
            traits_wf(personality1.traits),
            traits_wf(personality2.traits),
        ensures
            ({
                let a = personality1.traits;
                let b = personality2.traits;
                let d0 = spec_diff(a.aggressiveness, b.aggressiveness);
                let d1 = spec_diff(a.logic, b.logic);
                let d2 = spec_diff(a.deception, b.deception);
                let d3 = spec_diff(a.trustfulness, b.trustfulness);
                let avg = (d0 + d1 + d2 + d3) / 4;
                &&& r.compatibility_score == 1000 - avg
                &&& r.relationship_type == spec_level(1000 - avg)
                &&& r.main_differences@ == seq![d0 as u32, d1 as u32, d2 as u32, d3 as u32]
            }),
    {
        let a = personality1.traits;
        let b = personality2.traits;
        let d0 = abs_diff(a.aggressiveness, b.aggressiveness);
        let d1 = abs_diff(a.logic, b.logic);
        let d2 = abs_diff(a.deception, b.deception);
        let d3 = abs_diff(a.trustfulness, b.trustfulness);
        let avg = (d0 + d1 + d2 + d3) / 4;
        let score = 1000 - avg;
        let relationship_type = if score > 800 {
            CompatibilityLevel::High
        } else if score > 600 {
            CompatibilityLevel::Moderate
        } else if score > 400 {
            CompatibilityLevel::Low
        } else {
            CompatibilityLevel::Incompatible
        };
        let main_differences = vec![d0, d1, d2, d3];
        CompatibilityAnalysis { compatibility_score: score, relationship_type, main_differences }
    }

    /// The display name of a role.
    pub fn get_role_name(role_type: &RoleType) -> (r: &'static str)
        ensures
            match role_type {
                RoleType::Werewolf => r@ == "Werewolf"@,
                RoleType::Villager => r@ == "Villager"@,
                RoleType::Seer => r@ == "Seer"@,
                RoleType::Witch => r@ == "Witch"@,
                RoleType::Hunter => r@ == "Hunter"@,
                RoleType::Guard => r@ == "Guard"@,
            },
    {
        match role_type {
            RoleType::Werewolf => "Werewolf",
            RoleType::Villager => "Villager",
            RoleType::Seer => "Seer",
            RoleType::Witch => "Witch",
            RoleType::Hunter => "Hunter",
            RoleType::Guard => "Guard",
        }
    }
}

/// Raise a trait, capping at one.
fn raise(v: u32, by: u32) -> (r: u32)
    requires
        valid_score(v),
        by <= 1000,
    ensures
        r == spec_raise(v, by),
        valid_score(r),
{
    if v + by > 1000 {
        1000
    } else {
        v + by
    }
}

/// Lower a trait, flooring at a tenth.
fn lower(v: u32, by: u32) -> (r: u32)
    requires
        valid_score(v),
        by <= 1000,
    ensures
        r == spec_lower(v, by),
        valid_score(r),
{
    if v >= by && v - by >= 100 {
        v - by
    } else {
        100
    }
}

/// The absolute difference of two scores.
fn abs_diff(a: u32, b: u32) -> (r: u32)
    requires
        valid_score(a),
        valid_score(b),
    ensures
        r == spec_diff(a, b),
        r <= 1000,
{
    if a >= b {
        a - b
    } else {
        b - a
    }
}

/// Create a personality for a named difficulty: cautious and transparent
/// for easy games, analytic for normal ones, deceptive for hard ones,
/// near-perfect for expert ones, and random otherwise.
pub fn create_personality_by_difficulty(difficulty: &Vec<char>) -> (p: AIPersonality)
    ensures
        traits_wf(p.traits),
        difficulty@ == seq!['e', 'a', 's', 'y'] ==> p.traits.logic == 300 && p.traits.deception
            == 200,
        difficulty@ == seq!['n', 'o', 'r', 'm', 'a', 'l'] ==> {
            let base = spec_template_traits(0);
            &&& trait_in_band(p.traits.aggressiveness, base.aggressiveness, 200)
            &&& trait_in_band(p.traits.logic, base.logic, 200)
            &&& trait_in_band(p.traits.deception, base.deception, 200)
            &&& trait_in_band(p.traits.trustfulness, base.trustfulness, 200)
        },
        difficulty@ == seq!['h', 'a', 'r', 'd'] ==> p.traits.logic == 800 && p.traits.deception
            == 800,
        difficulty@ == seq!['e', 'x', 'p', 'e', 'r', 't'] ==> p.traits.logic == 900
            && p.traits.deception == 700 && p.traits.aggressiveness == 800,
        difficulty@ != seq!['e', 'a', 's', 'y'] && difficulty@ != seq!['n', 'o', 'r', 'm', 'a', 'l']
            && difficulty@ != seq!['h', 'a', 'r', 'd'] && difficulty@ != seq![
            'e',
            'x',
            'p',
            'e',
            'r',
            't',
        ] ==> {
            &&& 100 <= p.traits.aggressiveness < 900
            &&& 300 <= p.traits.logic < 900
            &&& 100 <= p.traits.deception < 800
            &&& 200 <= p.traits.trustfulness < 800
        },
{
    let templates = PersonalityManager::get_personality_templates();
    let easy: Vec<char> = vec!['e', 'a', 's', 'y'];
    let normal: Vec<char> = vec!['n', 'o', 'r', 'm', 'a', 'l'];
    let hard: Vec<char> = vec!['h', 'a', 'r', 'd'];
    let expert: Vec<char> = vec!['e', 'x', 'p', 'e', 'r', 't'];
    if chars_eq(difficulty, &easy) {
        let mut p = PersonalityManager::create_personality_from_template(&templates[3], 300);
        p.traits.logic = 300;
        p.traits.deception = 200;
        p
    } else if chars_eq(difficulty, &normal) {
        PersonalityManager::create_personality_from_template(&templates[0], 200)
    } else if chars_eq(difficulty, &hard) {
        let mut p = PersonalityManager::create_personality_from_template(&templates[2], 100);
        p.traits.logic = 800;
        p.traits.deception = 800;
        p
    } else if chars_eq(difficulty, &expert) {
        let mut p = PersonalityManager::create_personality_from_template(&templates[4], 50);
        p.traits.logic = 900;
        p.traits.deception = 700;
        p.traits.aggressiveness = 800;
        p
    } else {
        PersonalityManager::create_random_personality()
    }
}

} // verus!
