//! The strategy selector: maps an agent's personality, role, and belief
//! state to concrete night actions, vote targets, and speech plans.
use vstd::prelude::*;
use crate::error::{AppError, AppResult};
use crate::roles::{Role, RoleType, Faction, spec_threat_level, threat_level};
use crate::types::{
    Player, GameState, NightAction, NightActionType, SpeechType, AIPersonality,
    PersonalityTraits, traits_wf,
};
use crate::reasoning::{
    ReasoningEngine, is_most_suspicious, is_most_trusted, spec_wolf_prob,
    lemma_most_trusted_unique, lemma_most_suspicious_unique,
};
use crate::score::valid_score;
use crate::rng::{rand_below, rand_chance};

verus! {

/// An agent's behavioral stance.
#[derive(Debug, Clone, Copy, PartialEq, Eq, Structural)]
pub enum StrategyType {
    Aggressive,
    Defensive,
    Neutral,
    Deceptive,
    Logical,
    Chaotic,
}

/// How the agent phrases its speech.
#[derive(Debug, Clone, Copy, PartialEq, Eq, Structural)]
pub enum SpeechStyle {
    Concise,
    Detailed,
    Emotional,
    Analytical,
    Casual,
}

/// How the agent picks vote targets.
#[derive(Debug, Clone, Copy, PartialEq, Eq, Structural)]
pub enum VotingStrategy {
    FollowMajority,
    Independent,
    Protective,
    Aggressive,
    Random,
}

/// The tone of a planned speech.
#[derive(Debug, Clone, Copy, PartialEq, Eq, Structural)]
pub enum SpeechTone {
    Aggressive,
    Defensive,
    Analytical,
    Confident,
    Neutral,
}

/// The agent's current overall strategy.
#[derive(Debug, Clone)]
pub struct Strategy {
    pub strategy_type: StrategyType,
    pub priority_targets: Vec<u64>,
    pub avoid_targets: Vec<u64>,
    pub speech_style: SpeechStyle,
    pub voting_strategy: VotingStrategy,
    pub deception_level: u32,
}

/// A concrete plan for one speech.
#[derive(Debug, Clone)]
pub struct SpeechStrategy {
    pub target: Option<u64>,
    pub tone: SpeechTone,
    pub key_points: Vec<Vec<char>>,
    pub confidence_level: u32,
    pub deception_elements: Vec<Vec<char>>,
}

// ---------------------------------------------------------------------------
// Initial strategy derivation
// ---------------------------------------------------------------------------

/// The stance a personality takes for its faction: werewolves lean toward
/// deception and attack, villagers toward logic and neutrality.
pub open spec fn spec_initial_strategy_type(t: PersonalityTraits, f: Faction) -> StrategyType {
    match f {
        Faction::Werewolf => if t.deception > 700 {
            StrategyType::Deceptive
        } else if t.aggressiveness > 600 {
            StrategyType::Aggressive
        } else {
            StrategyType::Defensive
        },
        Faction::Villager => if t.logic > 700 {
            StrategyType::Logical
        } else if t.aggressiveness > 600 {
            StrategyType::Aggressive
        } else {
            StrategyType::Neutral
        },
    }
}

/// The speech style a personality leans toward.
pub open spec fn spec_initial_speech_style(t: PersonalityTraits) -> SpeechStyle {
    if t.logic > 700 {
        SpeechStyle::Analytical
    } else if t.aggressiveness > 600 {
        SpeechStyle::Emotional
    } else {
        SpeechStyle::Concise
    }
}

/// The voting policy each stance entails.
pub open spec fn spec_voting_strategy_for(st: StrategyType) -> VotingStrategy {
    match st {
        StrategyType::Aggressive => VotingStrategy::Aggressive,
        StrategyType::Defensive => VotingStrategy::Protective,
        StrategyType::Logical => VotingStrategy::Independent,
        StrategyType::Deceptive => VotingStrategy::FollowMajority,
        _ => VotingStrategy::Independent,
    }
}

/// The tone each speech style produces.
pub open spec fn spec_speech_tone(ss: SpeechStyle) -> SpeechTone {
    match ss {
        SpeechStyle::Analytical => SpeechTone::Analytical,
        SpeechStyle::Emotional => SpeechTone::Aggressive,
        SpeechStyle::Casual => SpeechTone::Neutral,
        _ => SpeechTone::Confident,
    }
}

// ---------------------------------------------------------------------------
// Candidate predicates
// ---------------------------------------------------------------------------

/// `id` names a live villager-faction player on the roster.
pub open spec fn spec_alive_villager(gs: GameState, id: u64) -> bool {
    exists|k: int|
        0 <= k < gs.players@.len() && (#[trigger] gs.players@[k]).id == id
            && gs.players@[k].is_alive && gs.players@[k].faction == Faction::Villager
}

/// `id` names a live player other than the agent itself.
pub open spec fn spec_alive_other(gs: GameState, id: u64, self_id: u64) -> bool {
    exists|k: int|
        0 <= k < gs.players@.len() && (#[trigger] gs.players@[k]).id == id
            && gs.players@[k].is_alive && id != self_id
}

/// A medium-suspicion kill candidate: a live villager whose estimated
/// hostile-faction probability is neither low nor high.
pub open spec fn spec_medium_suspicion(gs: GameState, re: ReasoningEngine, id: u64) -> bool {
    &&& spec_alive_villager(gs, id)
    &&& 300 <= spec_wolf_prob(re, id) <= 700
}

/// The strategic value of roster slot `k` as a kill target: low perceived
/// suspicion times the fixed threat level of the role. Non-candidates
/// score zero.
pub open spec fn spec_cand_score(gs: GameState, re: ReasoningEngine, k: int) -> int {
    let p = gs.players@[k];
    if p.is_alive && p.faction == Faction::Villager {
        (1000 - spec_wolf_prob(re, p.id)) * spec_threat_level(p.role.role_type)
    } else {
        0
    }
}

/// `id` is the strategic kill choice: the first roster slot attaining the
/// maximal positive strategic value.
pub open spec fn is_strategic_choice(gs: GameState, re: ReasoningEngine, id: u64) -> bool {
    exists|k: int|
        #![auto]
        0 <= k < gs.players@.len() && gs.players@[k].id == id && spec_cand_score(gs, re, k) > 0
            && (forall|j: int| 0 <= j < k ==> spec_cand_score(gs, re, j) < spec_cand_score(gs, re, k))
            && (forall|j: int|
            k < j < gs.players@.len() ==> spec_cand_score(gs, re, j) <= spec_cand_score(gs, re, k))
}

// ---------------------------------------------------------------------------
// Night-action outcome relations
// ---------------------------------------------------------------------------

/// What a werewolf kill decision must look like for each stance. The
/// target is always a living villager-faction player; the aggressive
/// stance takes the most trusted player whenever that player qualifies.
pub open spec fn wolf_kill_post(
    st: StrategyType,
    gs: GameState,
    re: ReasoningEngine,
    self_id: u64,
    r: Option<NightAction>,
) -> bool {
    if !(exists|id: u64| spec_alive_villager(gs, id)) {
        r is None
    } else {
        r matches Some(a) && a.player == self_id && a.action == NightActionType::Kill
            && (a.target matches Some(t) && match st {
            StrategyType::Aggressive => spec_alive_villager(gs, t) && (forall|id: u64|
                is_most_trusted(re.nodes@, id) && spec_alive_villager(gs, id) ==> t == id),
            StrategyType::Deceptive => if exists|id: u64| spec_medium_suspicion(gs, re, id) {
                spec_medium_suspicion(gs, re, t)
            } else {
                spec_alive_villager(gs, t)
            },
            _ => if exists|id: u64| is_strategic_choice(gs, re, id) {
                is_strategic_choice(gs, re, t)
            } else {
                spec_alive_villager(gs, t)
            },
        })
    }
}

/// What a seer check decision must look like: a living player other
/// than the seer, the most suspicious one whenever that player
/// qualifies.
pub open spec fn seer_check_post(
    gs: GameState,
    re: ReasoningEngine,
    self_id: u64,
    r: Option<NightAction>,
) -> bool {
    if !(exists|id: u64| spec_alive_other(gs, id, self_id)) {
        r is None
    } else {
        r matches Some(a) && a.player == self_id && a.action == NightActionType::Check
            && (a.target matches Some(t) && spec_alive_other(gs, t, self_id) && (forall|id: u64|
            is_most_suspicious(re.nodes@, id) && spec_alive_other(gs, id, self_id) ==> t == id))
    }
}

/// What a witch decision must look like: either a heal whose target is
/// resolved externally against the night's kill, or a poison against the
/// most suspicious player.
pub open spec fn witch_action_post(re: ReasoningEngine, self_id: u64, r: Option<
    NightAction,
>) -> bool {
    r matches Some(a) && a.player == self_id && ((a.action == NightActionType::Heal && a.target
        is None) || (a.action == NightActionType::Poison && if re.nodes@.len() > 0 {
        a.target matches Some(t) && is_most_suspicious(re.nodes@, t)
    } else {
        a.target is None
    }))
}

/// What a guard decision must look like: a living player other than
/// the guard, the most trusted one whenever that player qualifies.
pub open spec fn guard_protect_post(
    gs: GameState,
    re: ReasoningEngine,
    self_id: u64,
    r: Option<NightAction>,
) -> bool {
    if !(exists|id: u64| spec_alive_other(gs, id, self_id)) {
        r is None
    } else {
        r matches Some(a) && a.player == self_id && a.action == NightActionType::Protect
            && (a.target matches Some(t) && spec_alive_other(gs, t, self_id) && (forall|id: u64|
            is_most_trusted(re.nodes@, id) && spec_alive_other(gs, id, self_id) ==> t == id))
    }
}

// ---------------------------------------------------------------------------
// Exec helpers
// ---------------------------------------------------------------------------

/// Collect the ids of live villager-faction players: sound and complete.
fn collect_alive_villagers(gs: &GameState) -> (r: Vec<u64>)
    ensures
        forall|j: int| 0 <= j < r@.len() ==> spec_alive_villager(*gs, #[trigger] r@[j]),
        forall|id: u64|
            #![auto]
            spec_alive_villager(*gs, id) ==> exists|j: int| 0 <= j < r@.len() && r@[j] == id,
        (r@.len() > 0) == (exists|id: u64| spec_alive_villager(*gs, id)),
{
    let players = &gs.players;
    let mut r: Vec<u64> = Vec::new();
    let mut i: usize = 0;
    while i < players.len()
        invariant
            0 <= i <= players@.len(),
            players@ == gs.players@,
            forall|j: int| 0 <= j < r@.len() ==> spec_alive_villager(*gs, #[trigger] r@[j]),
            forall|k: int|
                0 <= k < i && (#[trigger] players@[k]).is_alive && players@[k].faction
                    == Faction::Villager ==> exists|j: int|
                    0 <= j < r@.len() && r@[j] == players@[k].id,
        decreases players@.len() - i,
    {
        let p = &players[i];
        if p.is_alive && p.faction == Faction::Villager {
            let ghost pre = r@;
            r.push(p.id);
            proof {
                assert(players@[i as int].is_alive && players@[i as int].faction
                    == Faction::Villager);
                assert(r@[pre.len() as int] == players@[i as int].id);
                assert forall|k: int|
                    0 <= k < i + 1 && (#[trigger] players@[k]).is_alive && players@[k].faction
                        == Faction::Villager implies exists|j: int|
                    0 <= j < r@.len() && r@[j] == players@[k].id by {
                    if k < i {
                        let jj = choose|jj: int| 0 <= jj < pre.len() && pre[jj] == players@[k].id;
                        assert(r@[jj] == players@[k].id);
                    } else {
                        assert(r@[pre.len() as int] == players@[k].id);
                    }
                }
            }
        }
        i = i + 1;
    }
    proof {
        assert forall|id: u64| spec_alive_villager(*gs, id) implies exists|j: int|
            0 <= j < r@.len() && r@[j] == id by {
            let k = choose|k: int|
                0 <= k < gs.players@.len() && (#[trigger] gs.players@[k]).id == id
                    && gs.players@[k].is_alive && gs.players@[k].faction == Faction::Villager;
            assert(players@[k].is_alive && players@[k].faction == Faction::Villager);
        }
        if r@.len() > 0 {
            assert(spec_alive_villager(*gs, r@[0]));
        }
    }
    r
}

/// Collect the ids of live players other than the agent: sound and
/// complete.
pub(crate) fn collect_alive_others(gs: &GameState, self_id: u64) -> (r: Vec<u64>)
    ensures
        forall|j: int| 0 <= j < r@.len() ==> spec_alive_other(*gs, #[trigger] r@[j], self_id),
        forall|id: u64|
            #![auto]
            spec_alive_other(*gs, id, self_id) ==> exists|j: int|
                0 <= j < r@.len() && r@[j] == id,
        (r@.len() > 0) == (exists|id: u64| spec_alive_other(*gs, id, self_id)),
{
    let players = &gs.players;
    let mut r: Vec<u64> = Vec::new();
    let mut i: usize = 0;
    while i < players.len()
        invariant
            0 <= i <= players@.len(),
            players@ == gs.players@,
            forall|j: int| 0 <= j < r@.len() ==> spec_alive_other(*gs, #[trigger] r@[j], self_id),
            forall|k: int|
                0 <= k < i && (#[trigger] players@[k]).is_alive && players@[k].id != self_id
                    ==> exists|j: int| 0 <= j < r@.len() && r@[j] == players@[k].id,
        decreases players@.len() - i,
    {
        let p = &players[i];
        if p.is_alive && p.id != self_id {
            let ghost pre = r@;
            r.push(p.id);
            proof {
                assert(players@[i as int].is_alive && players@[i as int].id != self_id);
                assert(r@[pre.len() as int] == players@[i as int].id);
                assert forall|k: int|
                    0 <= k < i + 1 && (#[trigger] players@[k]).is_alive && players@[k].id
                        != self_id implies exists|j: int|
                    0 <= j < r@.len() && r@[j] == players@[k].id by {
                    if k < i {
                        let jj = choose|jj: int| 0 <= jj < pre.len() && pre[jj] == players@[k].id;
                        assert(r@[jj] == players@[k].id);
                    } else {
                        assert(r@[pre.len() as int] == players@[k].id);
                    }
                }
            }
        }
        i = i + 1;
    }
    proof {
        assert forall|id: u64| spec_alive_other(*gs, id, self_id) implies exists|j: int|
            0 <= j < r@.len() && r@[j] == id by {
            let k = choose|k: int|
                0 <= k < gs.players@.len() && (#[trigger] gs.players@[k]).id == id
                    && gs.players@[k].is_alive && id != self_id;
            assert(players@[k].is_alive && players@[k].id != self_id);
        }
        if r@.len() > 0 {
            assert(spec_alive_other(*gs, r@[0], self_id));
        }
    }
    r
}

/// Whether an id occurs in a candidate list.
fn id_in_list(ids: &Vec<u64>, id: u64) -> (r: bool)
    ensures
        r == exists|j: int| 0 <= j < ids@.len() && ids@[j] == id,
{
    let mut i: usize = 0;
    while i < ids.len()
        invariant
            0 <= i <= ids@.len(),
            forall|j: int| 0 <= j < i ==> ids@[j] != id,
        decreases ids@.len() - i,
    {
        if ids[i] == id {
            proof {
                assert(ids@[i as int] == id);
            }
            return true;
        }
        i = i + 1;
    }
    false
}

/// Pick one id uniformly at random, or nothing from an empty list.
pub(crate) fn pick_random_id(ids: &Vec<u64>) -> (r: Option<u64>)
    ensures
        (r is None) == (ids@.len() == 0),
        r matches Some(t) ==> exists|j: int| 0 <= j < ids@.len() && ids@[j] == t,
{
    if ids.len() == 0 {
        return None;
    }
    let j = rand_below(ids.len() as u64) as usize;
    proof {
        assert(ids@[j as int] == ids@[j as int]);
    }
    Some(ids[j])
}

// ---------------------------------------------------------------------------
// The engine
// ---------------------------------------------------------------------------

/// The strategy selector of one agent.
pub struct StrategyEngine {
    pub personality: AIPersonality,
    pub current_strategy: Strategy,
}

/// The deception level stays a valid score.
pub open spec fn strategy_wf(s: Strategy) -> bool {
    valid_score(s.deception_level)
}

impl StrategyEngine {
    /// The engine's structural invariant.
    pub open spec fn wf(self) -> bool {
        &&& traits_wf(self.personality.traits)
        &&& strategy_wf(self.current_strategy)
    }

    /// Derive the initial strategy from personality and role.
    pub fn new(personality: AIPersonality, role: &Role) -> (r: StrategyEngine)
        requires
            traits_wf(personality.traits),
        ensures
            r.wf(),
            r.personality == personality,
            ({
                let s = r.current_strategy;
                &&& s.strategy_type == spec_initial_strategy_type(personality.traits, role.faction)
                &&& s.speech_style == spec_initial_speech_style(personality.traits)
                &&& s.voting_strategy == spec_voting_strategy_for(s.strategy_type)
                &&& s.deception_level == personality.traits.deception
                &&& s.priority_targets@.len() == 0
                &&& s.avoid_targets@.len() == 0
            }),
    {
        let t = personality.traits;
        let strategy_type = match role.faction {
            Faction::Werewolf => {
                if t.deception > 700 {
                    StrategyType::Deceptive
                } else if t.aggressiveness > 600 {
                    StrategyType::Aggressive
                } else {
                    StrategyType::Defensive
                }
            },
            Faction::Villager => {
                if t.logic > 700 {
                    StrategyType::Logical
                } else if t.aggressiveness > 600 {
                    StrategyType::Aggressive
                } else {
                    StrategyType::Neutral
                }
            },
        };
        let speech_style = if t.logic > 700 {
            SpeechStyle::Analytical
        } else if t.aggressiveness > 600 {
            SpeechStyle::Emotional
        } else {
            SpeechStyle::Concise
        };
        let voting_strategy = match strategy_type {
            StrategyType::Aggressive => VotingStrategy::Aggressive,
            StrategyType::Defensive => VotingStrategy::Protective,
            StrategyType::Logical => VotingStrategy::Independent,
            StrategyType::Deceptive => VotingStrategy::FollowMajority,
            _ => VotingStrategy::Independent,
        };
        let current_strategy = Strategy {
            strategy_type,
            priority_targets: Vec::new(),
            avoid_targets: Vec::new(),
            speech_style,
            voting_strategy,
            deception_level: t.deception,
        };
        StrategyEngine { personality, current_strategy }
    }

    /// Decide this agent's night action, dispatched on its role.
    pub fn decide_night_action(
        &self,
        self_id: u64,
        my_role: &Role,
        game_state: &GameState,
        reasoning: &ReasoningEngine,
    ) -> (r: AppResult<Option<NightAction>>)
        requires
            reasoning.wf(),
        ensures
            r is Ok,
            ({
                let a = r->Ok_0;
                match my_role.role_type {
                    RoleType::Werewolf => wolf_kill_post(
                        self.current_strategy.strategy_type,
                        *game_state,
                        *reasoning,
                        self_id,
                        a,
                    ),
                    RoleType::Seer => seer_check_post(*game_state, *reasoning, self_id, a),
                    RoleType::Witch => witch_action_post(*reasoning, self_id, a),
                    RoleType::Guard => guard_protect_post(*game_state, *reasoning, self_id, a),
                    _ => a is None,
                }
            }),
    {
        match my_role.role_type {
            RoleType::Werewolf => self.decide_werewolf_kill(self_id, game_state, reasoning),
            RoleType::Seer => self.decide_seer_check(self_id, game_state, reasoning),
            RoleType::Witch => self.decide_witch_action(self_id, game_state, reasoning),
            RoleType::Guard => self.decide_guard_protect(self_id, game_state, reasoning),
            _ => Ok(None),
        }
    }

    /// Choose a kill target for a werewolf, by stance, always a living
    /// villager-faction player.
    fn decide_werewolf_kill(
        &self,
        self_id: u64,
        game_state: &GameState,
        reasoning: &ReasoningEngine,
    ) -> (r: AppResult<Option<NightAction>>)
        requires
            reasoning.wf(),
        ensures
            r is Ok,
            wolf_kill_post(
                self.current_strategy.strategy_type,
                *game_state,
                *reasoning,
                self_id,
                r->Ok_0,
            ),
    {
        let candidates = collect_alive_villagers(game_state);
        if candidates.len() == 0 {
            return Ok(None);
        }
        let target: Option<u64> = match self.current_strategy.strategy_type {
            StrategyType::Aggressive => {
                match reasoning.get_most_trusted_player() {
                    Some(mt) => {
                        if id_in_list(&candidates, mt) {
                            proof {
                                assert forall|id: u64|
                                    is_most_trusted(reasoning.nodes@, id) && spec_alive_villager(
                                        *game_state,
                                        id,
                                    ) implies mt == id by {
                                    lemma_most_trusted_unique(reasoning.nodes@, id, mt);
                                }
                                let jj = choose|jj: int|
                                    0 <= jj < candidates@.len() && candidates@[jj] == mt;
                                assert(spec_alive_villager(*game_state, mt));
                            }
                            Some(mt)
                        } else {
                            let pick = pick_random_id(&candidates);
                            proof {
                                // The most trusted player is no live villager:
                                // were it one, the complete candidate list
                                // would hold it.
                                assert forall|id: u64|
                                    !(is_most_trusted(reasoning.nodes@, id)
                                        && spec_alive_villager(*game_state, id)) by {
                                    if is_most_trusted(reasoning.nodes@, id) && spec_alive_villager(
                                        *game_state,
                                        id,
                                    ) {
                                        lemma_most_trusted_unique(reasoning.nodes@, id, mt);
                                    }
                                }
                            }
                            pick
                        }
                    },
                    None => pick_random_id(&candidates),
                }
            },
            StrategyType::Deceptive => {
                Some(self.select_medium_suspicion_target(&candidates, game_state, reasoning))
            },
            _ => Some(self.select_strategic_target(&candidates, game_state, reasoning)),
        };
        match target {
            Some(t) => Ok(
                Some(
                    NightAction { player: self_id, action: NightActionType::Kill, target: Some(t) },
                ),
            ),
            None => Ok(None),
        }
    }

    /// Pick a medium-suspicion target, falling back to any live villager.
    fn select_medium_suspicion_target(
        &self,
        candidates: &Vec<u64>,
        game_state: &GameState,
        reasoning: &ReasoningEngine,
    ) -> (t: u64)
        requires
            reasoning.wf(),
            candidates@.len() > 0,
            forall|j: int|
                0 <= j < candidates@.len() ==> spec_alive_villager(
                    *game_state,
                    #[trigger] candidates@[j],
                ),
            forall|id: u64|
                #![auto]
                spec_alive_villager(*game_state, id) ==> exists|j: int|
                    0 <= j < candidates@.len() && candidates@[j] == id,
        ensures
            if exists|id: u64| spec_medium_suspicion(*game_state, *reasoning, id) {
                spec_medium_suspicion(*game_state, *reasoning, t)
            } else {
                spec_alive_villager(*game_state, t)
            },
    {
        let mut medium: Vec<u64> = Vec::new();
        let mut i: usize = 0;
        while i < candidates.len()
            invariant
                0 <= i <= candidates@.len(),
                reasoning.wf(),
                forall|j: int|
                    0 <= j < candidates@.len() ==> spec_alive_villager(
                        *game_state,
                        #[trigger] candidates@[j],
                    ),
                forall|j: int|
                    0 <= j < medium@.len() ==> spec_medium_suspicion(
                        *game_state,
                        *reasoning,
                        #[trigger] medium@[j],
                    ),
                forall|j: int|
                    #![auto]
                    0 <= j < i && spec_medium_suspicion(*game_state, *reasoning, candidates@[j])
                        ==> medium@.len() > 0,
            decreases candidates@.len() - i,
        {
            let id = candidates[i];
            let prob = reasoning.get_werewolf_probability(id);
            if 300 <= prob && prob <= 700 {
                medium.push(id);
            }
            i = i + 1;
        }
        let pool: &Vec<u64> = if medium.len() > 0 {
            &medium
        } else {
            candidates
        };
        let j = rand_below(pool.len() as u64) as usize;
        let chosen = pool[j];
        proof {
            if medium@.len() == 0 {
                assert forall|id: u64|
                    !spec_medium_suspicion(*game_state, *reasoning, id) by {
                    if spec_medium_suspicion(*game_state, *reasoning, id) {
                        assert(spec_alive_villager(*game_state, id));
                        let jj = choose|jj: int|
                            0 <= jj < candidates@.len() && candidates@[jj] == id;
                        assert(spec_medium_suspicion(*game_state, *reasoning, candidates@[jj]));
                    }
                }
            }
        }
        chosen
    }

    /// Pick the target with the best strategic value, falling back to a
    /// uniformly random live villager when every value is zero.
    fn select_strategic_target(
        &self,
        candidates: &Vec<u64>,
        game_state: &GameState,
        reasoning: &ReasoningEngine,
    ) -> (t: u64)
        requires
            reasoning.wf(),
            candidates@.len() > 0,
            forall|j: int|
                0 <= j < candidates@.len() ==> spec_alive_villager(
                    *game_state,
                    #[trigger] candidates@[j],
                ),
        ensures
            if exists|id: u64| is_strategic_choice(*game_state, *reasoning, id) {
                is_strategic_choice(*game_state, *reasoning, t)
            } else {
                spec_alive_villager(*game_state, t)
            },
    {
        let players = &game_state.players;
        let mut best_id: Option<u64> = None;
        let mut best_score: u32 = 0;
        let ghost mut bk: int = 0;
        let mut i: usize = 0;
        while i < players.len()
            invariant
                0 <= i <= players@.len(),
                players@ == game_state.players@,
                reasoning.wf(),
                match best_id {
                    None => best_score == 0 && forall|j: int|
                        0 <= j < i ==> spec_cand_score(*game_state, *reasoning, j) <= 0,
                    Some(t) => {
                        &&& 0 <= bk < i
                        &&& players@[bk].id == t
                        &&& spec_cand_score(*game_state, *reasoning, bk) == best_score
                        &&& best_score > 0
                        &&& forall|j: int|
                            0 <= j < bk ==> spec_cand_score(*game_state, *reasoning, j)
                                < spec_cand_score(*game_state, *reasoning, bk)
                        &&& forall|j: int|
                            bk < j < i ==> spec_cand_score(*game_state, *reasoning, j)
                                <= spec_cand_score(*game_state, *reasoning, bk)
                    },
                },
            decreases players@.len() - i,
        {
            let p = &players[i];
            let score: u32 = if p.is_alive && p.faction == Faction::Villager {
                let prob = reasoning.get_werewolf_probability(p.id);
                let threat = threat_level(p.role.role_type);
                proof {
                    assert((1000 - prob) * threat <= 1000 * 1000) by (nonlinear_arith)
                        requires prob <= 1000 && threat <= 1000;
                }
                (1000 - prob) * threat
            } else {
                0
            };
            proof {
                assert(score == spec_cand_score(*game_state, *reasoning, i as int));
            }
            if score > best_score {
                best_id = Some(p.id);
                best_score = score;
                proof {
                    bk = i as int;
                }
            }
            i = i + 1;
        }
        match best_id {
            Some(t) => {
                proof {
                    assert(is_strategic_choice(*game_state, *reasoning, t));
                }
                t
            },
            None => {
                let j = rand_below(candidates.len() as u64) as usize;
                proof {
                    assert forall|id: u64| !is_strategic_choice(*game_state, *reasoning, id) by {}
                }
                candidates[j]
            },
        }
    }

    /// Choose a check target for the seer: the most suspicious player
    /// when that player is a live other, else a uniformly random live
    /// other.
    fn decide_seer_check(
        &self,
        self_id: u64,
        game_state: &GameState,
        reasoning: &ReasoningEngine,
    ) -> (r: AppResult<Option<NightAction>>)
        requires
            reasoning.wf(),
        ensures
            r is Ok,
            seer_check_post(*game_state, *reasoning, self_id, r->Ok_0),
    {
        let candidates = collect_alive_others(game_state, self_id);
        if candidates.len() == 0 {
            return Ok(None);
        }
        let target: Option<u64> = match reasoning.get_most_suspicious_player() {
            Some(ms) => {
                if id_in_list(&candidates, ms) {
                    proof {
                        assert forall|id: u64|
                            is_most_suspicious(reasoning.nodes@, id) && spec_alive_other(
                                *game_state,
                                id,
                                self_id,
                            ) implies ms == id by {
                            lemma_most_suspicious_unique(reasoning.nodes@, id, ms);
                        }
                        let jj = choose|jj: int|
                            0 <= jj < candidates@.len() && candidates@[jj] == ms;
                        assert(spec_alive_other(*game_state, ms, self_id));
                    }
                    Some(ms)
                } else {
                    let pick = pick_random_id(&candidates);
                    proof {
                        // The most suspicious player is not a live other:
                        // were it one, the complete candidate list would
                        // hold it.
                        assert forall|id: u64|
                            !(is_most_suspicious(reasoning.nodes@, id) && spec_alive_other(
                                *game_state,
                                id,
                                self_id,
                            )) by {
                            if is_most_suspicious(reasoning.nodes@, id) && spec_alive_other(
                                *game_state,
                                id,
                                self_id,
                            ) {
                                lemma_most_suspicious_unique(reasoning.nodes@, id, ms);
                            }
                        }
                    }
                    pick
                }
            },
            None => pick_random_id(&candidates),
        };
        match target {
            Some(t) => Ok(
                Some(
                    NightAction {
                        player: self_id,
                        action: NightActionType::Check,
                        target: Some(t),
                    },
                ),
            ),
            None => Ok(None),
        }
    }

    /// Choose the witch's action: mostly heal, sometimes poison the most
    /// suspicious player.
    fn decide_witch_action(
        &self,
        self_id: u64,
        game_state: &GameState,
        reasoning: &ReasoningEngine,
    ) -> (r: AppResult<Option<NightAction>>)
        requires
            reasoning.wf(),
        ensures
            r is Ok,
            witch_action_post(*reasoning, self_id, r->Ok_0),
    {
        let _ = game_state;
        if rand_chance(700) {
            // The heal target is resolved externally against the night's kill.
            Ok(Some(NightAction { player: self_id, action: NightActionType::Heal, target: None }))
        } else {
            let target = reasoning.get_most_suspicious_player();
            Ok(Some(NightAction { player: self_id, action: NightActionType::Poison, target }))
        }
    }

    /// Choose a protection target for the guard: the most trusted player
    /// when that player is a live other, else a uniformly random live
    /// other.
    fn decide_guard_protect(
        &self,
        self_id: u64,
        game_state: &GameState,
        reasoning: &ReasoningEngine,
    ) -> (r: AppResult<Option<NightAction>>)
        requires
            reasoning.wf(),
        ensures
            r is Ok,
            guard_protect_post(*game_state, *reasoning, self_id, r->Ok_0),
    {
        let candidates = collect_alive_others(game_state, self_id);
        if candidates.len() == 0 {
            return Ok(None);
        }
        let target: Option<u64> = match reasoning.get_most_trusted_player() {
            Some(mt) => {
                if id_in_list(&candidates, mt) {
                    proof {
                        assert forall|id: u64|
                            is_most_trusted(reasoning.nodes@, id) && spec_alive_other(
                                *game_state,
                                id,
                                self_id,
                            ) implies mt == id by {
                            lemma_most_trusted_unique(reasoning.nodes@, id, mt);
                        }
                        let jj = choose|jj: int|
                            0 <= jj < candidates@.len() && candidates@[jj] == mt;
                        assert(spec_alive_other(*game_state, mt, self_id));
                    }
                    Some(mt)
                } else {
                    let pick = pick_random_id(&candidates);
                    proof {
                        // The most trusted player is not a live other: were
                        // it one, the complete candidate list would hold it.
                        assert forall|id: u64|
                            !(is_most_trusted(reasoning.nodes@, id) && spec_alive_other(
                                *game_state,
                                id,
                                self_id,
                            )) by {
                            if is_most_trusted(reasoning.nodes@, id) && spec_alive_other(
                                *game_state,
                                id,
                                self_id,
                            ) {
                                lemma_most_trusted_unique(reasoning.nodes@, id, mt);
                            }
                        }
                    }
                    pick
                }
            },
            None => pick_random_id(&candidates),
        };
        match target {
            Some(t) => Ok(
                Some(
                    NightAction {
                        player: self_id,
                        action: NightActionType::Protect,
                        target: Some(t),
                    },
                ),
            ),
            None => Ok(None),
        }
    }

    /// Decide this agent's vote, dispatched on its voting policy.
    ///
    /// A protective voter never votes for the most trusted player unless
    /// that player is also the most suspicious.
    pub fn decide_vote_target(
        &self,
        self_id: u64,
        game_state: &GameState,
        reasoning: &ReasoningEngine,
    ) -> (r: AppResult<Option<u64>>)
        requires
            reasoning.wf(),
        ensures
            r is Ok,
            vote_target_post(
                self.current_strategy.voting_strategy,
                *game_state,
                *reasoning,
                self_id,
                r->Ok_0,
            ),
            self.current_strategy.voting_strategy is Protective ==> (forall|t: u64|
                r->Ok_0 == Some(t) && is_most_trusted(reasoning.nodes@, t)
                    ==> is_most_suspicious(reasoning.nodes@, t)),
    {
        let candidates = collect_alive_others(game_state, self_id);
        if candidates.len() == 0 {
            return Ok(None);
        }
        match self.current_strategy.voting_strategy {
            VotingStrategy::Aggressive => Ok(reasoning.get_most_suspicious_player()),
            VotingStrategy::Independent => Ok(reasoning.get_most_suspicious_player()),
            VotingStrategy::FollowMajority => Ok(pick_random_id(&candidates)),
            VotingStrategy::Random => Ok(pick_random_id(&candidates)),
            VotingStrategy::Protective => {
                let suspicious = reasoning.get_most_suspicious_player();
                let trusted = reasoning.get_most_trusted_player();
                match suspicious {
                    Some(susp_id) => {
                        let same = match trusted {
                            Some(t) => t == susp_id,
                            None => false,
                        };
                        if !same {
                            proof {
                                assert forall|t: u64|
                                    Some(susp_id) == Some(t) && is_most_trusted(
                                        reasoning.nodes@,
                                        t,
                                    ) implies is_most_suspicious(reasoning.nodes@, t) by {
                                    if is_most_trusted(reasoning.nodes@, t) {
                                        let tr = trusted->0;
                                        lemma_most_trusted_unique(reasoning.nodes@, t, tr);
                                    }
                                }
                            }
                            Ok(Some(susp_id))
                        } else {
                            let pick = pick_random_id(&candidates);
                            proof {
                                assert forall|t: u64|
                                    pick == Some(t) && is_most_trusted(reasoning.nodes@, t)
                                        implies is_most_suspicious(reasoning.nodes@, t) by {
                                    if is_most_trusted(reasoning.nodes@, t) {
                                        lemma_most_trusted_unique(
                                            reasoning.nodes@,
                                            t,
                                            trusted->0,
                                        );
                                    }
                                }
                            }
                            Ok(pick)
                        }
                    },
                    None => {
                        let pick = pick_random_id(&candidates);
                        Ok(pick)
                    },
                }
            },
        }
    }

    /// Refresh the strategy as the game progresses: after the third day
    /// the agent escalates, raising its deception level and hardening a
    /// defensive stance into an aggressive one; the priority and avoid
    /// lists are refreshed from the belief state.
    pub fn update_strategy(&mut self, game_state: &GameState, reasoning: &ReasoningEngine)
        requires
            old(self).wf(),
        ensures
            final(self).wf(),
            final(self).personality == old(self).personality,
            ({
                let pre = old(self).current_strategy;
                let post = final(self).current_strategy;
                &&& post.speech_style == pre.speech_style
                &&& post.voting_strategy == pre.voting_strategy
                &&& if game_state.day > 3 {
                    post.deception_level == crate::score::clamped(pre.deception_level + 100)
                        && post.strategy_type == (if pre.strategy_type is Defensive {
                        StrategyType::Aggressive
                    } else {
                        pre.strategy_type
                    })
                } else {
                    post.deception_level == pre.deception_level && post.strategy_type
                        == pre.strategy_type
                }
                &&& if reasoning.nodes@.len() > 0 {
                    post.priority_targets@.len() == 1 && is_most_suspicious(
                        reasoning.nodes@,
                        post.priority_targets@[0],
                    ) && post.avoid_targets@.len() == 1 && is_most_trusted(
                        reasoning.nodes@,
                        post.avoid_targets@[0],
                    )
                } else {
                    post.priority_targets@.len() == 0 && post.avoid_targets@.len() == 0
                }
            }),
    {
        if game_state.day > 3 {
            let d = self.current_strategy.deception_level;
            self.current_strategy.deception_level = if d + 100 > 1000 {
                1000
            } else {
                d + 100
            };
            if matches!(self.current_strategy.strategy_type, StrategyType::Defensive) {
                self.current_strategy.strategy_type = StrategyType::Aggressive;
            }
        }
        let mut priority: Vec<u64> = Vec::new();
        if let Some(t) = reasoning.get_most_suspicious_player() {
            priority.push(t);
        }
        let mut avoid: Vec<u64> = Vec::new();
        if let Some(t) = reasoning.get_most_trusted_player() {
            avoid.push(t);
        }
        self.current_strategy.priority_targets = priority;
        self.current_strategy.avoid_targets = avoid;
    }

    /// Plan a speech of the requested kind: a target, a tone, fixed
    /// talking points, a confidence level drawn from the personality, and
    /// deception elements when the agent's deception level is high.
    pub fn generate_speech_strategy(
        &self,
        game_state: &GameState,
        reasoning: &ReasoningEngine,
        speech_type: SpeechType,
    ) -> (s: SpeechStrategy)
        ensures
            match speech_type {
                SpeechType::Accusation => {
                    &&& (if reasoning.nodes@.len() > 0 {
                        s.target matches Some(t) && is_most_suspicious(reasoning.nodes@, t)
                    } else {
                        s.target is None
                    })
                    &&& s.tone == spec_speech_tone(self.current_strategy.speech_style)
                    &&& s.key_points@.len() == 3
                    &&& s.key_points@[0]@ == line_point_out()
                    &&& s.key_points@[1]@ == line_review_votes()
                    &&& s.key_points@[2]@ == line_lay_out()
                    &&& s.confidence_level == self.personality.traits.aggressiveness
                    &&& if self.current_strategy.deception_level > 500 {
                        s.deception_elements@.len() == 2 && s.deception_elements@[0]@
                            == line_muddy() && s.deception_elements@[1]@ == line_shift_focus()
                    } else {
                        s.deception_elements@.len() == 0
                    }
                },
                SpeechType::Defense => {
                    &&& s.target is None
                    &&& s.tone == SpeechTone::Defensive
                    &&& s.key_points@.len() == 3
                    &&& s.key_points@[0]@ == line_clear_up()
                    &&& s.key_points@[1]@ == line_offer_evidence()
                    &&& s.key_points@[2]@ == line_rebut()
                    &&& s.confidence_level == 800
                    &&& s.deception_elements@.len() == 0
                },
                SpeechType::Information => {
                    &&& (if reasoning.nodes@.len() > 0 {
                        s.target matches Some(t) && is_most_trusted(reasoning.nodes@, t)
                    } else {
                        s.target is None
                    })
                    &&& s.tone == SpeechTone::Analytical
                    &&& s.key_points@.len() == 3
                    &&& s.key_points@[0]@ == line_share_obs()
                    &&& s.key_points@[1]@ == line_offer_info()
                    &&& s.key_points@[2]@ == line_suggest_plan()
                    &&& s.confidence_level == self.personality.traits.logic
                    &&& s.deception_elements@.len() == 0
                },
                _ => {
                    &&& s.target is None
                    &&& s.tone == SpeechTone::Neutral
                    &&& s.key_points@.len() == 1
                    &&& s.key_points@[0]@ == line_general()
                    &&& s.confidence_level == 500
                    &&& s.deception_elements@.len() == 0
                },
            },
    {
        let _ = game_state;
        match speech_type {
            SpeechType::Accusation => {
                let target = reasoning.get_most_suspicious_player();
                let tone = self.get_speech_tone();
                let mut key_points: Vec<Vec<char>> = Vec::new();
                key_points.push(line_point_out_vec());
                key_points.push(line_review_votes_vec());
                key_points.push(line_lay_out_vec());
                let mut deception_elements: Vec<Vec<char>> = Vec::new();
                if self.current_strategy.deception_level > 500 {
                    deception_elements.push(line_muddy_vec());
                    deception_elements.push(line_shift_focus_vec());
                }
                SpeechStrategy {
                    target,
                    tone,
                    key_points,
                    confidence_level: self.personality.traits.aggressiveness,
                    deception_elements,
                }
            },
            SpeechType::Defense => {
                let mut key_points: Vec<Vec<char>> = Vec::new();
                key_points.push(line_clear_up_vec());
                key_points.push(line_offer_evidence_vec());
                key_points.push(line_rebut_vec());
                SpeechStrategy {
                    target: None,
                    tone: SpeechTone::Defensive,
                    key_points,
                    confidence_level: 800,
                    deception_elements: Vec::new(),
                }
            },
            SpeechType::Information => {
                let target = reasoning.get_most_trusted_player();
                let mut key_points: Vec<Vec<char>> = Vec::new();
                key_points.push(line_share_obs_vec());
                key_points.push(line_offer_info_vec());
                key_points.push(line_suggest_plan_vec());
                SpeechStrategy {
                    target,
                    tone: SpeechTone::Analytical,
                    key_points,
                    confidence_level: self.personality.traits.logic,
                    deception_elements: Vec::new(),
                }
            },
            _ => {
                let mut key_points: Vec<Vec<char>> = Vec::new();
                key_points.push(line_general_vec());
                SpeechStrategy {
                    target: None,
                    tone: SpeechTone::Neutral,
                    key_points,
                    confidence_level: 500,
                    deception_elements: Vec::new(),
                }
            },
        }
    }

    /// The tone the agent's speech style produces.
    fn get_speech_tone(&self) -> (t: SpeechTone)
        ensures
            t == spec_speech_tone(self.current_strategy.speech_style),
    {
        match self.current_strategy.speech_style {
            SpeechStyle::Analytical => SpeechTone::Analytical,
            SpeechStyle::Emotional => SpeechTone::Aggressive,
            SpeechStyle::Casual => SpeechTone::Neutral,
            _ => SpeechTone::Confident,
        }
    }
}

/// What a vote decision must look like for each voting policy.
pub open spec fn vote_target_post(
    vs: VotingStrategy,
    gs: GameState,
    re: ReasoningEngine,
    self_id: u64,
    r: Option<u64>,
) -> bool {
    if !(exists|id: u64| spec_alive_other(gs, id, self_id)) {
        r is None
    } else {
        match vs {
            VotingStrategy::Aggressive | VotingStrategy::Independent => if re.nodes@.len() > 0 {
                r matches Some(t) && is_most_suspicious(re.nodes@, t)
            } else {
                r is None
            },
            VotingStrategy::FollowMajority | VotingStrategy::Random => r matches Some(t)
                && spec_alive_other(gs, t, self_id),
            VotingStrategy::Protective => r matches Some(t) && (is_most_suspicious(re.nodes@, t)
                || spec_alive_other(gs, t, self_id)),
        }
    }
}

/// The talking point "point out odd behavior".
pub open spec fn line_point_out() -> Seq<char> {
    seq!['p', 'o', 'i', 'n', 't', ' ', 'o', 'u', 't', ' ', 'o', 'd', 'd', ' ', 'b', 'e', 'h', 'a', 'v', 'i', 'o', 'r']
}

/// The talking point "point out odd behavior".
pub fn line_point_out_vec() -> (r: Vec<char>)
    ensures
        r@ == line_point_out(),
{
    vec!['p', 'o', 'i', 'n', 't', ' ', 'o', 'u', 't', ' ', 'o', 'd', 'd', ' ', 'b', 'e', 'h', 'a', 'v', 'i', 'o', 'r']
}

/// The talking point "review the voting pattern".
pub open spec fn line_review_votes() -> Seq<char> {
    seq!['r', 'e', 'v', 'i', 'e', 'w', ' ', 't', 'h', 'e', ' ', 'v', 'o', 't', 'i', 'n', 'g', ' ', 'p', 'a', 't', 't', 'e', 'r', 'n']
}

/// The talking point "review the voting pattern".
pub fn line_review_votes_vec() -> (r: Vec<char>)
    ensures
        r@ == line_review_votes(),
{
    vec!['r', 'e', 'v', 'i', 'e', 'w', ' ', 't', 'h', 'e', ' ', 'v', 'o', 't', 'i', 'n', 'g', ' ', 'p', 'a', 't', 't', 'e', 'r', 'n']
}

/// The talking point "lay out the reasoning".
pub open spec fn line_lay_out() -> Seq<char> {
    seq!['l', 'a', 'y', ' ', 'o', 'u', 't', ' ', 't', 'h', 'e', ' ', 'r', 'e', 'a', 's', 'o', 'n', 'i', 'n', 'g']
}

/// The talking point "lay out the reasoning".
pub fn line_lay_out_vec() -> (r: Vec<char>)
    ensures
        r@ == line_lay_out(),
{
    vec!['l', 'a', 'y', ' ', 'o', 'u', 't', ' ', 't', 'h', 'e', ' ', 'r', 'e', 'a', 's', 'o', 'n', 'i', 'n', 'g']
}

/// The talking point "clear up the confusion".
pub open spec fn line_clear_up() -> Seq<char> {
    seq!['c', 'l', 'e', 'a', 'r', ' ', 'u', 'p', ' ', 't', 'h', 'e', ' ', 'c', 'o', 'n', 'f', 'u', 's', 'i', 'o', 'n']
}

/// The talking point "clear up the confusion".
pub fn line_clear_up_vec() -> (r: Vec<char>)
    ensures
        r@ == line_clear_up(),
{
    vec!['c', 'l', 'e', 'a', 'r', ' ', 'u', 'p', ' ', 't', 'h', 'e', ' ', 'c', 'o', 'n', 'f', 'u', 's', 'i', 'o', 'n']
}

/// The talking point "offer my evidence".
pub open spec fn line_offer_evidence() -> Seq<char> {
    seq!['o', 'f', 'f', 'e', 'r', ' ', 'm', 'y', ' ', 'e', 'v', 'i', 'd', 'e', 'n', 'c', 'e']
}

/// The talking point "offer my evidence".
pub fn line_offer_evidence_vec() -> (r: Vec<char>)
    ensures
        r@ == line_offer_evidence(),
{
    vec!['o', 'f', 'f', 'e', 'r', ' ', 'm', 'y', ' ', 'e', 'v', 'i', 'd', 'e', 'n', 'c', 'e']
}

/// The talking point "rebut the charge".
pub open spec fn line_rebut() -> Seq<char> {
    seq!['r', 'e', 'b', 'u', 't', ' ', 't', 'h', 'e', ' ', 'c', 'h', 'a', 'r', 'g', 'e']
}

/// The talking point "rebut the charge".
pub fn line_rebut_vec() -> (r: Vec<char>)
    ensures
        r@ == line_rebut(),
{
    vec!['r', 'e', 'b', 'u', 't', ' ', 't', 'h', 'e', ' ', 'c', 'h', 'a', 'r', 'g', 'e']
}

/// The talking point "share my observations".
pub open spec fn line_share_obs() -> Seq<char> {
    seq!['s', 'h', 'a', 'r', 'e', ' ', 'm', 'y', ' ', 'o', 'b', 's', 'e', 'r', 'v', 'a', 't', 'i', 'o', 'n', 's']
}

/// The talking point "share my observations".
pub fn line_share_obs_vec() -> (r: Vec<char>)
    ensures
        r@ == line_share_obs(),
{
    vec!['s', 'h', 'a', 'r', 'e', ' ', 'm', 'y', ' ', 'o', 'b', 's', 'e', 'r', 'v', 'a', 't', 'i', 'o', 'n', 's']
}

/// The talking point "offer information".
pub open spec fn line_offer_info() -> Seq<char> {
    seq!['o', 'f', 'f', 'e', 'r', ' ', 'i', 'n', 'f', 'o', 'r', 'm', 'a', 't', 'i', 'o', 'n']
}

/// The talking point "offer information".
pub fn line_offer_info_vec() -> (r: Vec<char>)
    ensures
        r@ == line_offer_info(),
{
    vec!['o', 'f', 'f', 'e', 'r', ' ', 'i', 'n', 'f', 'o', 'r', 'm', 'a', 't', 'i', 'o', 'n']
}

/// The talking point "suggest a plan".
pub open spec fn line_suggest_plan() -> Seq<char> {
    seq!['s', 'u', 'g', 'g', 'e', 's', 't', ' ', 'a', ' ', 'p', 'l', 'a', 'n']
}

/// The talking point "suggest a plan".
pub fn line_suggest_plan_vec() -> (r: Vec<char>)
    ensures
        r@ == line_suggest_plan(),
{
    vec!['s', 'u', 'g', 'g', 'e', 's', 't', ' ', 'a', ' ', 'p', 'l', 'a', 'n']
}

/// The talking point "general remark".
pub open spec fn line_general() -> Seq<char> {
    seq!['g', 'e', 'n', 'e', 'r', 'a', 'l', ' ', 'r', 'e', 'm', 'a', 'r', 'k']
}

/// The talking point "general remark".
pub fn line_general_vec() -> (r: Vec<char>)
    ensures
        r@ == line_general(),
{
    vec!['g', 'e', 'n', 'e', 'r', 'a', 'l', ' ', 'r', 'e', 'm', 'a', 'r', 'k']
}

/// The talking point "muddy the waters".
pub open spec fn line_muddy() -> Seq<char> {
    seq!['m', 'u', 'd', 'd', 'y', ' ', 't', 'h', 'e', ' ', 'w', 'a', 't', 'e', 'r', 's']
}

/// The talking point "muddy the waters".
pub fn line_muddy_vec() -> (r: Vec<char>)
    ensures
        r@ == line_muddy(),
{
    vec!['m', 'u', 'd', 'd', 'y', ' ', 't', 'h', 'e', ' ', 'w', 'a', 't', 'e', 'r', 's']
}

/// The talking point "shift the focus".
pub open spec fn line_shift_focus() -> Seq<char> {
    seq!['s', 'h', 'i', 'f', 't', ' ', 't', 'h', 'e', ' ', 'f', 'o', 'c', 'u', 's']
}

/// The talking point "shift the focus".
pub fn line_shift_focus_vec() -> (r: Vec<char>)
    ensures
        r@ == line_shift_focus(),
{
    vec!['s', 'h', 'i', 'f', 't', ' ', 't', 'h', 'e', ' ', 'f', 'o', 'c', 'u', 's']
}

} // verus!
