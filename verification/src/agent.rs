//! One computer player: its belief engine, strategy engine, speech
//! processor, and memory, wired together behind the decisions the
//! orchestrator asks for.
use vstd::prelude::*;
use crate::error::{AppError, AppResult};
use crate::nlp::NLPProcessor;
use crate::reasoning::{ReasoningEngine, EvidenceType, node_updated, has_node, Evidence};
use crate::roles::Role;
use crate::score::valid_score;
use crate::strategy::{
    StrategyEngine, wolf_kill_post, seer_check_post, witch_action_post, guard_protect_post,
    vote_target_post,
};
use crate::reasoning::{is_most_trusted, is_most_suspicious};
use crate::types::{
    AIPersonality, GamePhase, GameState, NightAction, VoteRecord, traits_wf,
};

verus! {

/// An agent's remembered impression of one other player.
#[derive(Debug, Clone, Copy, PartialEq, Eq, Structural)]
pub struct ImpressionEntry {
    pub player_id: u64,
    pub trust: u32,
    pub suspicion: u32,
}

/// One remembered line of speech.
#[derive(Debug, Clone)]
pub struct SpeechMemory {
    pub speaker: u64,
    pub content: Vec<char>,
    pub day: u32,
    pub phase: GamePhase,
}

/// One remembered night and what the agent did in it.
#[derive(Debug, Clone)]
pub struct NightActionMemory {
    pub night: u32,
    pub my_action: Option<NightAction>,
    pub observed_results: Vec<crate::types::NightResult>,
}

/// The agent's memory.
#[derive(Debug, Clone)]
pub struct AIMemory {
    pub impressions: Vec<ImpressionEntry>,
    pub voting_history: Vec<VoteRecord>,
    pub speech_history: Vec<SpeechMemory>,
    pub night_action_history: Vec<NightActionMemory>,
}

/// All remembered impressions are valid scores.
pub open spec fn memory_wf(m: AIMemory) -> bool {
    forall|i: int|
        0 <= i < m.impressions@.len() ==> valid_score((#[trigger] m.impressions@[i]).trust)
            && valid_score(m.impressions@[i].suspicion)
}

impl AIMemory {
    /// Fresh, empty memory.
    pub fn new() -> (r: AIMemory)
        ensures
            r.impressions@.len() == 0,
            r.voting_history@.len() == 0,
            r.speech_history@.len() == 0,
            r.night_action_history@.len() == 0,
            memory_wf(r),
    {
        AIMemory {
            impressions: Vec::new(),
            voting_history: Vec::new(),
            speech_history: Vec::new(),
            night_action_history: Vec::new(),
        }
    }
}

/// One computer player.
pub struct AIAgent {
    pub player_id: u64,
    pub personality: AIPersonality,
    pub role: Role,
    pub reasoning_engine: ReasoningEngine,
    pub strategy_engine: StrategyEngine,
    pub nlp_processor: NLPProcessor,
    pub memory: AIMemory,
}

impl AIAgent {
    /// The agent's structural invariant.
    pub open spec fn wf(self) -> bool {
        &&& self.reasoning_engine.wf()
        &&& self.strategy_engine.wf()
        &&& memory_wf(self.memory)
    }

    /// Create an agent: derive its strategy from personality and role.
    pub fn new(player_id: u64, personality: AIPersonality, role: Role) -> (r: AIAgent)
        requires
            traits_wf(personality.traits),
        ensures
            r.wf(),
            r.player_id == player_id,
            r.role == role,
            r.reasoning_engine.nodes@.len() == 0,
            r.strategy_engine.current_strategy.strategy_type
                == crate::strategy::spec_initial_strategy_type(personality.traits, role.faction),
    {
        let strategy_personality = AIPersonality {
            id: personality.id,
            name: crate::nlp::copy_chars(&personality.name),
            traits: personality.traits,
        };
        let reasoning_engine = ReasoningEngine::new();
        let strategy_engine = StrategyEngine::new(strategy_personality, &role);
        let nlp_processor = NLPProcessor::new();
        AIAgent {
            player_id,
            personality,
            role,
            reasoning_engine,
            strategy_engine,
            nlp_processor,
            memory: AIMemory::new(),
        }
    }

    /// Seed the belief network and neutral impressions of the others.
    pub fn initialize(&mut self, game_state: &GameState) -> (r: AppResult<()>)
        requires
            old(self).wf(),
            game_state.wf(),
        ensures
            final(self).wf(),
            r is Ok,
            final(self).reasoning_engine.nodes@.len() == game_state.players@.len(),
            forall|i: int|
                0 <= i < final(self).memory.impressions@.len() ==> (#[trigger] final(self).memory.impressions@[i]).trust == 500 && final(self).memory.impressions@[i].suspicion
                    == 500,
    {
        self.reasoning_engine.initialize(game_state);
        let mut impressions: Vec<ImpressionEntry> = Vec::new();
        let players = &game_state.players;
        let mut i: usize = 0;
        while i < players.len()
            invariant
                0 <= i <= players@.len(),
                forall|j: int|
                    0 <= j < impressions@.len() ==> (#[trigger] impressions@[j]).trust == 500
                        && impressions@[j].suspicion == 500,
            decreases players@.len() - i,
        {
            if players[i].id != self.player_id {
                impressions.push(
                    ImpressionEntry { player_id: players[i].id, trust: 500, suspicion: 500 },
                );
            }
            i = i + 1;
        }
        self.memory.impressions = impressions;
        Ok(())
    }

    /// Decide this night's action: refresh the strategy, then dispatch on
    /// the agent's role; remember the decision.
    pub fn decide_night_action(&mut self, game_state: &GameState) -> (r: AppResult<
        Option<NightAction>,
    >)
        requires
            old(self).wf(),
        ensures
            final(self).wf(),
            r is Ok,
            ({
                let a = r->Ok_0;
                let re = final(self).reasoning_engine;
                let st = final(self).strategy_engine.current_strategy;
                match final(self).role.role_type {
                    crate::roles::RoleType::Werewolf => wolf_kill_post(
                        st.strategy_type,
                        *game_state,
                        re,
                        final(self).player_id,
                        a,
                    ),
                    crate::roles::RoleType::Seer => seer_check_post(
                        *game_state,
                        re,
                        final(self).player_id,
                        a,
                    ),
                    crate::roles::RoleType::Witch => witch_action_post(
                        re,
                        final(self).player_id,
                        a,
                    ),
                    crate::roles::RoleType::Guard => guard_protect_post(
                        *game_state,
                        re,
                        final(self).player_id,
                        a,
                    ),
                    _ => a is None,
                }
            }),
    {
        self.strategy_engine.update_strategy(game_state, &self.reasoning_engine);
        let action = match self.strategy_engine.decide_night_action(
            self.player_id,
            &self.role,
            game_state,
            &self.reasoning_engine,
        ) {
            Ok(a) => a,
            Err(_) => None,
        };
        match action {
            Some(a) => {
                self.memory.night_action_history.push(
                    NightActionMemory {
                        night: game_state.day,
                        my_action: Some(a),
                        observed_results: Vec::new(),
                    },
                );
                Ok(Some(a))
            },
            None => Ok(None),
        }
    }

    /// Decide this round's vote: refresh the strategy, then follow the
    /// voting policy. A protective voter never votes for the most trusted
    /// player unless that player is also the most suspicious.
    pub fn decide_vote(&mut self, game_state: &GameState) -> (r: AppResult<Option<u64>>)
        requires
            old(self).wf(),
        ensures
            final(self).wf(),
            r is Ok,
            vote_target_post(
                final(self).strategy_engine.current_strategy.voting_strategy,
                *game_state,
                final(self).reasoning_engine,
                final(self).player_id,
                r->Ok_0,
            ),
            final(self).strategy_engine.current_strategy.voting_strategy is Protective ==> (
            forall|t: u64|
                r->Ok_0 == Some(t) && is_most_trusted(final(self).reasoning_engine.nodes@, t)
                    ==> is_most_suspicious(final(self).reasoning_engine.nodes@, t)),
    {
        self.strategy_engine.update_strategy(game_state, &self.reasoning_engine);
        let r = self.strategy_engine.decide_vote_target(
            self.player_id,
            game_state,
            &self.reasoning_engine,
        );
        r
    }

    /// Take in another player's speech: classify it, log it as evidence,
    /// and move the remembered impression toward its credibility.
    pub fn process_player_speech(
        &mut self,
        speaker_id: u64,
        content: Vec<char>,
        game_state: &GameState,
    ) -> (r: AppResult<()>)
        requires
            old(self).wf(),
        ensures
            final(self).wf(),
            r is Ok,
            final(self).reasoning_engine.nodes@.len() == old(self).reasoning_engine.nodes@.len(),
            has_node(old(self).reasoning_engine.nodes@, speaker_id) ==> exists|k: int, e: Evidence|
                #![auto]
                0 <= k < old(self).reasoning_engine.nodes@.len() && old(self).reasoning_engine.nodes@[k].player_id == speaker_id && e.evidence_type
                    == EvidenceType::SpeechAnalysis && node_updated(
                    old(self).reasoning_engine.nodes@[k],
                    final(self).reasoning_engine.nodes@[k],
                    e,
                ),
            ({
                // The speech is remembered at the end of the history.
                let pre = old(self).memory.speech_history@;
                let post = final(self).memory.speech_history@;
                &&& post.len() == pre.len() + 1
                &&& forall|j: int| 0 <= j < pre.len() ==> #[trigger] post[j] == pre[j]
                &&& post[pre.len() as int].speaker == speaker_id
                &&& post[pre.len() as int].content@ == content@
                &&& post[pre.len() as int].day == game_state.day
                &&& post[pre.len() as int].phase == game_state.phase
            }),
            ({
                // The remembered impression of the speaker moves halfway
                // toward the line's credibility; everyone else's stays.
                let cred = crate::nlp::spec_credibility(content@);
                let pre = old(self).memory.impressions@;
                let post = final(self).memory.impressions@;
                &&& post.len() == pre.len()
                &&& forall|j: int|
                    #![trigger post[j]]
                    0 <= j < pre.len() ==> if pre[j].player_id == speaker_id {
                        post[j] == (ImpressionEntry {
                            player_id: pre[j].player_id,
                            trust: (((pre[j].trust + cred) as u32) / 2) as u32,
                            suspicion: (((pre[j].suspicion + (1000 - cred)) as u32) / 2) as u32,
                        })
                    } else {
                        post[j] == pre[j]
                    }
            }),
            final(self).memory.voting_history == old(self).memory.voting_history,
            final(self).memory.night_action_history == old(self).memory.night_action_history,
    {
        let analysis = match self.nlp_processor.analyze_speech(
            speaker_id,
            crate::nlp::copy_chars(&content),
            game_state,
        ) {
            Ok(a) => a,
            Err(e) => {
                return Err(e);
            },
        };
        match self.reasoning_engine.analyze_speech(speaker_id, &content) {
            Ok(_) => {},
            Err(e) => {
                return Err(e);
            },
        }
        self.update_player_impression(speaker_id, analysis.credibility);
        self.memory.speech_history.push(
            SpeechMemory {
                speaker: speaker_id,
                content,
                day: game_state.day,
                phase: game_state.phase,
            },
        );
        Ok(())
    }

    /// Move the remembered impression of a player halfway toward the
    /// credibility of what was just heard: trust toward it, suspicion
    /// toward its complement. Unknown players are ignored.
    pub fn update_player_impression(&mut self, player_id: u64, credibility: u32)
        requires
            old(self).wf(),
            valid_score(credibility),
        ensures
            final(self).wf(),
            final(self).memory.impressions@.len() == old(self).memory.impressions@.len(),
            forall|j: int|
                #![trigger final(self).memory.impressions@[j]]
                0 <= j < old(self).memory.impressions@.len() ==> {
                    let pre = old(self).memory.impressions@[j];
                    let post = final(self).memory.impressions@[j];
                    if pre.player_id == player_id {
                        post == (ImpressionEntry {
                            player_id: pre.player_id,
                            trust: (((pre.trust + credibility) as u32) / 2) as u32,
                            suspicion: (((pre.suspicion + (1000 - credibility)) as u32)
                                / 2) as u32,
                        })
                    } else {
                        post == pre
                    }
                },
            final(self).reasoning_engine == old(self).reasoning_engine,
            final(self).strategy_engine == old(self).strategy_engine,
            final(self).nlp_processor == old(self).nlp_processor,
            final(self).memory.voting_history == old(self).memory.voting_history,
            final(self).memory.speech_history == old(self).memory.speech_history,
            final(self).memory.night_action_history == old(self).memory.night_action_history,
            final(self).player_id == old(self).player_id,
            final(self).personality == old(self).personality,
            final(self).role == old(self).role,
    {
        let n = self.memory.impressions.len();
        let mut i: usize = 0;
        while i < n
            invariant
                0 <= i <= n,
                n == self.memory.impressions@.len(),
                self.reasoning_engine == old(self).reasoning_engine,
                self.strategy_engine == old(self).strategy_engine,
                self.nlp_processor == old(self).nlp_processor,
                self.memory.voting_history == old(self).memory.voting_history,
                self.memory.speech_history == old(self).memory.speech_history,
                self.memory.night_action_history == old(self).memory.night_action_history,
                self.player_id == old(self).player_id,
                self.personality == old(self).personality,
                self.role == old(self).role,
                old(self).wf(),
                valid_score(credibility),
                memory_wf(self.memory),
                forall|j: int|
                    #![trigger self.memory.impressions@[j]]
                    0 <= j < i ==> {
                        let pre = old(self).memory.impressions@[j];
                        let post = self.memory.impressions@[j];
                        if pre.player_id == player_id {
                            post == (ImpressionEntry {
                                player_id: pre.player_id,
                                trust: (((pre.trust + credibility) as u32) / 2) as u32,
                                suspicion: (((pre.suspicion + (1000 - credibility)) as u32)
                                    / 2) as u32,
                            })
                        } else {
                            post == pre
                        }
                    },
                forall|j: int|
                    #![auto]
                    i <= j < n ==> self.memory.impressions@[j] == old(self).memory.impressions@[j],
            decreases n - i,
        {
            let entry = &self.memory.impressions[i];
            if entry.player_id == player_id {
                let new_trust = (entry.trust + credibility) / 2;
                let new_susp = (entry.suspicion + (1000 - credibility)) / 2;
                let id = entry.player_id;
                self.memory.impressions.set(
                    i,
                    ImpressionEntry { player_id: id, trust: new_trust, suspicion: new_susp },
                );
            }
            i = i + 1;
        }
    }

    /// Take in a vote: log it as voting-pattern evidence against the
    /// voter and remember it.
    pub fn process_vote(&mut self, vote: VoteRecord) -> (r: AppResult<()>)
        requires
            old(self).wf(),
        ensures
            final(self).wf(),
            r is Ok,
            final(self).memory.voting_history@ == old(self).memory.voting_history@.push(vote),
            final(self).reasoning_engine.nodes@.len() == old(self).reasoning_engine.nodes@.len(),
            has_node(old(self).reasoning_engine.nodes@, vote.voter) ==> exists|k: int, e: Evidence|
                #![auto]
                0 <= k < old(self).reasoning_engine.nodes@.len() && old(self).reasoning_engine.nodes@[k].player_id == vote.voter && e.evidence_type
                    == EvidenceType::VotingPattern && node_updated(
                    old(self).reasoning_engine.nodes@[k],
                    final(self).reasoning_engine.nodes@[k],
                    e,
                ),
    {
        match self.reasoning_engine.analyze_vote(vote.voter, vote.target) {
            Ok(_) => {},
            Err(e) => {
                return Err(e);
            },
        }
        self.memory.voting_history.push(vote);
        Ok(())
    }

    /// The agent's impressions as (player, trust score) pairs, ordered by
    /// falling trust.
    pub fn get_trust_rankings(&self) -> (r: Vec<(u64, u32)>)
        ensures
            rankings_sorted(r@),
            r@.to_multiset() == self.memory.impressions@.map_values(
                |e: ImpressionEntry| (e.player_id, e.trust),
            ).to_multiset(),
    {
        let ghost f = |e: ImpressionEntry| (e.player_id, e.trust);
        let mut pairs: Vec<(u64, u32)> = Vec::new();
        let imps = &self.memory.impressions;
        let mut i: usize = 0;
        while i < imps.len()
            invariant
                0 <= i <= imps@.len(),
                imps@ == self.memory.impressions@,
                f == (|e: ImpressionEntry| (e.player_id, e.trust)),
                pairs@ == imps@.subrange(0, i as int).map_values(f),
            decreases imps@.len() - i,
        {
            let ghost pre = imps@.subrange(0, i as int);
            let e = &imps[i];
            pairs.push((e.player_id, e.trust));
            proof {
                assert(imps@.subrange(0, i + 1) =~= pre.push(imps@[i as int]));
                assert(pre.push(imps@[i as int]).map_values(f) =~= pre.map_values(f).push(
                    f(imps@[i as int]),
                ));
            }
            i = i + 1;
        }
        proof {
            assert(imps@.subrange(0, imps@.len() as int) =~= imps@);
        }
        sort_rankings_desc(pairs)
    }

    /// The agent's impressions as (player, suspicion score) pairs, ordered
    /// by falling suspicion.
    pub fn get_suspicion_rankings(&self) -> (r: Vec<(u64, u32)>)
        ensures
            rankings_sorted(r@),
            r@.to_multiset() == self.memory.impressions@.map_values(
                |e: ImpressionEntry| (e.player_id, e.suspicion),
            ).to_multiset(),
    {
        let ghost f = |e: ImpressionEntry| (e.player_id, e.suspicion);
        let mut pairs: Vec<(u64, u32)> = Vec::new();
        let imps = &self.memory.impressions;
        let mut i: usize = 0;
        while i < imps.len()
            invariant
                0 <= i <= imps@.len(),
                imps@ == self.memory.impressions@,
                f == (|e: ImpressionEntry| (e.player_id, e.suspicion)),
                pairs@ == imps@.subrange(0, i as int).map_values(f),
            decreases imps@.len() - i,
        {
            let ghost pre = imps@.subrange(0, i as int);
            let e = &imps[i];
            pairs.push((e.player_id, e.suspicion));
            proof {
                assert(imps@.subrange(0, i + 1) =~= pre.push(imps@[i as int]));
                assert(pre.push(imps@[i as int]).map_values(f) =~= pre.map_values(f).push(
                    f(imps@[i as int]),
                ));
            }
            i = i + 1;
        }
        proof {
            assert(imps@.subrange(0, imps@.len() as int) =~= imps@);
        }
        sort_rankings_desc(pairs)
    }

    /// The agent's full self-report: its stance, its impression rankings,
    /// the belief engine's report, and its most recent remembered speech.
    pub fn get_analysis_report(&self) -> (r: AIAnalysisReport)
        requires
            self.wf(),
        ensures
            r.agent_id == self.player_id,
            r.current_strategy == self.strategy_engine.current_strategy.strategy_type,
            rankings_sorted(r.trust_rankings@),
            rankings_sorted(r.suspicion_rankings@),
            r.reasoning_summary.player_analysis@.len() == self.reasoning_engine.nodes@.len(),
            crate::reasoning::analyses_sorted(r.reasoning_summary.player_analysis@),
            r.memory_highlights@.len() == if self.memory.speech_history@.len() < 3 {
                self.memory.speech_history@.len()
            } else {
                3nat
            },
            forall|i: int|
                #![trigger r.memory_highlights@[i]]
                0 <= i < r.memory_highlights@.len() ==> {
                    let h = self.memory.speech_history@[self.memory.speech_history@.len() - 1 - i];
                    &&& r.memory_highlights@[i].speaker == h.speaker
                    &&& r.memory_highlights@[i].content@ == h.content@
                    &&& r.memory_highlights@[i].day == h.day
                    &&& r.memory_highlights@[i].phase == h.phase
                },
    {
        let trust_rankings = self.get_trust_rankings();
        let suspicion_rankings = self.get_suspicion_rankings();
        let reasoning_summary = self.reasoning_engine.get_analysis_report();
        let history = &self.memory.speech_history;
        let take = if history.len() < 3 {
            history.len()
        } else {
            3
        };
        let mut memory_highlights: Vec<SpeechMemory> = Vec::new();
        let mut i: usize = 0;
        while i < take
            invariant
                0 <= i <= take,
                take <= history@.len(),
                history@ == self.memory.speech_history@,
                memory_highlights@.len() == i,
                forall|j: int|
                    #![trigger memory_highlights@[j]]
                    0 <= j < i ==> {
                        let h = history@[history@.len() - 1 - j];
                        &&& memory_highlights@[j].speaker == h.speaker
                        &&& memory_highlights@[j].content@ == h.content@
                        &&& memory_highlights@[j].day == h.day
                        &&& memory_highlights@[j].phase == h.phase
                    },
            decreases take - i,
        {
            let entry = &history[history.len() - 1 - i];
            memory_highlights.push(
                SpeechMemory {
                    speaker: entry.speaker,
                    content: crate::nlp::copy_chars(&entry.content),
                    day: entry.day,
                    phase: entry.phase,
                },
            );
            i = i + 1;
        }
        AIAnalysisReport {
            agent_id: self.player_id,
            current_strategy: self.strategy_engine.current_strategy.strategy_type,
            trust_rankings,
            suspicion_rankings,
            reasoning_summary,
            memory_highlights,
        }
    }

    /// Take in what the night revealed: remember it against the agent's
    /// latest night entry. An agent that never acted at night has nothing
    /// to attach the result to and is unchanged.
    pub fn process_night_result(&mut self, result: crate::types::NightResult) -> (r: AppResult<
        (),
    >)
        requires
            old(self).wf(),
        ensures
            final(self).wf(),
            r is Ok,
            old(self).memory.night_action_history@.len() == 0 ==> *final(self) == *old(self),
            old(self).memory.night_action_history@.len() > 0 ==> ({
                let pre = old(self).memory.night_action_history@;
                let post = final(self).memory.night_action_history@;
                let last = pre[pre.len() - 1];
                &&& post.len() == pre.len()
                &&& forall|j: int| 0 <= j < pre.len() - 1 ==> #[trigger] post[j] == pre[j]
                &&& post[pre.len() - 1].night == last.night
                &&& post[pre.len() - 1].my_action == last.my_action
                &&& post[pre.len() - 1].observed_results@ == last.observed_results@.push(result)
                &&& final(self).memory.impressions == old(self).memory.impressions
                &&& final(self).memory.voting_history == old(self).memory.voting_history
                &&& final(self).memory.speech_history == old(self).memory.speech_history
                &&& final(self).reasoning_engine == old(self).reasoning_engine
                &&& final(self).strategy_engine == old(self).strategy_engine
                &&& final(self).nlp_processor == old(self).nlp_processor
                &&& final(self).player_id == old(self).player_id
                &&& final(self).personality == old(self).personality
                &&& final(self).role == old(self).role
            }),
    {
        let n = self.memory.night_action_history.len();
        if n > 0 {
            let last = &mut self.memory.night_action_history[n - 1];
            last.observed_results.push(result);
        }
        Ok(())
    }
}


/// The rankings are ordered by falling score.
pub open spec fn rankings_sorted(s: Seq<(u64, u32)>) -> bool {
    forall|i: int, j: int| 0 <= i < j < s.len() ==> (#[trigger] s[i]).1 >= (#[trigger] s[j]).1
}

/// An agent's self-report.
#[derive(Debug, Clone)]
pub struct AIAnalysisReport {
    pub agent_id: u64,
    pub current_strategy: crate::strategy::StrategyType,
    pub trust_rankings: Vec<(u64, u32)>,
    pub suspicion_rankings: Vec<(u64, u32)>,
    pub reasoning_summary: crate::reasoning::ReasoningReport,
    pub memory_highlights: Vec<SpeechMemory>,
}

/// Order score pairs by falling score: repeatedly move the best remaining
/// pair over. The pairs are preserved as a multiset.
fn sort_rankings_desc(input: Vec<(u64, u32)>) -> (r: Vec<(u64, u32)>)
    ensures
        r@.len() == input@.len(),
        rankings_sorted(r@),
        r@.to_multiset() == input@.to_multiset(),
{
    broadcast use vstd::seq_lib::group_to_multiset_ensures;

    let ghost orig = input@;
    let mut remaining = input;
    let mut out: Vec<(u64, u32)> = Vec::new();
    proof {
        assert(out@.to_multiset().add(remaining@.to_multiset()) =~= orig.to_multiset());
    }
    while remaining.len() > 0
        invariant
            out@.len() + remaining@.len() == orig.len(),
            rankings_sorted(out@),
            out@.to_multiset().add(remaining@.to_multiset()) == orig.to_multiset(),
            forall|i: int, j: int|
                0 <= i < out@.len() && 0 <= j < remaining@.len() ==> (#[trigger] out@[i]).1 >= (
                #[trigger] remaining@[j]).1,
        decreases remaining@.len(),
    {
        let mut best: usize = 0;
        let mut k: usize = 1;
        while k < remaining.len()
            invariant
                0 <= best < k <= remaining@.len(),
                forall|j: int| 0 <= j < k ==> (#[trigger] remaining@[j]).1 <= remaining@[best as int].1,
            decreases remaining@.len() - k,
        {
            if remaining[k].1 > remaining[best].1 {
                best = k;
            }
            k = k + 1;
        }
        let ghost pre = remaining@;
        let ghost preout = out@;
        let picked = remaining.remove(best);
        proof {
            pre.remove_ensures(best as int);
            pre.to_multiset_ensures();
            assert(pre.contains(pre[best as int]));
            assert(pre.to_multiset().count(pre[best as int]) > 0);
            assert forall|j: int| 0 <= j < remaining@.len() implies (#[trigger] remaining@[j]).1
                <= picked.1 by {
                if j < best {
                    assert(remaining@[j] == pre[j]);
                } else {
                    assert(remaining@[j] == pre[j + 1]);
                }
            }
        }
        out.push(picked);
        proof {
            assert forall|i: int, j: int| 0 <= i < j < out@.len() implies (#[trigger] out@[i]).1
                >= (#[trigger] out@[j]).1 by {
                if j == out@.len() - 1 {
                    assert(out@[i] == preout[i]);
                    assert(out@[j] == pre[best as int]);
                } else {
                    assert(out@[i] == preout[i]);
                    assert(out@[j] == preout[j]);
                }
            }
            assert forall|i: int, j: int|
                0 <= i < out@.len() && 0 <= j < remaining@.len() implies (#[trigger] out@[i]).1
                >= (#[trigger] remaining@[j]).1 by {
                if i < out@.len() - 1 {
                    assert(out@[i] == preout[i]);
                    if j < best {
                        assert(remaining@[j] == pre[j]);
                    } else {
                        assert(remaining@[j] == pre[j + 1]);
                    }
                } else {
                    assert(out@[i] == pre[best as int]);
                }
            }
            preout.to_multiset_ensures();
            assert(out@ == preout.push(picked));
            assert(out@.to_multiset() =~= preout.to_multiset().insert(pre[best as int]));
            assert(out@.to_multiset().add(remaining@.to_multiset()) =~= orig.to_multiset());
        }
    }
    out
}

} // verus!
