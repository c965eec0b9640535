//! The belief model: per observed player, a running estimate of role and
//! faction plus independent trust and suspicion scores, updated by discrete
//! weighted evidence. The update is an additive heuristic scorer, not a
//! normalized Bayesian posterior: each evidence kind applies a fixed
//! multiplier to `weight * confidence` and the touched scores are clamped
//! back into [0, 1000] after every update.
use vstd::prelude::*;
use crate::error::{AppError, AppResult};
use crate::roles::{RoleType, RoleDistribution};
use crate::score::{valid_score, clamped, clamp_add};
use crate::types::GameState;

verus! {

/// The kinds of evidence an agent can accumulate about a player.
#[derive(Debug, Clone, Copy, PartialEq, Eq, Structural)]
pub enum EvidenceType {
    VotingPattern,
    SpeechAnalysis,
    NightResult,
    RoleClaimConsistency,
    DefensiveBehavior,
    AggressiveBehavior,
    LogicalInconsistency,
    TeamworkIndicator,
}

/// One discrete observation: a kind, a confidence and a weight (both in
/// thousandths), and free-text provenance.
#[derive(Debug, Clone)]
pub struct Evidence {
    pub evidence_type: EvidenceType,
    pub confidence: u32,
    pub source: Vec<char>,
    pub description: Vec<char>,
    pub weight: u32,
}

/// Confidence and weight are scores.
pub open spec fn evidence_wf(e: Evidence) -> bool {
    &&& valid_score(e.confidence)
    &&& valid_score(e.weight)
}

/// Role-probability estimates over the closed role set, in thousandths.
#[derive(Debug, Clone, Copy, PartialEq, Eq, Structural)]
pub struct RoleProbabilities {
    pub werewolf: u32,
    pub villager: u32,
    pub seer: u32,
    pub witch: u32,
    pub hunter: u32,
    pub guard: u32,
}

impl RoleProbabilities {
    /// The probability estimate for one role type.
    pub open spec fn spec_get(self, rt: RoleType) -> u32 {
        match rt {
            RoleType::Werewolf => self.werewolf,
            RoleType::Villager => self.villager,
            RoleType::Seer => self.seer,
            RoleType::Witch => self.witch,
            RoleType::Hunter => self.hunter,
            RoleType::Guard => self.guard,
        }
    }

    /// The probability estimate for one role type.
    pub fn get(&self, rt: RoleType) -> (p: u32)
        ensures
            p == self.spec_get(rt),
    {
        match rt {
            RoleType::Werewolf => self.werewolf,
            RoleType::Villager => self.villager,
            RoleType::Seer => self.seer,
            RoleType::Witch => self.witch,
            RoleType::Hunter => self.hunter,
            RoleType::Guard => self.guard,
        }
    }
}

/// All six estimates are scores.
pub open spec fn probs_wf(p: RoleProbabilities) -> bool {
    &&& valid_score(p.werewolf)
    &&& valid_score(p.villager)
    &&& valid_score(p.seer)
    &&& valid_score(p.witch)
    &&& valid_score(p.hunter)
    &&& valid_score(p.guard)
}

/// One node of the belief network: the running estimates about one player
/// and the append-only evidence log behind them.
#[derive(Debug, Clone)]
pub struct BayesianNode {
    pub player_id: u64,
    pub role_probabilities: RoleProbabilities,
    pub faction_probability: u32,
    pub trust_score: u32,
    pub suspicion_score: u32,
    pub evidence: Vec<Evidence>,
}

/// Every scalar estimate of the node lies in [0, 1000].
pub open spec fn node_wf(n: BayesianNode) -> bool {
    &&& probs_wf(n.role_probabilities)
    &&& valid_score(n.faction_probability)
    &&& valid_score(n.trust_score)
    &&& valid_score(n.suspicion_score)
}

// ---------------------------------------------------------------------------
// The incremental update rule
// ---------------------------------------------------------------------------

/// The base strength of an evidence record: `weight * confidence`, as a
/// fraction in thousandths.
pub open spec fn spec_evidence_base(e: Evidence) -> int {
    (e.weight * e.confidence) as int / 1000
}

/// How much the evidence adds to the suspicion score.
pub open spec fn spec_susp_delta(e: Evidence) -> int {
    let base = spec_evidence_base(e);
    match e.evidence_type {
        EvidenceType::SpeechAnalysis => if e.confidence > 700 {
            base * 200 / 1000
        } else {
            0
        },
        EvidenceType::VotingPattern => 0,
        EvidenceType::DefensiveBehavior => base * 250 / 1000,
        EvidenceType::LogicalInconsistency => base * 400 / 1000,
        _ => base * 100 / 1000,
    }
}

/// How much the evidence adds to the trust score (negative for distrust).
pub open spec fn spec_trust_delta(e: Evidence) -> int {
    let base = spec_evidence_base(e);
    match e.evidence_type {
        EvidenceType::SpeechAnalysis => if e.confidence > 700 {
            -(base * 100 / 1000)
        } else {
            0
        },
        _ => 0,
    }
}

/// How much the evidence adds to the hostile-faction probability.
pub open spec fn spec_faction_delta(e: Evidence) -> int {
    let base = spec_evidence_base(e);
    match e.evidence_type {
        EvidenceType::VotingPattern => base * 150 / 1000,
        EvidenceType::LogicalInconsistency => base * 300 / 1000,
        _ => 0,
    }
}

/// The node after one evidence record is logged and applied: the log grows
/// by that record, the three scalar scores move by the fixed deltas and are
/// clamped, and everything else stays.
pub open spec fn node_updated(pre: BayesianNode, post: BayesianNode, e: Evidence) -> bool {
    &&& post.player_id == pre.player_id
    &&& post.role_probabilities == pre.role_probabilities
    &&& post.evidence@ == pre.evidence@.push(e)
    &&& post.suspicion_score == clamped(pre.suspicion_score + spec_susp_delta(e))
    &&& post.trust_score == clamped(pre.trust_score + spec_trust_delta(e))
    &&& post.faction_probability == clamped(pre.faction_probability + spec_faction_delta(e))
}

/// Compute the three deltas of an evidence record.
fn evidence_deltas(e: &Evidence) -> (d: (i64, i64, i64))
    requires
        evidence_wf(*e),
    ensures
        d.0 == spec_susp_delta(*e),
        d.1 == spec_trust_delta(*e),
        d.2 == spec_faction_delta(*e),
        -1000 <= d.0 <= 1000,
        -1000 <= d.1 <= 1000,
        -1000 <= d.2 <= 1000,
{
    proof {
        assert(e.weight * e.confidence <= 1000 * 1000) by (nonlinear_arith)
            requires e.weight <= 1000 && e.confidence <= 1000;
    }
    let base: i64 = ((e.weight as u64 * e.confidence as u64) / 1000) as i64;
    let (ds, dt, df): (i64, i64, i64) = match e.evidence_type {
        EvidenceType::SpeechAnalysis => {
            if e.confidence > 700 {
                (base * 200 / 1000, -(base * 100 / 1000), 0)
            } else {
                (0, 0, 0)
            }
        },
        EvidenceType::VotingPattern => (0, 0, base * 150 / 1000),
        EvidenceType::DefensiveBehavior => (base * 250 / 1000, 0, 0),
        EvidenceType::LogicalInconsistency => (base * 400 / 1000, 0, base * 300 / 1000),
        _ => (base * 100 / 1000, 0, 0),
    };
    (ds, dt, df)
}

// ---------------------------------------------------------------------------
// The engine
// ---------------------------------------------------------------------------

/// Some node tracks the given player.
pub open spec fn has_node(nodes: Seq<BayesianNode>, id: u64) -> bool {
    exists|i: int| 0 <= i < nodes.len() && (#[trigger] nodes[i]).player_id == id
}

/// All tracked player ids are pairwise distinct.
pub open spec fn node_ids_distinct(nodes: Seq<BayesianNode>) -> bool {
    forall|i: int, j: int|
        0 <= i < j < nodes.len() ==> (#[trigger] nodes[i]).player_id != (
        #[trigger] nodes[j]).player_id
}

/// The belief engine of one agent: one node per observed player.
pub struct ReasoningEngine {
    pub nodes: Vec<BayesianNode>,
}

impl ReasoningEngine {
    /// Every node's scores stay in range and no player is tracked twice.
    pub open spec fn wf(self) -> bool {
        &&& forall|i: int| 0 <= i < self.nodes@.len() ==> node_wf(#[trigger] self.nodes@[i])
        &&& node_ids_distinct(self.nodes@)
    }

    /// A fresh engine with no nodes.
    pub fn new() -> (r: ReasoningEngine)
        ensures
            r.wf(),
            r.nodes@.len() == 0,
    {
        ReasoningEngine { nodes: Vec::new() }
    }

    /// Append an evidence record to the given player's log and apply the
    /// incremental score update. Unknown players are ignored. All scalar
    /// scores remain within [0, 1000].
    pub fn add_evidence(&mut self, player_id: u64, evidence: Evidence) -> (r: AppResult<()>)
        requires
            old(self).wf(),
            evidence_wf(evidence),
        ensures
            final(self).wf(),
            r is Ok,
            final(self).nodes@.len() == old(self).nodes@.len(),
            if has_node(old(self).nodes@, player_id) {
                exists|k: int|
                    0 <= k < old(self).nodes@.len() && (#[trigger] old(self).nodes@[k]).player_id
                        == player_id && node_updated(
                        old(self).nodes@[k],
                        final(self).nodes@[k],
                        evidence,
                    ) && (forall|j: int|
                        0 <= j < old(self).nodes@.len() && j != k ==> final(self).nodes@[j] == old(
                            self,
                        ).nodes@[j])
            } else {
                final(self).nodes@ == old(self).nodes@
            },
    {
        let n = self.nodes.len();
        let mut i: usize = 0;
        while i < n
            invariant
                0 <= i <= n,
                n == self.nodes@.len(),
                self == old(self),
                self.wf(),
                evidence_wf(evidence),
                forall|j: int| 0 <= j < i ==> (#[trigger] self.nodes@[j]).player_id != player_id,
            decreases n - i,
        {
            if self.nodes[i].player_id == player_id {
                let (ds, dt, df) = evidence_deltas(&evidence);
                let node = &self.nodes[i];
                let new_susp = clamp_add(node.suspicion_score, ds);
                let new_trust = clamp_add(node.trust_score, dt);
                let new_faction = clamp_add(node.faction_probability, df);
                let ghost prenodes = self.nodes@;
                let node_mut = &mut self.nodes[i];
                node_mut.suspicion_score = new_susp;
                node_mut.trust_score = new_trust;
                node_mut.faction_probability = new_faction;
                node_mut.evidence.push(evidence);
                proof {
                    assert(node_updated(prenodes[i as int], self.nodes@[i as int], evidence));
                    assert(has_node(old(self).nodes@, player_id));
                }
                return Ok(());
            }
            i = i + 1;
        }
        Ok(())
    }

    /// Seed one node per player from the public role distribution: each
    /// role's share of the roster, werewolf share as the hostile-faction
    /// estimate, and neutral trust and suspicion.
    pub fn initialize(&mut self, game_state: &GameState)
        requires
            game_state.wf(),
        ensures
            final(self).wf(),
            final(self).nodes@.len() == game_state.players@.len(),
            ({
                let d = game_state.game_config.role_distribution;
                let len = game_state.players@.len() as int;
                forall|i: int|
                    0 <= i < final(self).nodes@.len() ==> {
                        let node = #[trigger] final(self).nodes@[i];
                        &&& node.player_id == game_state.players@[i].id
                        &&& node.trust_score == 500
                        &&& node.suspicion_score == 500
                        &&& node.evidence@.len() == 0
                        &&& node.faction_probability == spec_init_prob(d.werewolves, len)
                        &&& forall|rt: RoleType|
                            node.role_probabilities.spec_get(rt) == spec_init_prob(
                                #[trigger] d.spec_count(rt),
                                len,
                            )
                    }
            }),
    {
        let players = &game_state.players;
        let len = players.len();
        let mut nodes: Vec<BayesianNode> = Vec::new();
        if len > 0 {
            let d = game_state.game_config.role_distribution;
            let probs = RoleProbabilities {
                werewolf: init_prob(d.werewolves, len),
                villager: init_prob(d.villagers, len),
                seer: init_prob(d.seers, len),
                witch: init_prob(d.witches, len),
                hunter: init_prob(d.hunters, len),
                guard: init_prob(d.guards, len),
            };
            let faction = init_prob(d.werewolves, len);
            let mut i: usize = 0;
            while i < len
                invariant
                    0 <= i <= len,
                    len == players@.len(),
                    players@ == game_state.players@,
                    game_state.wf(),
                    nodes@.len() == i,
                    probs_wf(probs),
                    valid_score(faction),
                    faction == spec_init_prob(
                        game_state.game_config.role_distribution.werewolves,
                        len as int,
                    ),
                    forall|rt: RoleType|
                        probs.spec_get(rt) == spec_init_prob(
                            #[trigger] game_state.game_config.role_distribution.spec_count(rt),
                            len as int,
                        ),
                    forall|j: int|
                        0 <= j < i ==> {
                            let node = #[trigger] nodes@[j];
                            &&& node.player_id == players@[j].id
                            &&& node.trust_score == 500
                            &&& node.suspicion_score == 500
                            &&& node.evidence@.len() == 0
                            &&& node.faction_probability == faction
                            &&& node.role_probabilities == probs
                            &&& node_wf(node)
                        },
                decreases len - i,
            {
                let node = BayesianNode {
                    player_id: players[i].id,
                    role_probabilities: probs,
                    faction_probability: faction,
                    trust_score: 500,
                    suspicion_score: 500,
                    evidence: Vec::new(),
                };
                nodes.push(node);
                i = i + 1;
            }
        }
        self.nodes = nodes;
    }

    /// Record a voting-pattern evidence entry against the voter.
    pub fn analyze_vote(&mut self, voter_id: u64, target_id: u64) -> (r: AppResult<()>)
        requires
            old(self).wf(),
        ensures
            final(self).wf(),
            r is Ok,
            final(self).nodes@.len() == old(self).nodes@.len(),
            if has_node(old(self).nodes@, voter_id) {
                exists|k: int, e: Evidence|
                    #![auto]
                    0 <= k < old(self).nodes@.len() && old(self).nodes@[k].player_id == voter_id
                        && e.evidence_type == EvidenceType::VotingPattern && e.confidence == 800
                        && e.weight == 300 && node_updated(
                        old(self).nodes@[k],
                        final(self).nodes@[k],
                        e,
                    ) && (forall|j: int|
                        0 <= j < old(self).nodes@.len() && j != k ==> final(self).nodes@[j] == old(
                            self,
                        ).nodes@[j])
            } else {
                final(self).nodes@ == old(self).nodes@
            },
    {
        let _ = target_id;
        let evidence = Evidence {
            evidence_type: EvidenceType::VotingPattern,
            confidence: 800,
            source: vec!['v', 'o', 't', 'i', 'n', 'g'],
            description: vec!['v', 'o', 't', 'e', ' ', 'c', 'a', 's', 't'],
            weight: 300,
        };
        let r = self.add_evidence(voter_id, evidence);
        r
    }

    /// Run the speech heuristics over a line of speech and log the result
    /// as speech-analysis evidence against the speaker.
    pub fn analyze_speech(&mut self, player_id: u64, content: &Vec<char>) -> (r: AppResult<()>)
        requires
            old(self).wf(),
        ensures
            final(self).wf(),
            r is Ok,
            final(self).nodes@.len() == old(self).nodes@.len(),
            if has_node(old(self).nodes@, player_id) {
                exists|k: int, e: Evidence|
                    #![auto]
                    0 <= k < old(self).nodes@.len() && old(self).nodes@[k].player_id == player_id
                        && e.evidence_type == EvidenceType::SpeechAnalysis && e.confidence
                        == crate::speech::spec_speech_confidence(content@) && e.weight
                        == crate::speech::spec_suspicion_weight(content@) && node_updated(
                        old(self).nodes@[k],
                        final(self).nodes@[k],
                        e,
                    ) && (forall|j: int|
                        0 <= j < old(self).nodes@.len() && j != k ==> final(self).nodes@[j] == old(
                            self,
                        ).nodes@[j])
            } else {
                final(self).nodes@ == old(self).nodes@
            },
    {
        let (weight, confidence) = crate::speech::perform_speech_analysis(content);
        let evidence = Evidence {
            evidence_type: EvidenceType::SpeechAnalysis,
            confidence,
            source: vec!['s', 'p', 'e', 'e', 'c', 'h'],
            description: vec![
                's',
                'p',
                'e',
                'e',
                'c',
                'h',
                ' ',
                'a',
                'n',
                'a',
                'l',
                'y',
                's',
                'i',
                's',
            ],
            weight,
        };
        let r = self.add_evidence(player_id, evidence);
        r
    }

    /// The player with the greatest suspicion score; ties go to the lowest
    /// player id. Nothing when no players are tracked.
    pub fn get_most_suspicious_player(&self) -> (r: Option<u64>)
        ensures
            match r {
                None => self.nodes@.len() == 0,
                Some(id) => is_most_suspicious(self.nodes@, id),
            },
    {
        if self.nodes.len() == 0 {
            return None;
        }
        let mut best: usize = 0;
        let mut i: usize = 1;
        while i < self.nodes.len()
            invariant
                0 <= best < i <= self.nodes@.len(),
                forall|j: int|
                    0 <= j < i ==> {
                        let nj = #[trigger] self.nodes@[j];
                        let nb = self.nodes@[best as int];
                        nj.suspicion_score < nb.suspicion_score || (nj.suspicion_score
                            == nb.suspicion_score && nb.player_id <= nj.player_id)
                    },
            decreases self.nodes@.len() - i,
        {
            let better = self.nodes[i].suspicion_score > self.nodes[best].suspicion_score || (
            self.nodes[i].suspicion_score == self.nodes[best].suspicion_score
                && self.nodes[i].player_id < self.nodes[best].player_id);
            if better {
                best = i;
            }
            i = i + 1;
        }
        Some(self.nodes[best].player_id)
    }

    /// The player with the greatest trust score; ties go to the lowest
    /// player id. Nothing when no players are tracked.
    pub fn get_most_trusted_player(&self) -> (r: Option<u64>)
        ensures
            match r {
                None => self.nodes@.len() == 0,
                Some(id) => is_most_trusted(self.nodes@, id),
            },
    {
        if self.nodes.len() == 0 {
            return None;
        }
        let mut best: usize = 0;
        let mut i: usize = 1;
        while i < self.nodes.len()
            invariant
                0 <= best < i <= self.nodes@.len(),
                forall|j: int|
                    0 <= j < i ==> {
                        let nj = #[trigger] self.nodes@[j];
                        let nb = self.nodes@[best as int];
                        nj.trust_score < nb.trust_score || (nj.trust_score == nb.trust_score
                            && nb.player_id <= nj.player_id)
                    },
            decreases self.nodes@.len() - i,
        {
            let better = self.nodes[i].trust_score > self.nodes[best].trust_score || (
            self.nodes[i].trust_score == self.nodes[best].trust_score && self.nodes[i].player_id
                < self.nodes[best].player_id);
            if better {
                best = i;
            }
            i = i + 1;
        }
        Some(self.nodes[best].player_id)
    }

    /// The tracked hostile-faction probability of a player, or the neutral
    /// 500 for players without a node.
    pub fn get_werewolf_probability(&self, player_id: u64) -> (p: u32)
        requires
            self.wf(),
        ensures
            valid_score(p),
            p == spec_wolf_prob(*self, player_id),
    {
        let mut i: usize = 0;
        while i < self.nodes.len()
            invariant
                0 <= i <= self.nodes@.len(),
                self.wf(),
                forall|j: int| 0 <= j < i ==> (#[trigger] self.nodes@[j]).player_id != player_id,
            decreases self.nodes@.len() - i,
        {
            if self.nodes[i].player_id == player_id {
                proof {
                    let k = choose|k: int|
                        0 <= k < self.nodes@.len() && (#[trigger] self.nodes@[k]).player_id
                            == player_id;
                    assert(self.nodes@[i as int].player_id == player_id);
                    assert(k == i as int);
                }
                return self.nodes[i].faction_probability;
            }
            i = i + 1;
        }
        500
    }
}

/// The hostile-faction probability the engine tracks for a player, or the
/// neutral 500 when the player has no node.
pub open spec fn spec_wolf_prob(re: ReasoningEngine, id: u64) -> u32 {
    if has_node(re.nodes@, id) {
        let k = choose|k: int|
            0 <= k < re.nodes@.len() && (#[trigger] re.nodes@[k]).player_id == id;
        re.nodes@[k].faction_probability
    } else {
        500
    }
}

/// Only one player can be the most trusted: the predicate pins both the
/// maximal score and the lowest id among the maxima.
pub proof fn lemma_most_trusted_unique(nodes: Seq<BayesianNode>, a: u64, b: u64)
    requires
        is_most_trusted(nodes, a),
        is_most_trusted(nodes, b),
    ensures
        a == b,
{
    let ka = choose|k: int|
        0 <= k < nodes.len() && (#[trigger] nodes[k]).player_id == a && (forall|j: int|
            0 <= j < nodes.len() ==> {
                let nj = #[trigger] nodes[j];
                nj.trust_score < nodes[k].trust_score || (nj.trust_score == nodes[k].trust_score
                    && a <= nj.player_id)
            });
    let kb = choose|k: int|
        0 <= k < nodes.len() && (#[trigger] nodes[k]).player_id == b && (forall|j: int|
            0 <= j < nodes.len() ==> {
                let nj = #[trigger] nodes[j];
                nj.trust_score < nodes[k].trust_score || (nj.trust_score == nodes[k].trust_score
                    && b <= nj.player_id)
            });
    assert(nodes[kb].trust_score < nodes[ka].trust_score || (nodes[kb].trust_score
        == nodes[ka].trust_score && a <= nodes[kb].player_id));
    assert(nodes[ka].trust_score < nodes[kb].trust_score || (nodes[ka].trust_score
        == nodes[kb].trust_score && b <= nodes[ka].player_id));
}

/// Only one player can be the most suspicious.
pub proof fn lemma_most_suspicious_unique(nodes: Seq<BayesianNode>, a: u64, b: u64)
    requires
        is_most_suspicious(nodes, a),
        is_most_suspicious(nodes, b),
    ensures
        a == b,
{
    let ka = choose|k: int|
        0 <= k < nodes.len() && (#[trigger] nodes[k]).player_id == a && (forall|j: int|
            0 <= j < nodes.len() ==> {
                let nj = #[trigger] nodes[j];
                nj.suspicion_score < nodes[k].suspicion_score || (nj.suspicion_score
                    == nodes[k].suspicion_score && a <= nj.player_id)
            });
    let kb = choose|k: int|
        0 <= k < nodes.len() && (#[trigger] nodes[k]).player_id == b && (forall|j: int|
            0 <= j < nodes.len() ==> {
                let nj = #[trigger] nodes[j];
                nj.suspicion_score < nodes[k].suspicion_score || (nj.suspicion_score
                    == nodes[k].suspicion_score && b <= nj.player_id)
            });
    assert(nodes[kb].suspicion_score < nodes[ka].suspicion_score || (nodes[kb].suspicion_score
        == nodes[ka].suspicion_score && a <= nodes[kb].player_id));
    assert(nodes[ka].suspicion_score < nodes[kb].suspicion_score || (nodes[ka].suspicion_score
        == nodes[kb].suspicion_score && b <= nodes[ka].player_id));
}

/// What the engine believes about one player, for reporting.
#[derive(Debug, Clone)]
pub struct PlayerAnalysis {
    pub player_id: u64,
    pub werewolf_probability: u32,
    pub suspicion_score: u32,
    pub trust_score: u32,
    pub main_evidence: Vec<Evidence>,
}

/// The engine's full report: one analysis per tracked player, ordered by
/// falling suspicion, plus the two extremes.
#[derive(Debug, Clone)]
pub struct ReasoningReport {
    pub player_analysis: Vec<PlayerAnalysis>,
    pub most_suspicious: Option<u64>,
    pub most_trusted: Option<u64>,
}

/// The analyses are ordered by falling suspicion score.
pub open spec fn analyses_sorted(s: Seq<PlayerAnalysis>) -> bool {
    forall|i: int, j: int|
        0 <= i < j < s.len() ==> (#[trigger] s[i]).suspicion_score >= (
        #[trigger] s[j]).suspicion_score
}

/// The analysis entry built from one node: its scalar estimates and up to
/// three leading evidence records.
pub open spec fn analysis_of(n: BayesianNode, a: PlayerAnalysis) -> bool {
    &&& a.player_id == n.player_id
    &&& a.werewolf_probability == n.faction_probability
    &&& a.suspicion_score == n.suspicion_score
    &&& a.trust_score == n.trust_score
    &&& a.main_evidence@.len() == if n.evidence@.len() < 3 {
        n.evidence@.len()
    } else {
        3nat
    }
}

impl ReasoningEngine {
    /// Build the report: one analysis per node, sorted by falling
    /// suspicion, together with the most suspicious and the most trusted
    /// player.
    pub fn get_analysis_report(&self) -> (r: ReasoningReport)
        requires
            self.wf(),
        ensures
            r.player_analysis@.len() == self.nodes@.len(),
            analyses_sorted(r.player_analysis@),
            forall|i: int|
                #![trigger r.player_analysis@[i]]
                0 <= i < r.player_analysis@.len() ==> exists|k: int|
                    0 <= k < self.nodes@.len() && analysis_of(
                        #[trigger] self.nodes@[k],
                        r.player_analysis@[i],
                    ),
            forall|i: int, j: int|
                0 <= i < j < r.player_analysis@.len() ==> (
                #[trigger] r.player_analysis@[i]).player_id != (
                #[trigger] r.player_analysis@[j]).player_id,
            forall|k: int|
                0 <= k < self.nodes@.len() ==> exists|i: int|
                    0 <= i < r.player_analysis@.len() && analysis_of(
                        #[trigger] self.nodes@[k],
                        r.player_analysis@[i],
                    ),
            match r.most_suspicious {
                None => self.nodes@.len() == 0,
                Some(id) => is_most_suspicious(self.nodes@, id),
            },
            match r.most_trusted {
                None => self.nodes@.len() == 0,
                Some(id) => is_most_trusted(self.nodes@, id),
            },
    {
        let mut entries: Vec<PlayerAnalysis> = Vec::new();
        let n = self.nodes.len();
        let mut i: usize = 0;
        while i < n
            invariant
                0 <= i <= n,
                n == self.nodes@.len(),
                entries@.len() == i,
                forall|j: int|
                    0 <= j < i ==> analysis_of(self.nodes@[j], #[trigger] entries@[j]),
            decreases n - i,
        {
            let node = &self.nodes[i];
            let mut main_evidence: Vec<Evidence> = Vec::new();
            let take = if node.evidence.len() < 3 {
                node.evidence.len()
            } else {
                3
            };
            let mut k: usize = 0;
            while k < take
                invariant
                    0 <= k <= take,
                    take <= node.evidence@.len(),
                    main_evidence@.len() == k,
                decreases take - k,
            {
                main_evidence.push(node.evidence[k].clone());
                k = k + 1;
            }
            entries.push(
                PlayerAnalysis {
                    player_id: node.player_id,
                    werewolf_probability: node.faction_probability,
                    suspicion_score: node.suspicion_score,
                    trust_score: node.trust_score,
                    main_evidence,
                },
            );
            i = i + 1;
        }
        let ghost built = entries@;
        let player_analysis = sort_analyses_desc(entries);
        proof {
            broadcast use vstd::seq_lib::group_to_multiset_ensures;

            player_analysis@.to_multiset_ensures();
            built.to_multiset_ensures();
            assert forall|i: int|
                #![trigger player_analysis@[i]]
                0 <= i < player_analysis@.len() implies exists|k: int|
                0 <= k < self.nodes@.len() && analysis_of(
                    #[trigger] self.nodes@[k],
                    player_analysis@[i],
                ) by {
                let a = player_analysis@[i];
                assert(player_analysis@.contains(a));
                assert(player_analysis@.to_multiset().count(a) > 0);
                assert(built.to_multiset().count(a) > 0);
                assert(built.contains(a));
                let j = choose|j: int| 0 <= j < built.len() && built[j] == a;
                assert(analysis_of(self.nodes@[j], a));
            }
            // One entry per node: the built entries carry the nodes'
            // pairwise-distinct ids, so the sorted permutation repeats none
            // and covers all.
            assert forall|i: int, j: int|
                0 <= i < built.len() && 0 <= j < built.len() && i != j implies built[i]
                != built[j] by {
                assert(analysis_of(self.nodes@[i], built[i]));
                assert(analysis_of(self.nodes@[j], built[j]));
            }
            assert(built.no_duplicates());
            built.lemma_multiset_has_no_duplicates();
            player_analysis@.lemma_multiset_has_no_duplicates_conv();
            assert forall|i: int, j: int|
                0 <= i < j < player_analysis@.len() implies (
            #[trigger] player_analysis@[i]).player_id != (
            #[trigger] player_analysis@[j]).player_id by {
                let a = player_analysis@[i];
                let b = player_analysis@[j];
                assert(a != b);
                assert(player_analysis@.contains(a));
                assert(player_analysis@.contains(b));
                assert(built.to_multiset().count(a) > 0);
                assert(built.to_multiset().count(b) > 0);
                assert(built.contains(a));
                assert(built.contains(b));
                let ka = choose|k: int| 0 <= k < built.len() && built[k] == a;
                let kb = choose|k: int| 0 <= k < built.len() && built[k] == b;
                assert(analysis_of(self.nodes@[ka], a));
                assert(analysis_of(self.nodes@[kb], b));
                if a.player_id == b.player_id {
                    assert(self.nodes@[ka].player_id == self.nodes@[kb].player_id);
                    assert(ka == kb);
                }
            }
            assert forall|k: int| 0 <= k < self.nodes@.len() implies exists|i: int|
                0 <= i < player_analysis@.len() && analysis_of(
                    #[trigger] self.nodes@[k],
                    player_analysis@[i],
                ) by {
                assert(analysis_of(self.nodes@[k], built[k]));
                assert(built.contains(built[k]));
                assert(built.to_multiset().count(built[k]) > 0);
                assert(player_analysis@.to_multiset().count(built[k]) > 0);
                assert(player_analysis@.contains(built[k]));
                let i = choose|i: int|
                    0 <= i < player_analysis@.len() && player_analysis@[i] == built[k];
                assert(analysis_of(self.nodes@[k], player_analysis@[i]));
            }
        }
        ReasoningReport {
            player_analysis,
            most_suspicious: self.get_most_suspicious_player(),
            most_trusted: self.get_most_trusted_player(),
        }
    }
}

/// Order the analyses by falling suspicion score: repeatedly move the
/// most suspicious remaining entry over. The entries are preserved as a
/// multiset.
fn sort_analyses_desc(input: Vec<PlayerAnalysis>) -> (r: Vec<PlayerAnalysis>)
    ensures
        r@.len() == input@.len(),
        analyses_sorted(r@),
        r@.to_multiset() == input@.to_multiset(),
{
    broadcast use vstd::seq_lib::group_to_multiset_ensures;

    let ghost orig = input@;
    let mut remaining = input;
    let mut out: Vec<PlayerAnalysis> = Vec::new();
    proof {
        assert(out@.to_multiset().add(remaining@.to_multiset()) =~= orig.to_multiset());
    }
    while remaining.len() > 0
        invariant
            out@.len() + remaining@.len() == orig.len(),
            analyses_sorted(out@),
            out@.to_multiset().add(remaining@.to_multiset()) == orig.to_multiset(),
            forall|i: int, j: int|
                0 <= i < out@.len() && 0 <= j < remaining@.len() ==> (
                #[trigger] out@[i]).suspicion_score >= (#[trigger] remaining@[j]).suspicion_score,
        decreases remaining@.len(),
    {
        let mut best: usize = 0;
        let mut k: usize = 1;
        while k < remaining.len()
            invariant
                0 <= best < k <= remaining@.len(),
                forall|j: int|
                    0 <= j < k ==> (#[trigger] remaining@[j]).suspicion_score
                        <= remaining@[best as int].suspicion_score,
            decreases remaining@.len() - k,
        {
            if remaining[k].suspicion_score > remaining[best].suspicion_score {
                best = k;
            }
            k = k + 1;
        }
        let ghost pre = remaining@;
        let ghost preout = out@;
        let picked = remaining.remove(best);
        proof {
            pre.remove_ensures(best as int);
            pre.to_multiset_ensures();
            assert(pre.contains(pre[best as int]));
            assert(pre.to_multiset().count(pre[best as int]) > 0);
            assert forall|j: int|
                0 <= j < remaining@.len() implies (#[trigger] remaining@[j]).suspicion_score
                <= picked.suspicion_score by {
                if j < best {
                    assert(remaining@[j] == pre[j]);
                } else {
                    assert(remaining@[j] == pre[j + 1]);
                }
            }
        }
        out.push(picked);
        proof {
            assert forall|i: int, j: int| 0 <= i < j < out@.len() implies (
            #[trigger] out@[i]).suspicion_score >= (#[trigger] out@[j]).suspicion_score by {
                if j == out@.len() - 1 {
                    assert(out@[i] == preout[i]);
                    assert(out@[j] == pre[best as int]);
                    assert(preout[i].suspicion_score >= pre[best as int].suspicion_score);
                } else {
                    assert(out@[i] == preout[i]);
                    assert(out@[j] == preout[j]);
                }
            }
            assert forall|i: int, j: int|
                0 <= i < out@.len() && 0 <= j < remaining@.len() implies (
            #[trigger] out@[i]).suspicion_score >= (#[trigger] remaining@[j]).suspicion_score by {
                if i < out@.len() - 1 {
                    assert(out@[i] == preout[i]);
                    if j < best {
                        assert(remaining@[j] == pre[j]);
                    } else {
                        assert(remaining@[j] == pre[j + 1]);
                    }
                } else {
                    assert(out@[i] == pre[best as int]);
                }
            }
            preout.to_multiset_ensures();
            assert(out@ == preout.push(picked));
            assert(out@.to_multiset() =~= preout.to_multiset().insert(pre[best as int]));
            assert(out@.to_multiset().add(remaining@.to_multiset()) =~= orig.to_multiset());
        }
    }
    out
}

/// `id` names a tracked player whose suspicion score is maximal; among the
/// maxima, `id` is the lowest.
pub open spec fn is_most_suspicious(nodes: Seq<BayesianNode>, id: u64) -> bool {
    exists|k: int|
        0 <= k < nodes.len() && (#[trigger] nodes[k]).player_id == id && (forall|j: int|
            0 <= j < nodes.len() ==> {
                let nj = #[trigger] nodes[j];
                nj.suspicion_score < nodes[k].suspicion_score || (nj.suspicion_score
                    == nodes[k].suspicion_score && id <= nj.player_id)
            })
}

/// `id` names a tracked player whose trust score is maximal; among the
/// maxima, `id` is the lowest.
pub open spec fn is_most_trusted(nodes: Seq<BayesianNode>, id: u64) -> bool {
    exists|k: int|
        0 <= k < nodes.len() && (#[trigger] nodes[k]).player_id == id && (forall|j: int|
            0 <= j < nodes.len() ==> {
                let nj = #[trigger] nodes[j];
                nj.trust_score < nodes[k].trust_score || (nj.trust_score == nodes[k].trust_score
                    && id <= nj.player_id)
            })
}

/// One role's share of the roster, in thousandths, capped at one.
pub open spec fn spec_init_prob(count: u8, total: int) -> u32
    recommends
        total > 0,
{
    let p = count * 1000 / total;
    if p > 1000 {
        1000
    } else {
        p as u32
    }
}

/// One role's share of the roster, in thousandths, capped at one.
fn init_prob(count: u8, total: usize) -> (p: u32)
    requires
        total > 0,
    ensures
        p == spec_init_prob(count, total as int),
        valid_score(p),
{
    let raw: u64 = (count as u64 * 1000) / (total as u64);
    if raw > 1000 {
        1000
    } else {
        raw as u32
    }
}

} // verus!
