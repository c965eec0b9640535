//! The game phase state machine: the authoritative `GameState`, the legal
//! transition graph, vote bookkeeping, eliminations, and the win condition.
use vstd::prelude::*;
use crate::error::{AppError, AppResult, GameLogicError};
use crate::roles::{
    Role, RoleType, Faction, RoleDistribution, spec_role_distribution,
    generate_role_distribution, spec_create_role,
};
use crate::types::{
    Player, GamePhase, GameState, GameConfig, VoteRecord, NightAction, NightActionType,
    ChatMessage, PersonalityTraits, AIPersonality, player_wf, traits_wf,
};
use crate::seq_util::count_where;
use crate::shuffle::shuffle;
use crate::rng::rand_below;
use crate::clock::now_millis;

verus! {

// ---------------------------------------------------------------------------
// Spec-level views of the roster and the vote set
// ---------------------------------------------------------------------------

/// The predicate "this player holds role type `rt`".
pub open spec fn role_is(rt: RoleType) -> spec_fn(Player) -> bool {
    |p: Player| p.role.role_type == rt
}

/// How many players in `s` hold role type `rt`.
pub open spec fn count_role(s: Seq<Player>, rt: RoleType) -> int {
    count_where(s, role_is(rt))
}

/// How many players in `s` are alive and belong to faction `f`.
pub open spec fn count_alive_faction(s: Seq<Player>, f: Faction) -> int {
    count_where(s, |p: Player| p.is_alive && p.faction == f)
}

/// Some player in `s` carries id `id`.
pub open spec fn has_id(s: Seq<Player>, id: u64) -> bool {
    exists|i: int| 0 <= i < s.len() && (#[trigger] s[i]).id == id
}

/// Some live player in `s` carries id `id`.
pub open spec fn has_alive_id(s: Seq<Player>, id: u64) -> bool {
    exists|i: int| 0 <= i < s.len() && (#[trigger] s[i]).id == id && s[i].is_alive
}

/// All ids in `s` are pairwise distinct.
pub open spec fn ids_distinct(s: Seq<Player>) -> bool {
    forall|i: int, j: int|
        0 <= i < j < s.len() ==> (#[trigger] s[i]).id != (#[trigger] s[j]).id
}

/// No id occurs both in `a` and in `b`.
pub open spec fn ids_disjoint(a: Seq<Player>, b: Seq<Player>) -> bool {
    forall|i: int, j: int|
        0 <= i < a.len() && 0 <= j < b.len() ==> (#[trigger] a[i]).id != (#[trigger] b[j]).id
}

/// At most one pending vote per voter.
pub open spec fn voters_distinct(votes: Seq<VoteRecord>) -> bool {
    forall|i: int, j: int|
        0 <= i < j < votes.len() ==> (#[trigger] votes[i]).voter != (#[trigger] votes[j]).voter
}

/// How many pending votes name `t` as their target.
pub open spec fn vote_count(votes: Seq<VoteRecord>, t: u64) -> int {
    count_where(votes, |v: VoteRecord| v.target == t)
}

/// `w` is the resolution of the pending votes: a named target with the
/// greatest vote count, the lowest id among ties.
pub open spec fn plurality_winner(votes: Seq<VoteRecord>, w: u64) -> bool {
    &&& exists|i: int| 0 <= i < votes.len() && (#[trigger] votes[i]).target == w
    &&& forall|i: int|
        0 <= i < votes.len() ==> {
            let u = (#[trigger] votes[i]).target;
            vote_count(votes, u) < vote_count(votes, w) || (vote_count(votes, u) == vote_count(
                votes,
                w,
            ) && w <= u)
        }
}

/// The pending votes after one vote is recorded: the voter's earlier
/// vote, if any, is removed, and the new record is appended.
pub open spec fn spec_votes_after(
    votes: Seq<VoteRecord>,
    voter: u64,
    target: u64,
    ts: i64,
) -> Seq<VoteRecord> {
    votes.filter(|v: VoteRecord| v.voter != voter).push(
        VoteRecord { voter, target, timestamp: ts },
    )
}

/// A second vote from the same voter replaces the earlier one rather than
/// duplicating it: after any two votes by one voter, exactly one pending
/// vote carries that voter — the later one — and every other voter's
/// pending votes are exactly what they were.
pub proof fn lemma_vote_replaces(
    votes: Seq<VoteRecord>,
    voter: u64,
    t1: u64,
    ts1: i64,
    t2: u64,
    ts2: i64,
)
    ensures
        ({
            let after1 = spec_votes_after(votes, voter, t1, ts1);
            let after2 = spec_votes_after(after1, voter, t2, ts2);
            &&& count_where(after2, |v: VoteRecord| v.voter == voter) == 1
            &&& after2.last() == (VoteRecord { voter, target: t2, timestamp: ts2 })
            &&& after2.filter(|v: VoteRecord| v.voter != voter) == votes.filter(
                |v: VoteRecord| v.voter != voter,
            )
        }),
{
    broadcast use Seq::lemma_filter_push;

    let keep = |v: VoteRecord| v.voter != voter;
    let mine = |v: VoteRecord| v.voter == voter;
    let rec1 = VoteRecord { voter, target: t1, timestamp: ts1 };
    let rec2 = VoteRecord { voter, target: t2, timestamp: ts2 };
    let f1 = votes.filter(keep);
    let after1 = spec_votes_after(votes, voter, t1, ts1);
    assert forall|i: int| 0 <= i < f1.len() implies keep(#[trigger] f1[i]) by {
        votes.lemma_filter_pred(keep, i);
    }
    // Recording the first vote adds a record the filter removes again.
    assert(after1 == f1.push(rec1));
    assert(after1.filter(keep) == f1.filter(keep));
    crate::seq_util::lemma_filter_retains_all(f1, keep);
    let after2 = spec_votes_after(after1, voter, t2, ts2);
    assert(after2 == f1.push(rec2));
    // No kept record belongs to the voter, so exactly the new one does.
    assert forall|i: int| 0 <= i < f1.len() implies !mine(#[trigger] f1[i]) by {
        votes.lemma_filter_pred(keep, i);
    }
    crate::seq_util::lemma_filter_drops_all(f1, mine);
    assert(f1.push(rec2).filter(mine) == f1.filter(mine).push(rec2));
    assert(count_where(after2, mine) == 1);
    assert(after2.filter(keep) == f1.filter(keep));
}

/// The same player, recorded as dead.
pub open spec fn dead_of(p: Player) -> Player {
    Player {
        id: p.id,
        name: p.name,
        role: p.role,
        faction: p.faction,
        is_alive: false,
        is_ai: p.is_ai,
        personality: p.personality,
    }
}

/// The elimination relation: if `id` is in the live roster, exactly that
/// player moves, dead, to the end of the dead roster; otherwise nothing
/// changes.
pub open spec fn elim_rel(
    pp: Seq<Player>,
    pd: Seq<Player>,
    fp: Seq<Player>,
    fd: Seq<Player>,
    id: u64,
) -> bool {
    if has_id(pp, id) {
        exists|k: int|
            0 <= k < pp.len() && (#[trigger] pp[k]).id == id && fp == pp.remove(k) && fd
                == pd.push(dead_of(pp[k]))
    } else {
        fp == pp && fd == pd
    }
}

/// The win rule. Werewolves win on reaching parity with the villager
/// faction; the villager faction wins once no werewolf is left.
pub open spec fn spec_win_condition(wolves: int, villagers: int) -> Option<Faction> {
    if wolves == 0 {
        Some(Faction::Villager)
    } else if wolves >= villagers {
        Some(Faction::Werewolf)
    } else {
        None
    }
}

/// Two states that agree on everything but the pending votes.
pub open spec fn eq_except_votes(a: GameState, b: GameState) -> bool {
    &&& a.phase == b.phase
    &&& a.day == b.day
    &&& a.players == b.players
    &&& a.dead_players == b.dead_players
    &&& a.game_config == b.game_config
    &&& a.winner == b.winner
    &&& a.current_speaker == b.current_speaker
    &&& a.time_remaining == b.time_remaining
}

impl GameState {
    /// Structural invariant of the aggregate: live players are alive and
    /// well formed, dead players are dead and well formed, ids never repeat,
    /// and each voter holds at most one pending vote.
    pub open spec fn wf(self) -> bool {
        &&& forall|i: int|
            0 <= i < self.players@.len() ==> (#[trigger] self.players@[i]).is_alive && player_wf(
                self.players@[i],
            )
        &&& forall|i: int|
            0 <= i < self.dead_players@.len() ==> !(#[trigger] self.dead_players@[i]).is_alive
                && player_wf(self.dead_players@[i])
        &&& ids_distinct(self.players@)
        &&& ids_distinct(self.dead_players@)
        &&& ids_disjoint(self.players@, self.dead_players@)
        &&& voters_distinct(self.votes@)
    }
}

// ---------------------------------------------------------------------------
// The win condition as a standalone rule
// ---------------------------------------------------------------------------

/// Evaluate the win rule for the given live counts.
pub fn check_win_condition(alive_werewolves: usize, alive_villagers: usize) -> (r: Option<
    Faction,
>)
    ensures
        r == spec_win_condition(alive_werewolves as int, alive_villagers as int),
{
    if alive_werewolves == 0 {
        Some(Faction::Villager)
    } else if alive_werewolves >= alive_villagers {
        Some(Faction::Werewolf)
    } else {
        None
    }
}

// ---------------------------------------------------------------------------
// Exec helpers over the roster
// ---------------------------------------------------------------------------

/// Count the live members of a faction.
pub fn count_alive_in_faction(players: &Vec<Player>, f: Faction) -> (n: usize)
    ensures
        n == count_alive_faction(players@, f),
{
    let ghost pred = |p: Player| p.is_alive && p.faction == f;
    let mut n: usize = 0;
    let mut i: usize = 0;
    while i < players.len()
        invariant
            0 <= i <= players@.len(),
            n == count_where(players@.subrange(0, i as int), pred),
            n <= i,
            pred == (|p: Player| p.is_alive && p.faction == f),
        decreases players@.len() - i,
    {
        let ghost pre = players@.subrange(0, i as int);
        let p = &players[i];
        let hit = p.is_alive && p.faction == f;
        proof {
            assert(players@.subrange(0, i + 1) =~= pre.push(players@[i as int]));
            pre.lemma_filter_push(players@[i as int], pred);
            pre.lemma_filter_len(pred);
        }
        if hit {
            n = n + 1;
        }
        i = i + 1;
    }
    proof {
        assert(players@.subrange(0, players@.len() as int) =~= players@);
    }
    n
}

/// The predicate "this role record has role type `rt`".
pub open spec fn role_has_type(rt: RoleType) -> spec_fn(Role) -> bool {
    |r: Role| r.role_type == rt
}

/// Every record in the deck is the canonical record of its role type.
pub open spec fn all_canonical(s: Seq<Role>) -> bool {
    forall|i: int| 0 <= i < s.len() ==> (#[trigger] s[i]) == spec_create_role(s[i].role_type)
}

/// Append `n` canonical role records of one type to the deck.
fn push_role_n(deck: &mut Vec<Role>, rt: RoleType, n: u8)
    requires
        old(deck)@.len() + n <= usize::MAX,
    ensures
        final(deck)@.len() == old(deck)@.len() + n,
        all_canonical(old(deck)@) ==> all_canonical(final(deck)@),
        forall|rt2: RoleType|
            count_where(final(deck)@, #[trigger] role_has_type(rt2)) == count_where(
                old(deck)@,
                role_has_type(rt2),
            ) + if rt2 == rt {
                n as int
            } else {
                0int
            },
{
    let mut j: u8 = 0;
    while j < n
        invariant
            0 <= j <= n,
            old(deck)@.len() + n <= usize::MAX,
            deck@.len() == old(deck)@.len() + j,
            forall|i: int| 0 <= i < old(deck)@.len() ==> (#[trigger] deck@[i]) == old(deck)@[i],
            forall|i: int|
                old(deck)@.len() <= i < deck@.len() ==> (#[trigger] deck@[i]) == spec_create_role(
                    rt,
                ),
            forall|rt2: RoleType|
                count_where(deck@, #[trigger] role_has_type(rt2)) == count_where(
                    old(deck)@,
                    role_has_type(rt2),
                ) + if rt2 == rt {
                    j as int
                } else {
                    0int
                },
        decreases n - j,
    {
        let ghost pre = deck@;
        let r = Role::create(rt);
        deck.push(r);
        proof {
            assert forall|rt2: RoleType|
                count_where(deck@, #[trigger] role_has_type(rt2)) == count_where(
                    pre,
                    role_has_type(rt2),
                ) + if rt2 == rt {
                    1int
                } else {
                    0int
                } by {
                pre.lemma_filter_push(r, role_has_type(rt2));
            }
        }
        j = j + 1;
    }
    proof {
        if all_canonical(old(deck)@) {
            assert forall|i: int| 0 <= i < deck@.len() implies (#[trigger] deck@[i])
                == spec_create_role(deck@[i].role_type) by {
                if i < old(deck)@.len() {
                    assert(deck@[i] == old(deck)@[i]);
                }
            }
        }
    }
}

/// Build the unshuffled role deck for a distribution.
fn build_role_deck(dist: RoleDistribution) -> (deck: Vec<Role>)
    ensures
        deck@.len() == dist.spec_total(),
        all_canonical(deck@),
        forall|rt: RoleType|
            count_where(deck@, #[trigger] role_has_type(rt)) == dist.spec_count(rt),
{
    let mut deck: Vec<Role> = Vec::new();
    proof {
        assert(all_canonical(deck@));
        assert forall|rt: RoleType| count_where(deck@, #[trigger] role_has_type(rt)) == 0int by {
            reveal(Seq::filter);
        }
    }
    push_role_n(&mut deck, RoleType::Werewolf, dist.werewolves);
    push_role_n(&mut deck, RoleType::Villager, dist.villagers);
    push_role_n(&mut deck, RoleType::Seer, dist.seers);
    push_role_n(&mut deck, RoleType::Witch, dist.witches);
    push_role_n(&mut deck, RoleType::Hunter, dist.hunters);
    push_role_n(&mut deck, RoleType::Guard, dist.guards);
    deck
}

/// Filtering pending votes keeps voters pairwise distinct.
proof fn lemma_filter_voters_distinct(s: Seq<VoteRecord>, pred: spec_fn(VoteRecord) -> bool)
    requires
        voters_distinct(s),
    ensures
        voters_distinct(s.filter(pred)),
    decreases s.len(),
{
    broadcast use Seq::lemma_filter_push;

    if s.len() == 0 {
        reveal(Seq::filter);
    } else {
        let t = s.drop_last();
        assert(voters_distinct(t));
        lemma_filter_voters_distinct(t, pred);
        assert(t.push(s.last()) =~= s);
        if pred(s.last()) {
            assert(s.filter(pred) == t.filter(pred).push(s.last()));
            assert forall|k: int|
                0 <= k < t.filter(pred).len() implies (#[trigger] t.filter(pred)[k]).voter
                != s.last().voter by {
                let e = t.filter(pred)[k];
                assert(t.filter(pred).contains(e));
                t.lemma_filter_contains_rev(pred, e);
                let m = choose|m: int| 0 <= m < t.len() && t[m] == e;
                assert(s[m] == e);
                assert(s.last() == s[s.len() - 1]);
            }
        }
    }
}

/// Filtering a roster keeps player ids pairwise distinct.
proof fn lemma_filter_ids_distinct(s: Seq<Player>, pred: spec_fn(Player) -> bool)
    requires
        ids_distinct(s),
    ensures
        ids_distinct(s.filter(pred)),
    decreases s.len(),
{
    broadcast use Seq::lemma_filter_push;

    if s.len() == 0 {
        reveal(Seq::filter);
    } else {
        let t = s.drop_last();
        assert(ids_distinct(t));
        lemma_filter_ids_distinct(t, pred);
        assert(t.push(s.last()) =~= s);
        if pred(s.last()) {
            assert(s.filter(pred) == t.filter(pred).push(s.last()));
            assert forall|m: int|
                0 <= m < t.filter(pred).len() implies (#[trigger] t.filter(pred)[m]).id
                != s.last().id by {
                let e = t.filter(pred)[m];
                assert(t.filter(pred).contains(e));
                t.lemma_filter_contains_rev(pred, e);
                let mm = choose|mm: int| 0 <= mm < t.len() && t[mm] == e;
                assert(s[mm] == e);
                assert(s.last() == s[s.len() - 1]);
            }
        }
    }
}

/// Find the index of the player with the given id.
pub fn find_player_index(players: &Vec<Player>, id: u64) -> (r: Option<usize>)
    ensures
        match r {
            Some(k) => k < players@.len() && players@[k as int].id == id,
            None => !has_id(players@, id),
        },
{
    let mut i: usize = 0;
    while i < players.len()
        invariant
            0 <= i <= players@.len(),
            forall|j: int| 0 <= j < i ==> (#[trigger] players@[j]).id != id,
        decreases players@.len() - i,
    {
        if players[i].id == id {
            return Some(i);
        }
        i = i + 1;
    }
    None
}

/// Count the pending votes whose target is `t`.
pub fn count_votes_for(votes: &Vec<VoteRecord>, t: u64) -> (n: usize)
    ensures
        n == vote_count(votes@, t),
{
    let ghost pred = |v: VoteRecord| v.target == t;
    let mut n: usize = 0;
    let mut i: usize = 0;
    while i < votes.len()
        invariant
            0 <= i <= votes@.len(),
            n == count_where(votes@.subrange(0, i as int), pred),
            n <= i,
            pred == (|v: VoteRecord| v.target == t),
        decreases votes@.len() - i,
    {
        let ghost pre = votes@.subrange(0, i as int);
        proof {
            assert(votes@.subrange(0, i + 1) =~= pre.push(votes@[i as int]));
            pre.lemma_filter_push(votes@[i as int], pred);
            pre.lemma_filter_len(pred);
        }
        if votes[i].target == t {
            n = n + 1;
        }
        i = i + 1;
    }
    proof {
        assert(votes@.subrange(0, votes@.len() as int) =~= votes@);
    }
    n
}

/// Resolve the pending votes to the target with the most votes; ties go to
/// the lowest target id. Returns nothing when no votes are pending.
pub fn find_plurality_winner(votes: &Vec<VoteRecord>) -> (r: Option<u64>)
    ensures
        match r {
            Some(w) => votes@.len() > 0 && plurality_winner(votes@, w),
            None => votes@.len() == 0,
        },
{
    if votes.len() == 0 {
        return None;
    }
    let mut best_t: u64 = votes[0].target;
    let mut best_c: usize = count_votes_for(votes, best_t);
    let mut i: usize = 1;
    while i < votes.len()
        invariant
            1 <= i <= votes@.len(),
            exists|m: int| 0 <= m < votes@.len() && (#[trigger] votes@[m]).target == best_t,
            best_c == vote_count(votes@, best_t),
            forall|m: int|
                0 <= m < i ==> {
                    let u = (#[trigger] votes@[m]).target;
                    vote_count(votes@, u) < best_c || (vote_count(votes@, u) == best_c && best_t
                        <= u)
                },
        decreases votes@.len() - i,
    {
        let t = votes[i].target;
        let c = count_votes_for(votes, t);
        if c > best_c || (c == best_c && t < best_t) {
            best_t = t;
            best_c = c;
        }
        i = i + 1;
    }
    Some(best_t)
}

// ---------------------------------------------------------------------------
// Phase timers and resolution relations
// ---------------------------------------------------------------------------

/// The configured duration of a phase; zero for phases without a timer.
pub open spec fn spec_phase_duration(cfg: GameConfig, phase: GamePhase) -> u32 {
    match phase {
        GamePhase::DayDiscussion => cfg.discussion_time,
        GamePhase::Voting => cfg.voting_time,
        _ => 0,
    }
}

/// What the countdown holds after the timer for `phase` is started.
pub open spec fn spec_timer_after(s: GameState, phase: GamePhase) -> Option<u32> {
    if spec_phase_duration(s.game_config, phase) > 0 {
        Some(spec_phase_duration(s.game_config, phase))
    } else {
        s.time_remaining
    }
}

/// The vote-resolution relation: the pending votes are tallied, the
/// plurality target (lowest id among ties) is eliminated, and the vote set
/// is cleared. With no pending votes nobody is eliminated.
pub open spec fn votes_resolved_rel(pre: GameState, post: GameState) -> bool {
    &&& post.votes@ == Seq::<VoteRecord>::empty()
    &&& post.phase == pre.phase
    &&& post.day == pre.day
    &&& post.game_config == pre.game_config
    &&& post.winner == pre.winner
    &&& post.current_speaker == pre.current_speaker
    &&& post.time_remaining == pre.time_remaining
    &&& if pre.votes@.len() == 0 {
        post.players == pre.players && post.dead_players == pre.dead_players
    } else {
        exists|w: u64|
            #![auto]
            plurality_winner(pre.votes@, w) && elim_rel(
                pre.players@,
                pre.dead_players@,
                post.players@,
                post.dead_players@,
                w,
            )
    }
}

/// The win-check relation: when the rule decides a faction, the winner is
/// recorded and the game ends; otherwise nothing changes.
pub open spec fn win_checked_rel(pre: GameState, post: GameState, ended: bool) -> bool {
    let wolves = count_alive_faction(pre.players@, Faction::Werewolf);
    let villagers = count_alive_faction(pre.players@, Faction::Villager);
    match spec_win_condition(wolves, villagers) {
        Some(f) => ended && post == (GameState {
            winner: Some(f),
            phase: GamePhase::GameOver,
            ..pre
        }),
        None => !ended && post == pre,
    }
}

/// The successful step of the phase machine: what one call of the
/// transition entry point does to the state, per source phase. From
/// `Preparation` it holds only for a non-empty roster; from every other
/// phase it always holds of the step taken.
pub open spec fn phase_stepped(pre: GameState, post: GameState) -> bool {
    match pre.phase {
        GamePhase::Preparation => pre.players@.len() > 0 && post == (GameState {
            phase: GamePhase::Night,
            day: 1,
            ..pre
        }),
        GamePhase::Night => post == (GameState {
            phase: GamePhase::DayDiscussion,
            time_remaining: spec_timer_after(pre, GamePhase::DayDiscussion),
            ..pre
        }),
        GamePhase::DayDiscussion => post == (GameState {
            phase: GamePhase::Voting,
            time_remaining: spec_timer_after(pre, GamePhase::Voting),
            ..pre
        }),
        GamePhase::Voting => exists|mid: GameState|
            #![auto]
            votes_resolved_rel(pre, mid) && {
                let wolves = count_alive_faction(mid.players@, Faction::Werewolf);
                let villagers = count_alive_faction(mid.players@, Faction::Villager);
                match spec_win_condition(wolves, villagers) {
                    Some(f) => post == (GameState {
                        winner: Some(f),
                        phase: GamePhase::GameOver,
                        ..mid
                    }),
                    None => post == (GameState {
                        phase: GamePhase::Night,
                        day: (mid.day + 1) as u32,
                        ..mid
                    }),
                }
            },
        GamePhase::LastWords => post == (GameState {
            phase: GamePhase::Night,
            day: (pre.day + 1) as u32,
            ..pre
        }),
        GamePhase::GameOver => post == pre,
    }
}

/// What applying one night action does to the rosters: a kill with a
/// target eliminates per `elim_rel`; every other action leaves them.
pub open spec fn night_action_applied(
    pp: Seq<Player>,
    pd: Seq<Player>,
    fp: Seq<Player>,
    fd: Seq<Player>,
    a: NightAction,
) -> bool {
    if a.action is Kill && a.target is Some {
        elim_rel(pp, pd, fp, fd, a.target->0)
    } else {
        fp == pp && fd == pd
    }
}

// ---------------------------------------------------------------------------
// The engine
// ---------------------------------------------------------------------------

/// The game engine: owns the authoritative state; every mutation goes
/// through its operations.
pub struct GameEngine {
    pub state: GameState,
}

impl GameEngine {
    /// Create a fresh, empty game in the preparation phase.
    pub fn new(config: GameConfig) -> (r: AppResult<GameEngine>)
        ensures
            r is Ok,
            r matches Ok(e) ==> {
                &&& e.state.phase == GamePhase::Preparation
                &&& e.state.day == 0
                &&& e.state.players@ == Seq::<Player>::empty()
                &&& e.state.dead_players@ == Seq::<Player>::empty()
                &&& e.state.votes@ == Seq::<VoteRecord>::empty()
                &&& e.state.game_config == config
                &&& e.state.winner is None
                &&& e.state.current_speaker is None
                &&& e.state.time_remaining is None
                &&& e.state.wf()
            },
    {
        let state = GameState {
            phase: GamePhase::Preparation,
            day: 0,
            players: Vec::new(),
            dead_players: Vec::new(),
            votes: Vec::new(),
            game_config: config,
            winner: None,
            current_speaker: None,
            time_remaining: None,
        };
        Ok(GameEngine { state })
    }

    /// Generate a balanced personality for a computer player, each trait
    /// drawn uniformly from its band.
    fn generate_ai_personality(&self) -> (p: AIPersonality)
        ensures
            traits_wf(p.traits),
            300 <= p.traits.aggressiveness < 800,
            500 <= p.traits.logic < 900,
            400 <= p.traits.deception < 700,
            300 <= p.traits.trustfulness < 700,
    {
        let aggressiveness = 300 + rand_below(500) as u32;
        let logic = 500 + rand_below(400) as u32;
        let deception = 400 + rand_below(300) as u32;
        let trustfulness = 300 + rand_below(400) as u32;
        let id = rand_below(0xFFFF_FFFF_FFFF_FFFF);
        AIPersonality {
            id,
            name: vec!['B', 'a', 'l', 'a', 'n', 'c', 'e', 'd'],
            traits: PersonalityTraits { aggressiveness, logic, deception, trustfulness },
        }
    }

    /// Build the roster: derive the role distribution from the player
    /// count, shuffle the deck uniformly, seat one human player first, then
    /// the generated computer players. The roster's role counts equal the
    /// distribution table exactly.
    pub fn initialize_game(&mut self) -> (r: AppResult<()>)
        requires
            old(self).state.wf(),
            old(self).state.players@.len() == 0,
            old(self).state.dead_players@.len() == 0,
        ensures
            final(self).state.wf(),
            ({
                let s = old(self).state;
                let total = s.game_config.total_players;
                if total == 0 {
                    r == Err::<(), AppError>(AppError::GameLogic(
                        GameLogicError::NoPlayersConfigured,
                    )) && final(self).state == s
                } else {
                    let d = spec_role_distribution(total);
                    let np = final(self).state.players@;
                    &&& r is Ok
                    &&& final(self).state.game_config == (GameConfig {
                        role_distribution: d,
                        ..s.game_config
                    })
                    &&& final(self).state.phase == s.phase
                    &&& final(self).state.day == s.day
                    &&& final(self).state.votes == s.votes
                    &&& final(self).state.dead_players == s.dead_players
                    &&& final(self).state.winner == s.winner
                    &&& final(self).state.current_speaker == s.current_speaker
                    &&& final(self).state.time_remaining == s.time_remaining
                    &&& np.len() == d.spec_total()
                    &&& total >= 2 ==> np.len() == total
                    &&& np.len() > 0
                    &&& forall|rt: RoleType| count_role(np, rt) == d.spec_count(rt)
                    &&& forall|k: int|
                        0 <= k < np.len() ==> (#[trigger] np[k]).id == k as u64 && np[k].is_alive
                            && player_wf(np[k]) && (k >= 1 ==> np[k].is_ai)
                    &&& np[0].is_ai == false
                    &&& np[0].personality is None
                    &&& forall|k: int|
                        1 <= k < np.len() ==> ((#[trigger] np[k]).personality matches Some(pp)
                            && traits_wf(pp.traits))
                }
            }),
    {
        let total = self.state.game_config.total_players;
        if total == 0 {
            return Err(AppError::GameLogic(GameLogicError::NoPlayersConfigured));
        }
        let dist = generate_role_distribution(total);
        self.state.game_config.role_distribution = dist;
        let mut deck = build_role_deck(dist);
        let ghost predeck = deck@;
        shuffle(&mut deck);
        proof {
            broadcast use vstd::seq_lib::group_to_multiset_ensures;

            deck@.to_multiset_ensures();
            predeck.to_multiset_ensures();
            assert forall|i: int| 0 <= i < deck@.len() implies (#[trigger] deck@[i])
                == spec_create_role(deck@[i].role_type) by {
                assert(deck@.contains(deck@[i]));
                assert(deck@.to_multiset().count(deck@[i]) > 0);
                assert(predeck.to_multiset().count(deck@[i]) > 0);
                assert(predeck.contains(deck@[i]));
                let j = choose|j: int| 0 <= j < predeck.len() && predeck[j] == deck@[i];
                assert(predeck[j] == spec_create_role(predeck[j].role_type));
            }
            assert forall|rt: RoleType|
                count_where(deck@, #[trigger] role_has_type(rt)) == dist.spec_count(rt) by {
                let eqp = crate::seq_util::eq_to(spec_create_role(rt));
                crate::seq_util::lemma_count_equiv(deck@, role_has_type(rt), eqp);
                crate::seq_util::lemma_multiset_eq_count(deck@, predeck, spec_create_role(rt));
                crate::seq_util::lemma_count_equiv(predeck, role_has_type(rt), eqp);
            }
        }
        let ghost shuffled = deck@;
        // The human player takes the last card of the shuffled deck.
        let human_role = match deck.pop() {
            Some(role) => role,
            None => {
                proof {
                    assert(predeck.len() > 0);
                    assert(false);
                }
                Role::create(RoleType::Villager)
            },
        };
        let ghost deck2 = deck@;
        let mut players: Vec<Player> = Vec::new();
        let human = Player {
            id: 0,
            name: vec!['Y', 'o', 'u'],
            role: human_role,
            faction: *human_role.get_faction(),
            is_alive: true,
            is_ai: false,
            personality: None,
        };
        players.push(human);
        proof {
            assert forall|rt: RoleType|
                count_where(players@, #[trigger] role_is(rt)) == (if human_role.role_type == rt {
                    1int
                } else {
                    0int
                }) + count_where(deck2.subrange(0, 0), role_has_type(rt)) by {
                reveal(Seq::filter);
                assert(Seq::<Player>::empty().push(players@[0]) =~= players@);
                Seq::<Player>::empty().lemma_filter_push(players@[0], role_is(rt));
                assert(deck2.subrange(0, 0) =~= Seq::<Role>::empty());
            }
        }
        let mut i: usize = 0;
        while i < deck.len()
            invariant
                0 <= i <= deck2.len(),
                deck@ == deck2,
                deck2.len() + 1 <= usize::MAX,
                all_canonical(deck2),
                players@.len() == 1 + i,
                players@[0].is_ai == false,
                forall|k: int|
                    0 <= k < players@.len() ==> (#[trigger] players@[k]).id == k as u64
                        && players@[k].is_alive && player_wf(players@[k]) && (k >= 1
                        ==> players@[k].is_ai),
                players@[0].personality is None,
                forall|k: int|
                    1 <= k < players@.len() ==> ((#[trigger] players@[k]).personality matches Some(
                        pp,
                    ) && traits_wf(pp.traits)),
                forall|rt: RoleType|
                    count_where(players@, #[trigger] role_is(rt)) == (if human_role.role_type
                        == rt {
                        1int
                    } else {
                        0int
                    }) + count_where(deck2.subrange(0, i as int), role_has_type(rt)),
            decreases deck2.len() - i,
        {
            let role = deck[i];
            let personality = self.generate_ai_personality();
            let agent = Player {
                id: (i + 1) as u64,
                name: vec!['A', 'g', 'e', 'n', 't'],
                role,
                faction: *role.get_faction(),
                is_alive: true,
                is_ai: true,
                personality: Some(personality),
            };
            let ghost prep = players@;
            players.push(agent);
            proof {
                assert(role == spec_create_role(role.role_type));
                assert forall|rt: RoleType|
                    count_where(players@, #[trigger] role_is(rt)) == (if human_role.role_type
                        == rt {
                        1int
                    } else {
                        0int
                    }) + count_where(deck2.subrange(0, i + 1), role_has_type(rt)) by {
                    prep.lemma_filter_push(agent, role_is(rt));
                    assert(deck2.subrange(0, i + 1) =~= deck2.subrange(0, i as int).push(
                        deck2[i as int],
                    ));
                    deck2.subrange(0, i as int).lemma_filter_push(deck2[i as int], role_has_type(rt));
                }
            }
            i = i + 1;
        }
        proof {
            assert(deck2.subrange(0, deck2.len() as int) =~= deck2);
            assert(deck2.push(human_role) =~= shuffled);
            assert forall|rt: RoleType|
                count_where(players@, #[trigger] role_is(rt)) == dist.spec_count(rt) by {
                deck2.lemma_filter_push(human_role, role_has_type(rt));
                assert(count_where(shuffled, role_has_type(rt)) == count_where(
                    deck2,
                    role_has_type(rt),
                ) + if human_role.role_type == rt {
                    1int
                } else {
                    0int
                });
            }
            assert(ids_distinct(players@));
        }
        self.state.players = players;
        Ok(())
    }

    /// A read-only snapshot of the authoritative state.
    pub fn get_state(&self) -> (s: &GameState)
        ensures
            s == &self.state,
    {
        &self.state
    }

    /// Whether a live player with this id is on the roster.
    pub fn is_player_alive(&self, player_id: u64) -> (r: bool)
        ensures
            r == has_alive_id(self.state.players@, player_id),
    {
        let players = &self.state.players;
        let mut i: usize = 0;
        while i < players.len()
            invariant
                0 <= i <= players@.len(),
                players@ == self.state.players@,
                forall|j: int|
                    0 <= j < i ==> !((#[trigger] players@[j]).id == player_id
                        && players@[j].is_alive),
            decreases players@.len() - i,
        {
            if players[i].id == player_id && players[i].is_alive {
                proof {
                    assert(players@[i as int].id == player_id && players@[i as int].is_alive);
                }
                return true;
            }
            i = i + 1;
        }
        false
    }

    /// (Re)start the countdown for the current phase. Phases without a
    /// configured duration leave the countdown untouched.
    fn start_phase_timer(&mut self) -> (r: AppResult<()>)
        ensures
            r is Ok,
            final(self).state == (GameState {
                time_remaining: spec_timer_after(old(self).state, old(self).state.phase),
                ..old(self).state
            }),
    {
        let duration = match self.state.phase {
            GamePhase::DayDiscussion => self.state.game_config.discussion_time,
            GamePhase::Voting => self.state.game_config.voting_time,
            _ => 0,
        };
        if duration > 0 {
            self.state.time_remaining = Some(duration);
        }
        Ok(())
    }

    /// Start the game: requires a roster; moves to the first night.
    pub fn start_game(&mut self) -> (r: AppResult<()>)
        requires
            old(self).state.wf(),
        ensures
            final(self).state.wf(),
            old(self).state.players@.len() == 0 ==> r == Err::<(), AppError>(AppError::GameLogic(
                GameLogicError::NoPlayers,
            )) && final(self).state == old(self).state,
            old(self).state.players@.len() > 0 ==> r is Ok && final(self).state == (GameState {
                phase: GamePhase::Night,
                day: 1,
                ..old(self).state
            }),
    {
        if self.state.players.len() == 0 {
            return Err(AppError::GameLogic(GameLogicError::NoPlayers));
        }
        self.state.phase = GamePhase::Night;
        self.state.day = 1;
        let r = self.start_phase_timer();
        r
    }

    /// Record a vote. Valid only in the voting phase, by a live voter
    /// against a live target; a voter's later vote replaces the earlier one.
    pub fn vote(&mut self, voter_id: u64, target_id: u64) -> (r: AppResult<()>)
        requires
            old(self).state.wf(),
        ensures
            final(self).state.wf(),
            ({
                let s = old(self).state;
                if s.phase != GamePhase::Voting {
                    &&& r == Err::<(), AppError>(AppError::GameLogic(GameLogicError::NotVotingPhase))
                    &&& final(self).state == s
                } else if !has_alive_id(s.players@, voter_id) {
                    &&& r == Err::<(), AppError>(AppError::GameLogic(GameLogicError::VoterNotAlive))
                    &&& final(self).state == s
                } else if !has_alive_id(s.players@, target_id) {
                    &&& r == Err::<(), AppError>(AppError::GameLogic(GameLogicError::TargetNotAlive))
                    &&& final(self).state == s
                } else {
                    &&& r is Ok
                    &&& eq_except_votes(final(self).state, s)
                    &&& exists|ts: i64|
                        final(self).state.votes@ == spec_votes_after(
                            s.votes@,
                            voter_id,
                            target_id,
                            ts,
                        )
                }
            }),
    {
        if self.state.phase != GamePhase::Voting {
            return Err(AppError::GameLogic(GameLogicError::NotVotingPhase));
        }
        if !self.is_player_alive(voter_id) {
            return Err(AppError::GameLogic(GameLogicError::VoterNotAlive));
        }
        if !self.is_player_alive(target_id) {
            return Err(AppError::GameLogic(GameLogicError::TargetNotAlive));
        }
        let ghost pred = |v: VoteRecord| v.voter != voter_id;
        let ts = now_millis();
        let mut kept: Vec<VoteRecord> = Vec::new();
        let n = self.state.votes.len();
        let mut i: usize = 0;
        while i < n
            invariant
                0 <= i <= n,
                n == self.state.votes@.len(),
                self.state == old(self).state,
                kept@ == self.state.votes@.subrange(0, i as int).filter(pred),
                pred == (|v: VoteRecord| v.voter != voter_id),
            decreases n - i,
        {
            let ghost pre = self.state.votes@.subrange(0, i as int);
            let v = self.state.votes[i];
            proof {
                assert(self.state.votes@.subrange(0, i + 1) =~= pre.push(
                    self.state.votes@[i as int],
                ));
                pre.lemma_filter_push(self.state.votes@[i as int], pred);
            }
            if v.voter != voter_id {
                kept.push(v);
            }
            i = i + 1;
        }
        proof {
            assert(self.state.votes@.subrange(0, n as int) =~= self.state.votes@);
            lemma_filter_voters_distinct(self.state.votes@, pred);
        }
        let rec = VoteRecord { voter: voter_id, target: target_id, timestamp: ts };
        kept.push(rec);
        proof {
            let fseq = old(self).state.votes@.filter(pred);
            assert forall|k: int| 0 <= k < fseq.len() implies (#[trigger] fseq[k]).voter
                != voter_id by {
                old(self).state.votes@.lemma_filter_pred(pred, k);
            }
            assert(voters_distinct(fseq.push(rec)));
        }
        self.state.votes = kept;
        proof {
            assert(self.state.votes@ == spec_votes_after(
                old(self).state.votes@,
                voter_id,
                target_id,
                ts,
            ));
        }
        Ok(())
    }

    /// Remove a player from the live roster into the dead roster, flipping
    /// liveness. Absent ids leave the state unchanged.
    pub fn eliminate_player(&mut self, player_id: u64) -> (r: AppResult<()>)
        requires
            old(self).state.wf(),
        ensures
            final(self).state.wf(),
            r is Ok,
            elim_rel(
                old(self).state.players@,
                old(self).state.dead_players@,
                final(self).state.players@,
                final(self).state.dead_players@,
                player_id,
            ),
            !has_id(final(self).state.players@, player_id),
            has_id(old(self).state.players@, player_id) ==> {
                &&& final(self).state.dead_players@.len() == old(self).state.dead_players@.len()
                    + 1
                &&& final(self).state.dead_players@.last().id == player_id
                &&& !final(self).state.dead_players@.last().is_alive
                &&& forall|j: int|
                    0 <= j < old(self).state.dead_players@.len()
                        ==> (#[trigger] final(self).state.dead_players@[j]).id != player_id
            },
            final(self).state.votes == old(self).state.votes,
            final(self).state.phase == old(self).state.phase,
            final(self).state.day == old(self).state.day,
            final(self).state.game_config == old(self).state.game_config,
            final(self).state.winner == old(self).state.winner,
            final(self).state.current_speaker == old(self).state.current_speaker,
            final(self).state.time_remaining == old(self).state.time_remaining,
    {
        let idx = find_player_index(&self.state.players, player_id);
        match idx {
            None => {
                proof {
                    assert(!has_id(old(self).state.players@, player_id));
                }
                Ok(())
            },
            Some(k) => {
                let ghost pp = self.state.players@;
                let ghost pd = self.state.dead_players@;
                let mut p = self.state.players.remove(k);
                p.is_alive = false;
                self.state.dead_players.push(p);
                proof {
                    pp.remove_ensures(k as int);
                    assert(p == dead_of(pp[k as int]));
                    assert(has_id(pp, player_id));
                    assert(final(self).state.players@ == pp.remove(k as int));
                    assert(final(self).state.dead_players@ == pd.push(dead_of(pp[k as int])));
                    assert(elim_rel(
                        pp,
                        pd,
                        final(self).state.players@,
                        final(self).state.dead_players@,
                        player_id,
                    ));
                    let np = final(self).state.players@;
                    let nd = final(self).state.dead_players@;
                    assert forall|i: int| 0 <= i < np.len() implies (#[trigger] np[i]).id
                        != player_id && np[i].is_alive && player_wf(np[i]) by {
                        if i < k {
                            assert(np[i] == pp[i]);
                        } else {
                            assert(np[i] == pp[i + 1]);
                        }
                    }
                    assert(ids_distinct(np)) by {
                        assert forall|i: int, j: int| 0 <= i < j < np.len() implies (
                        #[trigger] np[i]).id != (#[trigger] np[j]).id by {
                            let oi = if i < k { i } else { i + 1 };
                            let oj = if j < k { j } else { j + 1 };
                            assert(np[i] == pp[oi]);
                            assert(np[j] == pp[oj]);
                        }
                    }
                    assert(ids_distinct(nd)) by {
                        assert forall|i: int, j: int| 0 <= i < j < nd.len() implies (
                        #[trigger] nd[i]).id != (#[trigger] nd[j]).id by {
                            if j == nd.len() - 1 {
                                assert(nd[i] == pd[i]);
                                assert(nd[j].id == pp[k as int].id);
                            } else {
                                assert(nd[i] == pd[i]);
                                assert(nd[j] == pd[j]);
                            }
                        }
                    }
                    assert(ids_disjoint(np, nd)) by {
                        assert forall|i: int, j: int|
                            0 <= i < np.len() && 0 <= j < nd.len() implies (#[trigger] np[i]).id
                            != (#[trigger] nd[j]).id by {
                            let oi = if i < k { i } else { i + 1 };
                            assert(np[i] == pp[oi]);
                            if j == nd.len() - 1 {
                                assert(nd[j].id == pp[k as int].id);
                            } else {
                                assert(nd[j] == pd[j]);
                            }
                        }
                    }
                }
                Ok(())
            },
        }
    }

    /// Evaluate the win rule against the live roster; on a decision, record
    /// the winner and end the game.
    pub fn check_game_end(&mut self) -> (r: AppResult<bool>)
        requires
            old(self).state.wf(),
        ensures
            final(self).state.wf(),
            r is Ok,
            win_checked_rel(old(self).state, final(self).state, r->Ok_0),
    {
        let wolves = count_alive_in_faction(&self.state.players, Faction::Werewolf);
        let villagers = count_alive_in_faction(&self.state.players, Faction::Villager);
        match check_win_condition(wolves, villagers) {
            Some(f) => {
                self.state.winner = Some(f);
                self.state.phase = GamePhase::GameOver;
                Ok(true)
            },
            None => Ok(false),
        }
    }

    /// Tally the pending votes, eliminate the plurality target, and clear
    /// the vote set.
    pub fn process_votes(&mut self) -> (r: AppResult<()>)
        requires
            old(self).state.wf(),
        ensures
            final(self).state.wf(),
            r is Ok,
            votes_resolved_rel(old(self).state, final(self).state),
    {
        let winner = find_plurality_winner(&self.state.votes);
        match winner {
            Some(w) => {
                let r = self.eliminate_player(w);
                self.state.votes = Vec::new();
                proof {
                    assert(final(self).state.votes@ =~= Seq::<VoteRecord>::empty());
                }
                Ok(())
            },
            None => {
                self.state.votes = Vec::new();
                proof {
                    assert(final(self).state.votes@ =~= Seq::<VoteRecord>::empty());
                }
                Ok(())
            },
        }
    }

    /// The sole phase-transition entry point.
    ///
    /// `Preparation` starts the game (an error on an empty roster);
    /// `Night` and `DayDiscussion` step forward and restart the timer;
    /// `Voting` resolves the votes, checks the win rule, and either ends
    /// the game or opens the next night; `LastWords` opens the next night;
    /// `GameOver` is a no-op.
    pub fn next_phase(&mut self) -> (r: AppResult<()>)
        requires
            old(self).state.wf(),
            old(self).state.day < u32::MAX,
        ensures
            final(self).state.wf(),
            ({
                let s = old(self).state;
                if s.phase is Preparation && s.players@.len() == 0 {
                    r == Err::<(), AppError>(AppError::GameLogic(GameLogicError::NoPlayers))
                        && final(self).state == s
                } else {
                    r is Ok && phase_stepped(s, final(self).state)
                }
            }),
    {
        match self.state.phase {
            GamePhase::Preparation => {
                let r = self.start_game();
                r
            },
            GamePhase::Night => {
                self.state.phase = GamePhase::DayDiscussion;
                let r = self.start_phase_timer();
                r
            },
            GamePhase::DayDiscussion => {
                self.state.phase = GamePhase::Voting;
                let r = self.start_phase_timer();
                r
            },
            GamePhase::Voting => {
                let r1 = self.process_votes();
                let ghost mid = self.state;
                let ended = self.check_game_end();
                match ended {
                    Ok(true) => Ok(()),
                    _ => {
                        self.state.phase = GamePhase::Night;
                        self.state.day = self.state.day + 1;
                        Ok(())
                    },
                }
            },
            GamePhase::LastWords => {
                self.state.phase = GamePhase::Night;
                self.state.day = self.state.day + 1;
                Ok(())
            },
            GamePhase::GameOver => Ok(()),
        }
    }

    /// Apply a night action: a kill eliminates its target; the other
    /// actions are recorded outcomes that do not change the roster.
    pub fn execute_night_action(&mut self, action: NightAction) -> (r: AppResult<()>)
        requires
            old(self).state.wf(),
        ensures
            final(self).state.wf(),
            r is Ok,
            night_action_applied(
                old(self).state.players@,
                old(self).state.dead_players@,
                final(self).state.players@,
                final(self).state.dead_players@,
                action,
            ),
            eq_except_roster(final(self).state, old(self).state),
    {
        match action.action {
            NightActionType::Kill => {
                match action.target {
                    Some(target_id) => {
                        let r = self.eliminate_player(target_id);
                        Ok(())
                    },
                    None => Ok(()),
                }
            },
            _ => Ok(()),
        }
    }

    /// Advance the countdown by the elapsed seconds; report whether the
    /// phase time ran out.
    pub fn update_timer(&mut self, elapsed: u32) -> (r: AppResult<bool>)
        ensures
            ({
                let s = old(self).state;
                match s.time_remaining {
                    Some(rem) => {
                        if elapsed >= rem {
                            r is Ok && r->Ok_0 == true && final(self).state == (GameState {
                                time_remaining: None,
                                ..s
                            })
                        } else {
                            r is Ok && r->Ok_0 == false && final(self).state == (GameState {
                                time_remaining: Some((rem - elapsed) as u32),
                                ..s
                            })
                        }
                    },
                    None => r is Ok && r->Ok_0 == false && final(self).state == s,
                }
            }),
    {
        match self.state.time_remaining {
            Some(rem) => {
                if elapsed >= rem {
                    self.state.time_remaining = None;
                    Ok(true)
                } else {
                    self.state.time_remaining = Some(rem - elapsed);
                    Ok(false)
                }
            },
            None => Ok(false),
        }
    }

    /// Resolve one night's collected actions together: protection and
    /// healing outrank a kill, nothing outranks a poison. Every victim
    /// moves, dead, to the dead roster in roster order.
    pub fn resolve_night_actions(&mut self, actions: &Vec<NightAction>) -> (r: AppResult<()>)
        requires
            old(self).state.wf(),
        ensures
            final(self).state.wf(),
            r is Ok,
            final(self).state.players@ == old(self).state.players@.filter(
                |p: Player| !night_victim(actions@, p.id),
            ),
            final(self).state.dead_players@ == old(self).state.dead_players@ + old(
                self,
            ).state.players@.filter(|p: Player| night_victim(actions@, p.id)).map_values(
                |p: Player| dead_of(p),
            ),
            eq_except_roster(final(self).state, old(self).state),
    {
        let ghost orig = old(self).state.players@;
        let ghost orig_dead = old(self).state.dead_players@;
        let ghost vic = |p: Player| night_victim(actions@, p.id);
        let ghost keep = |p: Player| !night_victim(actions@, p.id);
        let mut pending: Vec<Player> = Vec::new();
        core::mem::swap(&mut pending, &mut self.state.players);
        let mut survivors: Vec<Player> = Vec::new();
        proof {
            reveal(Seq::filter);
            assert(orig.subrange(0, 0) =~= Seq::<Player>::empty());
            assert(survivors@ == orig.subrange(0, 0).filter(keep));
            assert(self.state.dead_players@ =~= orig_dead + orig.subrange(0, 0).filter(
                vic,
            ).map_values(|p: Player| dead_of(p)));
        }
        let ghost mut k: int = 0;
        while pending.len() > 0
            invariant
                0 <= k <= orig.len(),
                pending@ == orig.subrange(k, orig.len() as int),
                survivors@ == orig.subrange(0, k).filter(keep),
                self.state.dead_players@ == orig_dead + orig.subrange(0, k).filter(
                    vic,
                ).map_values(|p: Player| dead_of(p)),
                vic == (|p: Player| night_victim(actions@, p.id)),
                keep == (|p: Player| !night_victim(actions@, p.id)),
                eq_except_roster(self.state, old(self).state),
                old(self).state.wf(),
                forall|i: int|
                    0 <= i < orig.len() ==> (#[trigger] orig[i]).is_alive && player_wf(orig[i]),
                ids_distinct(orig),
                ids_distinct(orig_dead),
                ids_disjoint(orig, orig_dead),
                forall|i: int|
                    0 <= i < self.state.dead_players@.len() ==> !(
                    #[trigger] self.state.dead_players@[i]).is_alive && player_wf(
                        self.state.dead_players@[i],
                    ),
            decreases pending@.len(),
        {
            let mut p = pending.remove(0);
            let ghost pre = orig.subrange(0, k);
            proof {
                assert(pending@ =~= orig.subrange(k + 1, orig.len() as int));
                assert(p == orig[k]);
                assert(pre.push(orig[k]) =~= orig.subrange(0, k + 1));
                pre.lemma_filter_push(orig[k], keep);
                pre.lemma_filter_push(orig[k], vic);
            }
            if is_night_victim(actions, p.id) {
                p.is_alive = false;
                self.state.dead_players.push(p);
                proof {
                    assert(p == dead_of(orig[k]));
                    assert(pre.filter(vic).push(orig[k]).map_values(|q: Player| dead_of(q))
                        =~= pre.filter(vic).map_values(|q: Player| dead_of(q)).push(
                        dead_of(orig[k]),
                    ));
                    assert(self.state.dead_players@ =~= orig_dead + orig.subrange(0, k
                        + 1).filter(vic).map_values(|q: Player| dead_of(q)));
                }
            } else {
                survivors.push(p);
            }
            proof {
                k = k + 1;
            }
        }
        proof {
            assert(orig.subrange(0, orig.len() as int) =~= orig);
        }
        self.state.players = survivors;
        proof {
            let np = final(self).state.players@;
            let nd = final(self).state.dead_players@;
            let dead_part = orig.filter(vic).map_values(|q: Player| dead_of(q));
            assert forall|i: int| 0 <= i < np.len() implies (#[trigger] np[i]).is_alive
                && player_wf(np[i]) by {
                orig.lemma_filter_pred(keep, i);
                orig.lemma_filter_contains_rev(keep, np[i]);
                let m = choose|m: int| 0 <= m < orig.len() && orig[m] == np[i];
            }
            lemma_filter_ids_distinct(orig, keep);
            lemma_filter_ids_distinct(orig, vic);
            assert(ids_distinct(np));
            assert forall|i: int, j: int| 0 <= i < j < nd.len() implies (#[trigger] nd[i]).id
                != (#[trigger] nd[j]).id by {
                if j >= orig_dead.len() {
                    let dj = j - orig_dead.len();
                    assert(nd[j] == dead_part[dj]);
                    assert(dead_part[dj] == dead_of(orig.filter(vic)[dj]));
                    if i >= orig_dead.len() {
                        let di = i - orig_dead.len();
                        assert(nd[i] == dead_part[di]);
                        assert(dead_part[di] == dead_of(orig.filter(vic)[di]));
                        assert(orig.filter(vic)[di].id != orig.filter(vic)[dj].id);
                    } else {
                        assert(nd[i] == orig_dead[i]);
                        let e = orig.filter(vic)[dj];
                        assert(orig.filter(vic).contains(e));
                        orig.lemma_filter_contains_rev(vic, e);
                        let m = choose|m: int| 0 <= m < orig.len() && orig[m] == e;
                        assert(orig[m].id != orig_dead[i].id);
                    }
                }
            }
            assert(ids_distinct(nd));
            assert forall|i: int, j: int|
                0 <= i < np.len() && 0 <= j < nd.len() implies (#[trigger] np[i]).id != (
            #[trigger] nd[j]).id by {
                let e = np[i];
                assert(np.contains(e));
                orig.lemma_filter_contains_rev(keep, e);
                orig.lemma_filter_pred(keep, i);
                let mi = choose|m: int| 0 <= m < orig.len() && orig[m] == e;
                if j >= orig_dead.len() {
                    let dj = j - orig_dead.len();
                    assert(nd[j] == dead_part[dj]);
                    assert(dead_part[dj] == dead_of(orig.filter(vic)[dj]));
                    let f = orig.filter(vic)[dj];
                    assert(orig.filter(vic).contains(f));
                    orig.lemma_filter_contains_rev(vic, f);
                    orig.lemma_filter_pred(vic, dj);
                    let mj = choose|m: int| 0 <= m < orig.len() && orig[m] == f;
                    if orig[mi].id == orig[mj].id {
                        assert(mi == mj);
                        assert(keep(orig[mi]) && vic(orig[mj]));
                    }
                } else {
                    assert(nd[j] == orig_dead[j]);
                    assert(orig[mi].id != orig_dead[j].id);
                }
            }
            assert(ids_disjoint(np, nd));
        }
        Ok(())
    }

    /// Accept a chat message. The engine keeps no transcript; the message
    /// is the persistence layer's concern, so the state is unchanged.
    pub fn add_chat_message(&mut self, message: ChatMessage) -> (r: AppResult<()>)
        ensures
            r is Ok,
            final(self).state == old(self).state,
    {
        let _ = message;
        Ok(())
    }
}

/// Some action of the given kind names `id` as its target.
pub open spec fn has_action(acts: Seq<NightAction>, kind: NightActionType, id: u64) -> bool {
    exists|i: int|
        0 <= i < acts.len() && (#[trigger] acts[i]).action == kind && acts[i].target == Some(id)
}

/// Whether the night's collected actions eliminate `id`: a kill that is
/// neither protected nor healed, or a poison. Protection and healing
/// outrank the kill; nothing outranks the poison.
pub open spec fn night_victim(acts: Seq<NightAction>, id: u64) -> bool {
    ||| (has_action(acts, NightActionType::Kill, id) && !has_action(
        acts,
        NightActionType::Protect,
        id,
    ) && !has_action(acts, NightActionType::Heal, id))
    ||| has_action(acts, NightActionType::Poison, id)
}

/// Whether some action of the given kind names `id`.
pub fn action_targets(actions: &Vec<NightAction>, kind: NightActionType, id: u64) -> (r: bool)
    ensures
        r == has_action(actions@, kind, id),
{
    let mut i: usize = 0;
    while i < actions.len()
        invariant
            0 <= i <= actions@.len(),
            forall|j: int|
                0 <= j < i ==> !((#[trigger] actions@[j]).action == kind && actions@[j].target
                    == Some(id)),
        decreases actions@.len() - i,
    {
        let a = &actions[i];
        let hits = match a.target {
            Some(t) => t == id && a.action == kind,
            None => false,
        };
        if hits {
            proof {
                assert(actions@[i as int].action == kind && actions@[i as int].target == Some(
                    id,
                ));
            }
            return true;
        }
        i = i + 1;
    }
    false
}

/// Whether the collected actions eliminate `id`.
pub fn is_night_victim(actions: &Vec<NightAction>, id: u64) -> (r: bool)
    ensures
        r == night_victim(actions@, id),
{
    let killed = action_targets(actions, NightActionType::Kill, id);
    let protected = action_targets(actions, NightActionType::Protect, id);
    let healed = action_targets(actions, NightActionType::Heal, id);
    let poisoned = action_targets(actions, NightActionType::Poison, id);
    (killed && !protected && !healed) || poisoned
}

/// Two states that agree on everything but the live and dead rosters.
pub open spec fn eq_except_roster(a: GameState, b: GameState) -> bool {
    &&& a.phase == b.phase
    &&& a.day == b.day
    &&& a.votes == b.votes
    &&& a.game_config == b.game_config
    &&& a.winner == b.winner
    &&& a.current_speaker == b.current_speaker
    &&& a.time_remaining == b.time_remaining
}

} // verus!
