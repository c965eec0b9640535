//! The orchestrator around the engine: it owns the single game, relays
//! votes, advances phases when every live player has voted, and applies a
//! simple heuristic night action per eligible computer player when no
//! text-generation reply is available. Calls to the external
//! text-generation service themselves live outside the library; replies
//! come back through `jsontext::parse_night_action_response`.
use vstd::prelude::*;
use crate::error::{AppError, AppResult, GameLogicError};
use crate::game::{
    GameEngine, eq_except_roster, eq_except_votes, night_action_applied, phase_stepped,
    spec_votes_after,
};
use crate::roles::RoleType;
use crate::seq_util::count_where;
use crate::strategy::{collect_alive_others, pick_random_id, spec_alive_other};
use crate::types::{
    GameConfig, GamePhase, GameState, NightAction, NightActionType, Player, player_wf, traits_wf,
};

verus! {

/// How many players on the roster are alive.
pub open spec fn spec_alive_count(players: Seq<Player>) -> int {
    count_where(players, |p: Player| p.is_alive)
}

/// Count the live players.
pub fn count_alive(players: &Vec<Player>) -> (n: usize)
    ensures
        n == spec_alive_count(players@),
{
    let ghost pred = |p: Player| p.is_alive;
    let mut n: usize = 0;
    let mut i: usize = 0;
    while i < players.len()
        invariant
            0 <= i <= players@.len(),
            n == count_where(players@.subrange(0, i as int), pred),
            n <= i,
            pred == (|p: Player| p.is_alive),
        decreases players@.len() - i,
    {
        let ghost pre = players@.subrange(0, i as int);
        proof {
            assert(players@.subrange(0, i + 1) =~= pre.push(players@[i as int]));
            pre.lemma_filter_push(players@[i as int], pred);
            pre.lemma_filter_len(pred);
        }
        if players[i].is_alive {
            n = n + 1;
        }
        i = i + 1;
    }
    proof {
        assert(players@.subrange(0, players@.len() as int) =~= players@);
    }
    n
}

/// The heuristic night action used when the external service gives none:
/// a role-appropriate action against a uniformly random live player other
/// than the actor. Roles without a simple action yield nothing.
pub open spec fn simple_action_post(state: GameState, p: Player, r: Option<NightAction>) -> bool {
    if !(exists|id: u64| spec_alive_other(state, id, p.id)) {
        r is None
    } else {
        match p.role.role_type {
            RoleType::Werewolf | RoleType::Seer | RoleType::Guard => r matches Some(a)
                && a.player == p.id && a.action == (match p.role.role_type {
                RoleType::Werewolf => NightActionType::Kill,
                RoleType::Seer => NightActionType::Check,
                _ => NightActionType::Protect,
            }) && (a.target matches Some(t) && spec_alive_other(state, t, p.id)),
            _ => r is None,
        }
    }
}

/// Choose the heuristic night action for one player.
pub fn generate_simple_night_action(player: &Player, state: &GameState) -> (r: Option<
    NightAction,
>)
    ensures
        simple_action_post(*state, *player, r),
{
    let candidates = collect_alive_others(state, player.id);
    if candidates.len() == 0 {
        return None;
    }
    let action_type = match player.role.role_type {
        RoleType::Werewolf => NightActionType::Kill,
        RoleType::Seer => NightActionType::Check,
        RoleType::Guard => NightActionType::Protect,
        _ => {
            return None;
        },
    };
    match pick_random_id(&candidates) {
        Some(t) => Some(
            NightAction { player: player.id, action: action_type, target: Some(t) },
        ),
        None => None,
    }
}

/// One night's actions applied in order: no actions leave the rosters
/// unchanged; otherwise the leading actions step them and the last action
/// steps the result.
pub open spec fn kills_applied(
    pp: Seq<Player>,
    pd: Seq<Player>,
    fp: Seq<Player>,
    fd: Seq<Player>,
    actions: Seq<NightAction>,
) -> bool
    decreases actions.len(),
{
    if actions.len() == 0 {
        fp == pp && fd == pd
    } else {
        exists|mp: Seq<Player>, md: Seq<Player>|
            #![trigger night_action_applied(mp, md, fp, fd, actions.last())]
            kills_applied(pp, pd, mp, md, actions.drop_last()) && night_action_applied(
                mp,
                md,
                fp,
                fd,
                actions.last(),
            )
    }
}

/// The action is the heuristic choice of some live computer player of
/// `mid` whose role has a night action.
pub open spec fn action_from_roster(mid: GameState, a: NightAction) -> bool {
    exists|k: int|
        0 <= k < mid.players@.len() && (#[trigger] mid.players@[k]).is_alive
            && mid.players@[k].is_ai && mid.players@[k].role.has_night_action
            && simple_action_post(mid, mid.players@[k], Some(a))
}

/// A heuristic night round from state `mid`: some sequence of actions —
/// each the heuristic choice of a live computer player of `mid` whose
/// role has a night action — applied in order, yields the final rosters.
pub open spec fn heuristic_night_round(mid: GameState, fp: Seq<Player>, fd: Seq<Player>) -> bool {
    exists|actions: Seq<NightAction>|
        #![trigger kills_applied(mid.players@, mid.dead_players@, fp, fd, actions)]
        (forall|t: int|
            #![trigger actions[t]]
            0 <= t < actions.len() ==> action_from_roster(mid, actions[t])) && kills_applied(
            mid.players@,
            mid.dead_players@,
            fp,
            fd,
            actions,
        )
}

/// What one successful advance of the orchestrator does: the phase
/// machine steps once; a step into night additionally applies one
/// heuristic night round to the rosters and changes nothing else.
pub open spec fn advanced_rel(pre: GameState, post: GameState) -> bool {
    exists|mid: GameState|
        #![auto]
        phase_stepped(pre, mid) && if mid.phase is Night {
            eq_except_roster(post, mid) && heuristic_night_round(mid, post.players@, post.dead_players@)
        } else {
            post == mid
        }
}

/// The game manager: owns at most one running game.
pub struct GameManager {
    pub engine: Option<GameEngine>,
    pub is_running: bool,
}

impl GameManager {
    /// The owned engine, when present, is well formed.
    pub open spec fn wf(self) -> bool {
        self.engine matches Some(e) ==> e.state.wf()
    }

    /// A fresh manager with no game.
    pub fn new() -> (r: GameManager)
        ensures
            r.engine is None,
            !r.is_running,
            r.wf(),
    {
        GameManager { engine: None, is_running: false }
    }

    /// Create and initialize a new game from a configuration. Rejected
    /// when the configuration names zero players.
    pub fn create_game(&mut self, config: GameConfig) -> (r: AppResult<()>)
        requires
            old(self).wf(),
        ensures
            final(self).wf(),
            config.total_players == 0 ==> r == Err::<(), AppError>(AppError::GameLogic(
                GameLogicError::NoPlayersConfigured,
            )) && *final(self) == *old(self),
            config.total_players > 0 ==> {
                &&& r is Ok
                &&& !final(self).is_running
                &&& final(self).engine matches Some(e) && {
                    let d = crate::roles::spec_role_distribution(config.total_players);
                    &&& e.state.phase == GamePhase::Preparation
                    &&& e.state.day == 0
                    &&& e.state.players@.len() == d.spec_total()
                    &&& config.total_players >= 2 ==> e.state.players@.len()
                        == config.total_players
                    &&& forall|rt: RoleType|
                        crate::game::count_role(e.state.players@, rt) == d.spec_count(rt)
                    &&& e.state.votes@.len() == 0
                    &&& e.state.dead_players@.len() == 0
                    &&& e.state.winner is None
                    &&& e.state.players@.len() > 0
                    &&& e.state.players@[0].is_ai == false
                    &&& e.state.players@[0].personality is None
                    &&& forall|k: int|
                        0 <= k < e.state.players@.len() ==> (#[trigger] e.state.players@[k]).id
                            == k as u64 && e.state.players@[k].is_alive && player_wf(
                            e.state.players@[k],
                        ) && (k >= 1 ==> e.state.players@[k].is_ai)
                    &&& forall|k: int|
                        1 <= k < e.state.players@.len() ==> ((
                        #[trigger] e.state.players@[k]).personality matches Some(pp) && traits_wf(
                            pp.traits,
                        ))
                }
            },
    {
        let engine_r = GameEngine::new(config);
        let mut engine = match engine_r {
            Ok(e) => e,
            Err(e) => {
                return Err(e);
            },
        };
        match engine.initialize_game() {
            Ok(_) => {},
            Err(e) => {
                return Err(e);
            },
        }
        self.engine = Some(engine);
        self.is_running = false;
        Ok(())
    }

    /// Start the owned game.
    pub fn start_game(&mut self) -> (r: AppResult<()>)
        requires
            old(self).wf(),
        ensures
            final(self).wf(),
            old(self).engine is None ==> r == Err::<(), AppError>(AppError::GameLogic(
                GameLogicError::GameNotCreated,
            )) && *final(self) == *old(self),
            old(self).engine matches Some(e) ==> {
                if e.state.players@.len() == 0 {
                    r == Err::<(), AppError>(AppError::GameLogic(GameLogicError::NoPlayers))
                        && final(self).engine == old(self).engine && final(self).is_running == old(
                        self,
                    ).is_running
                } else {
                    &&& r is Ok
                    &&& final(self).is_running
                    &&& final(self).engine matches Some(e2) && e2.state == (GameState {
                        phase: GamePhase::Night,
                        day: 1,
                        ..e.state
                    })
                }
            },
    {
        match &mut self.engine {
            Some(engine) => {
                let r = engine.start_game();
                match r {
                    Ok(_) => {
                        self.is_running = true;
                        Ok(())
                    },
                    Err(e) => Err(e),
                }
            },
            None => Err(AppError::GameLogic(GameLogicError::GameNotCreated)),
        }
    }

    /// Drop the owned game.
    pub fn end_game(&mut self) -> (r: AppResult<()>)
        ensures
            r is Ok,
            final(self).engine is None,
            !final(self).is_running,
            final(self).wf(),
    {
        self.engine = None;
        self.is_running = false;
        Ok(())
    }

    /// A read-only snapshot of the owned game's state.
    pub fn get_game_state(&self) -> (r: Option<&GameState>)
        ensures
            (r is Some) == (self.engine is Some),
            r matches Some(s) ==> self.engine matches Some(e) && s == &e.state,
    {
        match &self.engine {
            Some(engine) => Some(engine.get_state()),
            None => None,
        }
    }

    /// Whether the game is running.
    pub fn is_game_running(&self) -> (r: bool)
        ensures
            r == self.is_running,
    {
        self.is_running
    }

    /// Whether every live player has a pending vote.
    pub fn all_players_voted(&self) -> (r: bool)
        ensures
            match self.engine {
                Some(e) => r == (e.state.votes@.len() >= spec_alive_count(e.state.players@)),
                None => !r,
            },
    {
        match &self.engine {
            Some(engine) => {
                let state = engine.get_state();
                let alive = count_alive(&state.players);
                state.votes.len() >= alive
            },
            None => false,
        }
    }

    /// Record one player's vote; when it completes the round, resolve the
    /// phase at once rather than waiting out the timer.
    ///
    /// On a valid vote the engine's pending votes become exactly the old
    /// ones with the voter's earlier vote replaced; while some live player
    /// still has no pending vote nothing else moves, and once every live
    /// player has one the state advances by the phase machine's relation.
    pub fn player_vote(&mut self, voter_id: u64, target_id: u64) -> (r: AppResult<()>)
        requires
            old(self).wf(),
            old(self).engine matches Some(e) ==> e.state.day < u32::MAX,
        ensures
            final(self).wf(),
            old(self).engine is None ==> r == Err::<(), AppError>(AppError::GameLogic(
                GameLogicError::GameNotCreated,
            )) && *final(self) == *old(self),
            final(self).engine is Some == old(self).engine is Some,
            old(self).engine matches Some(e) ==> ({
                let s = e.state;
                if s.phase != GamePhase::Voting {
                    r == Err::<(), AppError>(AppError::GameLogic(GameLogicError::NotVotingPhase))
                        && *final(self) == *old(self)
                } else if !crate::game::has_alive_id(s.players@, voter_id) {
                    r == Err::<(), AppError>(AppError::GameLogic(GameLogicError::VoterNotAlive))
                        && *final(self) == *old(self)
                } else if !crate::game::has_alive_id(s.players@, target_id) {
                    r == Err::<(), AppError>(AppError::GameLogic(GameLogicError::TargetNotAlive))
                        && *final(self) == *old(self)
                } else {
                    &&& r is Ok
                    &&& final(self).is_running == old(self).is_running
                    &&& exists|ve: GameState, ts: i64|
                        #![auto]
                        eq_except_votes(ve, s) && ve.votes@ == spec_votes_after(
                            s.votes@,
                            voter_id,
                            target_id,
                            ts,
                        ) && if ve.votes@.len() < spec_alive_count(ve.players@) {
                            final(self).engine matches Some(e2) && e2.state == ve
                        } else {
                            final(self).engine matches Some(e2) && advanced_rel(ve, e2.state)
                        }
                }
            }),
    {
        match &mut self.engine {
            Some(engine) => {
                let vr = engine.vote(voter_id, target_id);
                match vr {
                    Ok(_) => {},
                    Err(e) => {
                        return Err(e);
                    },
                }
            },
            None => {
                return Err(AppError::GameLogic(GameLogicError::GameNotCreated));
            },
        }
        let ghost ve: GameState = self.engine->0.state;
        let ghost ts: i64 = choose|ts: i64|
            ve.votes@ == spec_votes_after(
                old(self).engine->0.state.votes@,
                voter_id,
                target_id,
                ts,
            );
        if self.all_players_voted() {
            let r = self.proceed_to_next_phase();
            proof {
                let post = self.engine->0.state;
                assert(advanced_rel(ve, post));
                assert(eq_except_votes(ve, old(self).engine->0.state) && ve.votes@
                    == spec_votes_after(
                    old(self).engine->0.state.votes@,
                    voter_id,
                    target_id,
                    ts,
                ) && !(ve.votes@.len() < spec_alive_count(ve.players@)));
            }
            r
        } else {
            proof {
                assert(eq_except_votes(ve, old(self).engine->0.state) && ve.votes@
                    == spec_votes_after(
                    old(self).engine->0.state.votes@,
                    voter_id,
                    target_id,
                    ts,
                ) && ve.votes@.len() < spec_alive_count(ve.players@));
            }
            Ok(())
        }
    }

    /// Advance the phase; on entering a night, apply the heuristic night
    /// action of every live computer player with one. On success the
    /// engine steps by the phase machine's relation, followed on a new
    /// night by one heuristic night round over the rosters.
    pub fn proceed_to_next_phase(&mut self) -> (r: AppResult<()>)
        requires
            old(self).wf(),
            old(self).engine matches Some(e) ==> e.state.day < u32::MAX,
        ensures
            final(self).wf(),
            old(self).engine is None ==> r == Err::<(), AppError>(AppError::GameLogic(
                GameLogicError::GameNotCreated,
            )) && *final(self) == *old(self),
            final(self).engine is Some == old(self).engine is Some,
            old(self).engine matches Some(e) ==> ({
                if e.state.phase is Preparation && e.state.players@.len() == 0 {
                    r == Err::<(), AppError>(AppError::GameLogic(GameLogicError::NoPlayers))
                        && *final(self) == *old(self)
                } else {
                    &&& r is Ok
                    &&& final(self).is_running == old(self).is_running
                    &&& final(self).engine matches Some(e2) && advanced_rel(e.state, e2.state)
                }
            }),
    {
        match &mut self.engine {
            Some(engine) => {
                let nr = engine.next_phase();
                match nr {
                    Ok(_) => {},
                    Err(e) => {
                        return Err(e);
                    },
                }
            },
            None => {
                return Err(AppError::GameLogic(GameLogicError::GameNotCreated));
            },
        }
        let ghost stepped: GameState = self.engine->0.state;
        let is_night = match &self.engine {
            Some(engine) => engine.get_state().phase == GamePhase::Night,
            None => false,
        };
        if is_night {
            let r = self.execute_night_actions();
            proof {
                let post = self.engine->0.state;
                assert(eq_except_roster(post, stepped) && heuristic_night_round(
                    stepped,
                    post.players@,
                    post.dead_players@,
                ));
                assert(advanced_rel(old(self).engine->0.state, post));
            }
            r
        } else {
            proof {
                assert(advanced_rel(old(self).engine->0.state, stepped));
            }
            Ok(())
        }
    }

    /// Apply the heuristic night action of every live computer player
    /// whose role has one, sequentially in roster order: the rosters end
    /// as one heuristic night round leaves them, and nothing else moves.
    fn execute_night_actions(&mut self) -> (r: AppResult<()>)
        requires
            old(self).wf(),
        ensures
            final(self).wf(),
            r is Ok,
            final(self).engine is Some == old(self).engine is Some,
            final(self).is_running == old(self).is_running,
            old(self).engine is None ==> *final(self) == *old(self),
            old(self).engine matches Some(e) ==> final(self).engine matches Some(e2)
                && eq_except_roster(e2.state, e.state) && heuristic_night_round(
                e.state,
                e2.state.players@,
                e2.state.dead_players@,
            ),
    {
        let ghost mid: GameState = if self.engine is Some {
            self.engine->0.state
        } else {
            old(self).engine->0.state
        };
        let mut actions: Vec<NightAction> = Vec::new();
        match &self.engine {
            Some(engine) => {
                let state = engine.get_state();
                let n = state.players.len();
                let mut i: usize = 0;
                while i < n
                    invariant
                        0 <= i <= n,
                        n == state.players@.len(),
                        *state == mid,
                        forall|t: int|
                            #![trigger actions@[t]]
                            0 <= t < actions@.len() ==> action_from_roster(mid, actions@[t]),
                    decreases n - i,
                {
                    let p = &state.players[i];
                    if p.is_alive && p.is_ai && p.role.has_night_action {
                        match generate_simple_night_action(p, state) {
                            Some(a) => {
                                let ghost pre_actions = actions@;
                                actions.push(a);
                                proof {
                                    assert(simple_action_post(
                                        mid,
                                        mid.players@[i as int],
                                        Some(a),
                                    ));
                                    assert(action_from_roster(mid, a));
                                    assert forall|t: int|
                                        #![trigger actions@[t]]
                                        0 <= t < actions@.len() implies action_from_roster(
                                        mid,
                                        actions@[t],
                                    ) by {
                                        if t < pre_actions.len() {
                                            assert(actions@[t] == pre_actions[t]);
                                            assert(action_from_roster(mid, pre_actions[t]));
                                        } else {
                                            assert(actions@[t] == a);
                                        }
                                    }
                                }
                            },
                            None => {},
                        }
                    }
                    i = i + 1;
                }
            },
            None => {
                return Ok(());
            },
        }
        match &mut self.engine {
            Some(engine) => {
                proof {
                    assert(engine.state == mid);
                    assert(actions@.subrange(0, 0) =~= Seq::<NightAction>::empty());
                }
                let m = actions.len();
                let mut j: usize = 0;
                while j < m
                    invariant
                        0 <= j <= m,
                        m == actions@.len(),
                        engine.state.wf(),
                        eq_except_roster(engine.state, mid),
                        kills_applied(
                            mid.players@,
                            mid.dead_players@,
                            engine.state.players@,
                            engine.state.dead_players@,
                            actions@.subrange(0, j as int),
                        ),
                    decreases m - j,
                {
                    let a = actions[j];
                    let ghost cur = engine.state;
                    let _ = engine.execute_night_action(a);
                    proof {
                        assert(actions@.subrange(0, j + 1).drop_last() =~= actions@.subrange(
                            0,
                            j as int,
                        ));
                        assert(actions@.subrange(0, j + 1).last() == a);
                        assert(night_action_applied(
                            cur.players@,
                            cur.dead_players@,
                            engine.state.players@,
                            engine.state.dead_players@,
                            actions@.subrange(0, j + 1).last(),
                        ));
                        assert(kills_applied(
                            mid.players@,
                            mid.dead_players@,
                            engine.state.players@,
                            engine.state.dead_players@,
                            actions@.subrange(0, j + 1),
                        ));
                    }
                    j = j + 1;
                }
                proof {
                    assert(actions@.subrange(0, m as int) =~= actions@);
                    assert(kills_applied(
                        mid.players@,
                        mid.dead_players@,
                        engine.state.players@,
                        engine.state.dead_players@,
                        actions@,
                    ));
                    assert(heuristic_night_round(
                        mid,
                        engine.state.players@,
                        engine.state.dead_players@,
                    ));
                }
                Ok(())
            },
            None => Ok(()),
        }
    }
}

} // verus!
