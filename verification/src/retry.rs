//! The retry and fallback policy for calls to the external
//! text-generation service, as a pure decision machine: the application
//! performs the calls and sleeps; this module decides what to do after
//! each outcome. The primary endpoint gets bounded exponential-backoff
//! retries, then each fallback endpoint is tried once; the first success
//! ends the call.
use vstd::prelude::*;

verus! {

/// Retry parameters: attempt bound, base delay, and delay cap.
#[derive(Debug, Clone, Copy, PartialEq, Eq, Structural)]
pub struct RetryConfig {
    pub max_attempts: u32,
    pub base_delay_ms: u64,
    pub max_delay_ms: u64,
}

/// A usable configuration: at least one attempt, a positive base delay no
/// greater than the cap, and a cap that can still be doubled in 64 bits.
pub open spec fn retry_config_wf(cfg: RetryConfig) -> bool {
    &&& cfg.max_attempts >= 1
    &&& 0 < cfg.base_delay_ms <= cfg.max_delay_ms
    &&& cfg.max_delay_ms <= 0x7FFF_FFFF_FFFF_FFFF
}

impl Default for RetryConfig {
    /// Three attempts, one second base delay, thirty seconds cap.
    fn default() -> (r: RetryConfig)
        ensures
            r.max_attempts == 3,
            r.base_delay_ms == 1000,
            r.max_delay_ms == 30000,
            retry_config_wf(r),
    {
        RetryConfig { max_attempts: 3, base_delay_ms: 1000, max_delay_ms: 30000 }
    }
}

/// Two to the `k`.
pub open spec fn spec_pow2(k: nat) -> int
    decreases k,
{
    if k == 0 {
        1
    } else {
        2 * spec_pow2((k - 1) as nat)
    }
}

/// The delay before the next try of attempt `attempt`: the base delay,
/// doubled per attempt, capped at the configured maximum.
pub open spec fn spec_backoff_delay(cfg: RetryConfig, attempt: u32) -> int
    recommends
        attempt >= 1,
{
    let raw = cfg.base_delay_ms * spec_pow2((attempt - 1) as nat);
    if raw > cfg.max_delay_ms {
        cfg.max_delay_ms as int
    } else {
        raw
    }
}

/// Compute the capped exponential backoff delay.
pub fn backoff_delay(cfg: &RetryConfig, attempt: u32) -> (d: u64)
    requires
        retry_config_wf(*cfg),
        attempt >= 1,
    ensures
        d == spec_backoff_delay(*cfg, attempt),
        d <= cfg.max_delay_ms,
{
    let mut d: u64 = cfg.base_delay_ms;
    let mut k: u32 = 1;
    proof {
        assert(spec_pow2(0) == 1);
        assert(cfg.base_delay_ms * spec_pow2(0) == cfg.base_delay_ms);
        assert(d == spec_backoff_delay(*cfg, 1));
        if d == cfg.max_delay_ms {
            assert forall|k2: u32| 1 <= k2 implies spec_backoff_delay(*cfg, k2)
                == cfg.max_delay_ms by {
                lemma_pow2_mono(0, (k2 - 1) as nat);
                assert(cfg.base_delay_ms * spec_pow2((k2 - 1) as nat) >= cfg.base_delay_ms)
                    by (nonlinear_arith)
                    requires
                        spec_pow2((k2 - 1) as nat) >= 1,
                        cfg.base_delay_ms > 0,
                ;
            }
        }
    }
    while k < attempt && d < cfg.max_delay_ms
        invariant
            1 <= k <= attempt,
            retry_config_wf(*cfg),
            d == spec_backoff_delay(*cfg, k),
            d <= cfg.max_delay_ms,
            d < cfg.max_delay_ms ==> d == cfg.base_delay_ms * spec_pow2((k - 1) as nat),
            d == cfg.max_delay_ms ==> forall|k2: u32|
                k <= k2 ==> spec_backoff_delay(*cfg, k2) == cfg.max_delay_ms,
        decreases attempt - k,
    {
        let ghost oldd = d;
        let doubled: u64 = d * 2;
        d = if doubled > cfg.max_delay_ms {
            cfg.max_delay_ms
        } else {
            doubled
        };
        proof {
            assert(oldd * 2 == cfg.base_delay_ms * spec_pow2(k as nat)) by (nonlinear_arith)
                requires
                    oldd == cfg.base_delay_ms * spec_pow2((k - 1) as nat),
                    spec_pow2(k as nat) == 2 * spec_pow2((k - 1) as nat),
            ;
            if d == cfg.max_delay_ms {
                assert forall|k2: u32| k + 1 <= k2 implies spec_backoff_delay(*cfg, k2)
                    == cfg.max_delay_ms by {
                    lemma_pow2_mono((k) as nat, (k2 - 1) as nat);
                    assert(cfg.base_delay_ms * spec_pow2((k2 - 1) as nat) >= cfg.base_delay_ms
                        * spec_pow2(k as nat)) by (nonlinear_arith)
                        requires
                            spec_pow2((k2 - 1) as nat) >= spec_pow2(k as nat),
                            cfg.base_delay_ms > 0,
                    ;
                }
            }
        }
        k = k + 1;
    }
    d
}

/// Doubling never shrinks: the powers of two are monotone.
proof fn lemma_pow2_mono(a: nat, b: nat)
    requires
        a <= b,
    ensures
        spec_pow2(a) <= spec_pow2(b),
        spec_pow2(a) >= 1,
    decreases b,
{
    if a < b {
        lemma_pow2_mono(a, (b - 1) as nat);
    } else if a == b && b > 0 {
        lemma_pow2_mono((a - 1) as nat, (b - 1) as nat);
    }
}

/// Where a call stands: which endpoint is being tried (0 is the primary,
/// `1..=n` the fallbacks) and which attempt is next on it.
#[derive(Debug, Clone, Copy, PartialEq, Eq, Structural)]
pub struct CallPlanState {
    pub endpoint: u32,
    pub attempt: u32,
}

/// The outcome of one call to an endpoint.
#[derive(Debug, Clone, Copy, PartialEq, Eq, Structural)]
pub enum CallOutcome {
    Success,
    Failure,
}

/// What the caller must do next.
#[derive(Debug, Clone, Copy, PartialEq, Eq, Structural)]
pub enum NextStep {
    /// The call succeeded; stop.
    Done,
    /// Sleep this many milliseconds, then retry the same endpoint.
    RetryAfter(u64),
    /// Move on to the next configured endpoint.
    AdvanceEndpoint,
    /// Every endpoint is exhausted; substitute the heuristic fallback.
    GiveUp,
}

/// How many calls the plan may still make from this state.
pub open spec fn spec_calls_left(cfg: RetryConfig, n_fallbacks: u32, st: CallPlanState) -> int {
    let here = if st.endpoint == 0 && st.attempt <= cfg.max_attempts {
        cfg.max_attempts - st.attempt
    } else {
        0int
    };
    let rest = if st.endpoint <= n_fallbacks {
        n_fallbacks - st.endpoint
    } else {
        0int
    };
    here + rest
}

/// Advance the retry plan by one observed outcome. Success ends the call;
/// a failure on the primary endpoint retries it with exponential backoff
/// up to the attempt bound; after that, each fallback endpoint is tried
/// once; when none is left the caller must fall back to a heuristic. The
/// number of calls left strictly decreases until the plan stops.
pub fn retry_next(
    cfg: &RetryConfig,
    n_fallbacks: u32,
    st: CallPlanState,
    outcome: CallOutcome,
) -> (r: (NextStep, CallPlanState))
    requires
        retry_config_wf(*cfg),
        st.attempt >= 1,
    ensures
        r.1.attempt >= 1,
        outcome is Success ==> r.0 == NextStep::Done && r.1 == st,
        outcome is Failure ==> {
            if st.endpoint == 0 && st.attempt < cfg.max_attempts {
                r.0 == NextStep::RetryAfter(spec_backoff_delay(*cfg, st.attempt) as u64) && r.1
                    == (CallPlanState { endpoint: 0, attempt: (st.attempt + 1) as u32 })
            } else if st.endpoint < n_fallbacks {
                r.0 == NextStep::AdvanceEndpoint && r.1 == (CallPlanState {
                    endpoint: (st.endpoint + 1) as u32,
                    attempt: 1,
                })
            } else {
                r.0 == NextStep::GiveUp && r.1 == st
            }
        },
        (r.0 is RetryAfter || r.0 is AdvanceEndpoint) ==> spec_calls_left(*cfg, n_fallbacks, r.1)
            < spec_calls_left(*cfg, n_fallbacks, st),
{
    match outcome {
        CallOutcome::Success => (NextStep::Done, st),
        CallOutcome::Failure => {
            if st.endpoint == 0 && st.attempt < cfg.max_attempts {
                let delay = backoff_delay(cfg, st.attempt);
                (
                    NextStep::RetryAfter(delay),
                    CallPlanState { endpoint: 0, attempt: st.attempt + 1 },
                )
            } else if st.endpoint < n_fallbacks {
                (NextStep::AdvanceEndpoint, CallPlanState { endpoint: st.endpoint + 1, attempt: 1 })
            } else {
                (NextStep::GiveUp, st)
            }
        },
    }
}

} // verus!
