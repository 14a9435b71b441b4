//! The retrying request executor. One logical request is a loop: check the
//! three retry budgets in a fixed order, dispatch, classify what came back,
//! and either finish, or back off and go round again. The whole decision
//! engine lives here on plain values; the transport collaborator only
//! supplies one [`TransportEvent`] per attempt and performs the sleeps.
//!
//! The loop is specified by a recursive model, [`spec_run_from`], over the
//! sequence of events the transport would hand back; [`execute_transcript`]
//! is the verified loop itself, run against a pre-recorded event sequence.

use vstd::prelude::*;
use crate::backoff::{backoff_delay_ms, spec_backoff, MAX_BACKOFF_EXPONENT};
use crate::config::{RetryConfig, RetryState};
use crate::error::{ApifyClientError, ErrorModel, FailureClass};
use crate::payload::{json_error_payload, parse_error_payload, payload_view};
use crate::request::{
    EventModel, HttpMethod, HttpResponse, Request, ResponseModel, TransportEvent, TransportFailure,
};
use crate::error::ApifyApiErrorRaw;

verus! {

/// What an HTTP status code means to the executor.
#[derive(Clone, Copy, Debug, PartialEq, Eq, Structural)]
pub enum StatusClass {
    /// Status below 300: hand the response to the caller.
    Success,
    /// Status 429: retry against the rate-limit budget.
    RateLimited,
    /// Status 500 and above: retry against the server-failure budget.
    ServerFailed,
    /// Status in [300, 500) other than 429: terminal, read the error payload.
    Terminal,
}

pub open spec fn spec_classify_status(status: u16) -> StatusClass {
    if status == 429 {
        StatusClass::RateLimited
    } else if status >= 500 {
        StatusClass::ServerFailed
    } else if status >= 300 {
        StatusClass::Terminal
    } else {
        StatusClass::Success
    }
}

pub fn classify_status(status: u16) -> (c: StatusClass)
    ensures
        c == spec_classify_status(status),
{
    if status == 429 {
        StatusClass::RateLimited
    } else if status >= 500 {
        StatusClass::ServerFailed
    } else if status >= 300 {
        StatusClass::Terminal
    } else {
        StatusClass::Success
    }
}

/// The counter a failure class drives.
pub open spec fn class_count(st: RetryState, class: FailureClass) -> u8 {
    match class {
        FailureClass::RateLimit => st.rate_limit_retries,
        FailureClass::ServerFailure => st.server_fail_retries,
        FailureClass::Timeout => st.timeout_retries,
    }
}

/// The budget a failure class is bounded by.
pub open spec fn class_max(cfg: RetryConfig, class: FailureClass) -> u8 {
    match class {
        FailureClass::RateLimit => cfg.max_rate_limit_retries,
        FailureClass::ServerFailure => cfg.max_server_fail_retries,
        FailureClass::Timeout => cfg.max_timeout_retries,
    }
}

/// The state after one more retry of the given class: exactly that class's
/// counter goes up by one.
pub open spec fn bump(st: RetryState, class: FailureClass) -> RetryState {
    match class {
        FailureClass::RateLimit => RetryState {
            rate_limit_retries: (st.rate_limit_retries + 1) as u8,
            server_fail_retries: st.server_fail_retries,
            timeout_retries: st.timeout_retries,
        },
        FailureClass::ServerFailure => RetryState {
            rate_limit_retries: st.rate_limit_retries,
            server_fail_retries: (st.server_fail_retries + 1) as u8,
            timeout_retries: st.timeout_retries,
        },
        FailureClass::Timeout => RetryState {
            rate_limit_retries: st.rate_limit_retries,
            server_fail_retries: st.server_fail_retries,
            timeout_retries: (st.timeout_retries + 1) as u8,
        },
    }
}

/// The budget check made before every attempt, in the fixed order rate
/// limit, then server failure, then timeout. The first counter at or above
/// its maximum decides; this order is the tie-break policy when several
/// budgets are exhausted at once.
pub open spec fn spec_check_budgets(st: RetryState, cfg: RetryConfig) -> Option<ApifyClientError> {
    if st.rate_limit_retries >= cfg.max_rate_limit_retries {
        Some(
            ApifyClientError::MaxRetriesReached(FailureClass::RateLimit, st.rate_limit_retries),
        )
    } else if st.server_fail_retries >= cfg.max_server_fail_retries {
        Some(
            ApifyClientError::MaxRetriesReached(
                FailureClass::ServerFailure,
                st.server_fail_retries,
            ),
        )
    } else if st.timeout_retries >= cfg.max_timeout_retries {
        Some(ApifyClientError::MaxRetriesReached(FailureClass::Timeout, st.timeout_retries))
    } else {
        None
    }
}

pub fn check_budgets(state: &RetryState, cfg: &RetryConfig) -> (r: Option<ApifyClientError>)
    ensures
        r == spec_check_budgets(*state, *cfg),
{
    if state.rate_limit_retries >= cfg.max_rate_limit_retries {
        Some(
            ApifyClientError::MaxRetriesReached(
                FailureClass::RateLimit,
                state.rate_limit_retries,
            ),
        )
    } else if state.server_fail_retries >= cfg.max_server_fail_retries {
        Some(
            ApifyClientError::MaxRetriesReached(
                FailureClass::ServerFailure,
                state.server_fail_retries,
            ),
        )
    } else if state.timeout_retries >= cfg.max_timeout_retries {
        Some(ApifyClientError::MaxRetriesReached(FailureClass::Timeout, state.timeout_retries))
    } else {
        None
    }
}

/// The terminal error for a non-retryable 3xx/4xx status, given what the
/// payload reader made of the body: 404 maps to `NotFound`, anything else to
/// `ApiError`, and an unreadable payload to `MalformedErrorPayload`.
pub open spec fn spec_classify_terminal(
    status: u16,
    payload: Option<(Seq<char>, Seq<char>)>,
) -> ErrorModel {
    match payload {
        None => ErrorModel::MalformedErrorPayload,
        Some(p) => if status == 404 {
            ErrorModel::NotFound(p.1)
        } else {
            ErrorModel::ApiError(p.0, p.1)
        },
    }
}

pub fn classify_terminal_response(status: u16, payload: Option<ApifyApiErrorRaw>) -> (e:
    ApifyClientError)
    ensures
        e@ == spec_classify_terminal(status, payload_view(payload)),
{
    match payload {
        None => ApifyClientError::MalformedErrorPayload,
        Some(raw) => {
            if status == 404 {
                ApifyClientError::NotFound(raw.message)
            } else {
                ApifyClientError::ApiError(raw.kind, raw.message)
            }
        },
    }
}

/// What the executor does with one transport event.
#[derive(Debug)]
pub enum Step {
    /// A successful response: hand it to the caller.
    Succeed(HttpResponse),
    /// A retryable failure of the given class: sleep for the given number of
    /// milliseconds if one is given, then go round the loop again. No delay
    /// is given when this failure has just exhausted its class's budget —
    /// the next budget check terminates at once, and sleeping before an
    /// error that is already certain would be wasted time.
    Backoff(FailureClass, Option<u64>),
    /// A terminal failure.
    Fail(ApifyClientError),
}

/// The mathematical value of a [`Step`].
pub enum StepModel {
    Succeed(ResponseModel),
    Backoff(FailureClass, Option<u64>),
    Fail(ErrorModel),
}

impl View for Step {
    type V = StepModel;

    open spec fn view(&self) -> StepModel {
        match self {
            Step::Succeed(resp) => StepModel::Succeed(resp@),
            Step::Backoff(class, delay) => StepModel::Backoff(*class, *delay),
            Step::Fail(e) => StepModel::Fail(e@),
        }
    }
}

/// One more retry of the given class: the class's counter goes up, and the
/// backoff delay is computed from the new count — but only while that count
/// is still below the class's maximum. A failure that exhausts its budget
/// is not slept for: the next budget check terminates at once, so the error
/// returns without a final wasted delay, whichever class ran out.
pub open spec fn spec_retry_step(
    st: RetryState,
    cfg: RetryConfig,
    class: FailureClass,
) -> (RetryState, StepModel) {
    let bumped = bump(st, class);
    if class_count(bumped, class) < class_max(cfg, class) {
        (
            bumped,
            StepModel::Backoff(
                class,
                Some(
                    spec_backoff(cfg.base_retry_delay_ms, class_count(bumped, class) as nat)
                        as u64,
                ),
            ),
        )
    } else {
        (bumped, StepModel::Backoff(class, None))
    }
}

/// The executor's whole per-event decision: the new retry state and the step
/// taken, for any event the transport can hand back.
pub open spec fn spec_on_event(
    st: RetryState,
    cfg: RetryConfig,
    ev: EventModel,
) -> (RetryState, StepModel) {
    match ev {
        EventModel::Response(resp) => match spec_classify_status(resp.status) {
            StatusClass::Success => (st, StepModel::Succeed(resp)),
            StatusClass::RateLimited => spec_retry_step(st, cfg, FailureClass::RateLimit),
            StatusClass::ServerFailed => spec_retry_step(st, cfg, FailureClass::ServerFailure),
            StatusClass::Terminal => (
                st,
                StepModel::Fail(
                    spec_classify_terminal(resp.status, json_error_payload(resp.body)),
                ),
            ),
        },
        EventModel::Timeout => spec_retry_step(st, cfg, FailureClass::Timeout),
        EventModel::Failed(detail) => (st, StepModel::Fail(ErrorModel::UnknownTransportError(detail))),
    }
}

/// Classify one transport event and update the matching counter. Must only
/// be called after [`check_budgets`] reported no exhausted budget, so every
/// incremented counter stays within its maximum.
pub fn on_transport_event(state: &mut RetryState, cfg: &RetryConfig, event: TransportEvent) -> (step:
    Step)
    requires
        cfg.valid(),
        spec_check_budgets(*old(state), *cfg) is None,
    ensures
        (*final(state), step@) == spec_on_event(*old(state), *cfg, event@),
        final(state).within(*cfg),
{
    match event {
        TransportEvent::Response(resp) => {
            match classify_status(resp.status) {
                StatusClass::Success => Step::Succeed(resp),
                StatusClass::RateLimited => {
                    state.rate_limit_retries = state.rate_limit_retries + 1;
                    if state.rate_limit_retries < cfg.max_rate_limit_retries {
                        let delay = backoff_delay_ms(
                            cfg.base_retry_delay_ms,
                            state.rate_limit_retries,
                        );
                        Step::Backoff(FailureClass::RateLimit, Some(delay))
                    } else {
                        Step::Backoff(FailureClass::RateLimit, None)
                    }
                },
                StatusClass::ServerFailed => {
                    state.server_fail_retries = state.server_fail_retries + 1;
                    if state.server_fail_retries < cfg.max_server_fail_retries {
                        let delay = backoff_delay_ms(
                            cfg.base_retry_delay_ms,
                            state.server_fail_retries,
                        );
                        Step::Backoff(FailureClass::ServerFailure, Some(delay))
                    } else {
                        Step::Backoff(FailureClass::ServerFailure, None)
                    }
                },
                StatusClass::Terminal => {
                    let payload = parse_error_payload(&resp.body);
                    Step::Fail(classify_terminal_response(resp.status, payload))
                },
            }
        },
        TransportEvent::Failure(TransportFailure::Timeout) => {
            state.timeout_retries = state.timeout_retries + 1;
            if state.timeout_retries < cfg.max_timeout_retries {
                let delay = backoff_delay_ms(cfg.base_retry_delay_ms, state.timeout_retries);
                Step::Backoff(FailureClass::Timeout, Some(delay))
            } else {
                Step::Backoff(FailureClass::Timeout, None)
            }
        },
        TransportEvent::Failure(TransportFailure::Other(detail)) => {
            Step::Fail(ApifyClientError::UnknownTransportError(detail))
        },
    }
}

/// How a run of the executor ended: `Pending` means the recorded event
/// sequence ran out before the loop did.
pub enum RunOutcomeModel {
    Pending,
    Success(ResponseModel),
    Failure(ErrorModel),
}

/// A whole run of the retry loop, as a mathematical value: its outcome, the
/// backoff delays slept in order, and the number of attempts dispatched.
pub struct RunModel {
    pub outcome: RunOutcomeModel,
    pub delays: Seq<u64>,
    pub attempts: nat,
}

/// The retry loop itself, as a recursive model over the events the
/// transport hands back: check the budgets in their fixed order, consume one
/// event, and either stop or back off and recurse.
pub open spec fn spec_run_from(
    cfg: RetryConfig,
    st: RetryState,
    events: Seq<EventModel>,
) -> RunModel
    decreases events.len(),
{
    if spec_check_budgets(st, cfg) is Some {
        RunModel {
            outcome: RunOutcomeModel::Failure((spec_check_budgets(st, cfg)->Some_0)@),
            delays: Seq::empty(),
            attempts: 0,
        }
    } else if events.len() == 0 {
        RunModel { outcome: RunOutcomeModel::Pending, delays: Seq::empty(), attempts: 0 }
    } else {
        let stepped = spec_on_event(st, cfg, events[0]);
        match stepped.1 {
            StepModel::Succeed(resp) => RunModel {
                outcome: RunOutcomeModel::Success(resp),
                delays: Seq::empty(),
                attempts: 1,
            },
            StepModel::Fail(e) => RunModel {
                outcome: RunOutcomeModel::Failure(e),
                delays: Seq::empty(),
                attempts: 1,
            },
            StepModel::Backoff(class, maybe_delay) => {
                let rest = spec_run_from(cfg, stepped.0, events.drop_first());
                RunModel {
                    outcome: rest.outcome,
                    delays: (match maybe_delay {
                        Some(delay) => seq![delay],
                        None => Seq::empty(),
                    }) + rest.delays,
                    attempts: rest.attempts + 1,
                }
            },
        }
    }
}

/// The views of a sequence of transport events.
pub open spec fn events_view(events: Seq<TransportEvent>) -> Seq<EventModel> {
    events.map_values(|e: TransportEvent| e@)
}

/// A whole logical request: an unsupported method is rejected before any
/// event is consumed; a supported one runs the retry loop from counters at
/// zero.
pub open spec fn spec_execute(
    method: HttpMethod,
    cfg: RetryConfig,
    events: Seq<EventModel>,
) -> RunModel {
    if !method.spec_is_supported() {
        RunModel {
            outcome: RunOutcomeModel::Failure(ErrorModel::UnsupportedMethod),
            delays: Seq::empty(),
            attempts: 0,
        }
    } else {
        spec_run_from(cfg, RetryState::spec_init(), events)
    }
}

/// What a run of [`execute_transcript`] reports: the result — `None` when
/// the recorded events ran out first — the backoff delays in order, and the
/// number of attempts dispatched.
#[derive(Debug)]
pub struct RunReport {
    pub result: Option<Result<HttpResponse, ApifyClientError>>,
    pub delays: Vec<u64>,
    pub attempts: usize,
}

impl View for RunReport {
    type V = RunModel;

    open spec fn view(&self) -> RunModel {
        RunModel {
            outcome: match self.result {
                None => RunOutcomeModel::Pending,
                Some(r) => match r {
                    Ok(resp) => RunOutcomeModel::Success(resp@),
                    Err(e) => RunOutcomeModel::Failure(e@),
                },
            },
            delays: self.delays@,
            attempts: self.attempts as nat,
        }
    }
}

/// Run the whole retry loop of one logical request against a pre-recorded
/// sequence of transport events, event `i` being the outcome of attempt
/// `i + 1`. This is the verified executor; a live transport produces the
/// same decisions by feeding [`check_budgets`] and [`on_transport_event`]
/// one attempt at a time.
#[verifier::loop_isolation(false)]
pub fn execute_transcript(request: &Request, cfg: &RetryConfig, events: Vec<TransportEvent>) -> (report:
    RunReport)
    requires
        cfg.valid(),
    ensures
        report@ == spec_execute(request.method, *cfg, events_view(events@)),
{
    let ghost full = events_view(events@);
    if !request.method.is_supported() {
        return RunReport {
            result: Some(Err(ApifyClientError::UnsupportedMethod)),
            delays: Vec::new(),
            attempts: 0,
        };
    }
    let ghost goal = spec_run_from(*cfg, RetryState::spec_init(), full);
    let mut remaining = events;
    let total = remaining.len();
    let mut state = RetryState::new();
    let mut delays: Vec<u64> = Vec::new();
    let mut attempts: usize = 0;
    proof {
        assert(full =~= events_view(remaining@));
        assert(goal.delays =~= delays@ + goal.delays);
    }
    loop
        invariant
            cfg.valid(),
            full.len() == total,
            attempts + remaining@.len() == full.len(),
            goal.outcome == spec_run_from(*cfg, state, events_view(remaining@)).outcome,
            goal.delays == delays@ + spec_run_from(*cfg, state, events_view(remaining@)).delays,
            goal.attempts == attempts + spec_run_from(
                *cfg,
                state,
                events_view(remaining@),
            ).attempts,
            goal == spec_execute(request.method, *cfg, full),
        decreases remaining@.len(),
    {
        let ghost cur = spec_run_from(*cfg, state, events_view(remaining@));
        if let Some(err) = check_budgets(&state, cfg) {
            proof {
                assert(goal.delays =~= delays@);
            }
            return RunReport { result: Some(Err(err)), delays, attempts };
        }
        if remaining.len() == 0 {
            proof {
                assert(events_view(remaining@).len() == 0);
                assert(goal.delays =~= delays@);
            }
            return RunReport { result: None, delays, attempts };
        }
        let ghost before = remaining@;
        let event = remaining.remove(0);
        proof {
            assert(events_view(before)[0] == event@);
            assert(events_view(remaining@) =~= events_view(before).drop_first());
        }
        let step = on_transport_event(&mut state, cfg, event);
        match step {
            Step::Succeed(resp) => {
                proof {
                    assert(goal.delays =~= delays@);
                }
                return RunReport { result: Some(Ok(resp)), delays, attempts: attempts + 1 };
            },
            Step::Fail(e) => {
                proof {
                    assert(goal.delays =~= delays@);
                }
                return RunReport { result: Some(Err(e)), delays, attempts: attempts + 1 };
            },
            Step::Backoff(_class, maybe_delay) => {
                let ghost rest = spec_run_from(*cfg, state, events_view(remaining@));
                match maybe_delay {
                    Some(delay) => {
                        proof {
                            assert(cur.delays =~= seq![delay] + rest.delays);
                            assert(delays@ + cur.delays =~= (delays@ + seq![delay]) + rest.delays);
                        }
                        delays.push(delay);
                    },
                    None => {
                        proof {
                            assert(cur.delays =~= rest.delays);
                        }
                    },
                }
                attempts = attempts + 1;
            },
        }
    }
}

} // verus!
