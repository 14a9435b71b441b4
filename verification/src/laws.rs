//! The executor's guarantees, stated and proved over the run model: each
//! retry budget bounds its own failure class, terminal conditions stop the
//! loop at once, and an unsupported method never reaches the transport.

use vstd::prelude::*;
use crate::backoff::spec_backoff;
use crate::config::{RetryConfig, RetryState};
use crate::error::{ErrorModel, FailureClass};
use crate::executor::{
    class_count, class_max, spec_check_budgets, spec_classify_terminal, spec_execute,
    spec_on_event, spec_run_from, RunModel, RunOutcomeModel,
};
use crate::payload::json_error_payload;
use crate::request::{EventModel, HttpMethod, ResponseModel};

verus! {

/// An event that the executor retries against the given class's budget: a
/// 429 response for the rate-limit class, a 5xx response for the
/// server-failure class, a transport timeout for the timeout class.
pub open spec fn retryable_event_of(class: FailureClass, ev: EventModel) -> bool {
    match class {
        FailureClass::RateLimit => ev matches EventModel::Response(r) && r.status == 429,
        FailureClass::ServerFailure => ev matches EventModel::Response(r) && r.status >= 500,
        FailureClass::Timeout => ev is Timeout,
    }
}

/// Induction step for budget exhaustion: from any state whose other two
/// counters are strictly under their maxima, a run fed only failures of one
/// class spends exactly the remainder of that class's budget, then fails
/// with that class's error. A backoff is slept after every such failure but
/// the last: the failure that exhausts the budget is followed by the error
/// at once, not by a delay.
proof fn lemma_uniform_run(
    cfg: RetryConfig,
    st: RetryState,
    events: Seq<EventModel>,
    class: FailureClass,
)
    requires
        cfg.valid(),
        class_count(st, class) <= class_max(cfg, class),
        class != FailureClass::RateLimit ==> st.rate_limit_retries < cfg.max_rate_limit_retries,
        class != FailureClass::ServerFailure ==> st.server_fail_retries
            < cfg.max_server_fail_retries,
        class != FailureClass::Timeout ==> st.timeout_retries < cfg.max_timeout_retries,
        events.len() + class_count(st, class) >= class_max(cfg, class),
        forall|i: int| 0 <= i < events.len() ==> retryable_event_of(class, #[trigger] events[i]),
    ensures
        spec_run_from(cfg, st, events).outcome == RunOutcomeModel::Failure(
            ErrorModel::MaxRetriesReached(class, class_max(cfg, class)),
        ),
        spec_run_from(cfg, st, events).attempts == class_max(cfg, class) - class_count(st, class),
        spec_run_from(cfg, st, events).delays.len() == (
        if class_count(st, class) < class_max(cfg, class) {
            class_max(cfg, class) - class_count(st, class) - 1
        } else {
            0int
        }),
        forall|j: int|
            0 <= j < spec_run_from(cfg, st, events).delays.len()
                ==> #[trigger] spec_run_from(cfg, st, events).delays[j] == spec_backoff(
                cfg.base_retry_delay_ms,
                (class_count(st, class) + 1 + j) as nat,
            ) as u64,
    decreases class_max(cfg, class) - class_count(st, class),
{
    if class_count(st, class) == class_max(cfg, class) {
        assert(spec_check_budgets(st, cfg) matches Some(e) && e@ == ErrorModel::MaxRetriesReached(
            class,
            class_max(cfg, class),
        ));
    } else {
        assert(events.len() > 0);
        assert(retryable_event_of(class, events[0]));
        let rest = events.drop_first();
        assert(forall|i: int|
            0 <= i < rest.len() ==> retryable_event_of(class, #[trigger] rest[i]));
        lemma_uniform_run(cfg, crate::executor::bump(st, class), rest, class);
    }
}

/// A request whose every attempt fails with the same retryable class is
/// retried exactly that class's configured maximum number of times, and
/// then fails with `MaxRetriesReached` carrying that class and that
/// maximum, whatever the other two budgets are. The exponential delays
/// `base * 2^1` up to `base * 2^(max-1)` are slept in order between the
/// attempts; the final failure, which exhausts the budget, is followed by
/// the error at once, with no delay. In particular a request that always
/// returns 429 exhausts the rate-limit budget, one that always returns a
/// 5xx status the server-failure budget, and one whose transport always
/// times out the timeout budget.
pub proof fn lemma_persistent_failure_exhausts_budget(
    cfg: RetryConfig,
    events: Seq<EventModel>,
    class: FailureClass,
)
    requires
        cfg.valid(),
        events.len() >= class_max(cfg, class),
        forall|i: int| 0 <= i < events.len() ==> retryable_event_of(class, #[trigger] events[i]),
    ensures
        spec_run_from(cfg, RetryState::spec_init(), events).outcome == RunOutcomeModel::Failure(
            ErrorModel::MaxRetriesReached(class, class_max(cfg, class)),
        ),
        spec_run_from(cfg, RetryState::spec_init(), events).attempts == class_max(cfg, class),
        spec_run_from(cfg, RetryState::spec_init(), events).delays.len() == class_max(cfg, class)
            - 1,
        forall|j: int|
            0 <= j < spec_run_from(cfg, RetryState::spec_init(), events).delays.len()
                ==> #[trigger] spec_run_from(cfg, RetryState::spec_init(), events).delays[j]
                == spec_backoff(cfg.base_retry_delay_ms, (j + 1) as nat) as u64,
{
    lemma_uniform_run(cfg, RetryState::spec_init(), events, class);
}

/// The three counters are independent: one transport event moves exactly
/// the counter of its own failure class, by one, and leaves the other two
/// untouched — whichever classes' failures interleave, each budget is spent
/// only by its own class.
pub proof fn lemma_counters_move_independently(
    st: RetryState,
    cfg: RetryConfig,
    ev: EventModel,
    class: FailureClass,
)
    requires
        cfg.valid(),
        st.within(cfg),
    ensures
        class_count(spec_on_event(st, cfg, ev).0, class) == class_count(st, class) + (
        if retryable_event_of(class, ev) {
            1int
        } else {
            0int
        }),
{
}

/// Induction for the attempt bound: every dispatched attempt either ends
/// the run or lowers the combined slack of the three budgets by one.
proof fn lemma_run_attempts_bound(cfg: RetryConfig, st: RetryState, events: Seq<EventModel>)
    requires
        cfg.valid(),
        st.within(cfg),
    ensures
        spec_run_from(cfg, st, events).attempts <= 1 + (cfg.max_rate_limit_retries
            - st.rate_limit_retries) + (cfg.max_server_fail_retries - st.server_fail_retries) + (
        cfg.max_timeout_retries - st.timeout_retries),
    decreases events.len(),
{
    if spec_check_budgets(st, cfg) is None && events.len() > 0 {
        let stepped = spec_on_event(st, cfg, events[0]);
        if stepped.1 is Backoff {
            lemma_run_attempts_bound(cfg, stepped.0, events.drop_first());
        }
    }
}

/// However the failure classes interleave, every attempt is dispatched with
/// all three counters strictly below their maxima, so one logical request
/// makes at most `maxRateLimitRetries + maxServerFailRetries +
/// maxTimeoutRetries` retryable attempts plus one final attempt: the retry
/// loop always ends, whatever the transport answers.
pub proof fn lemma_attempts_are_bounded(cfg: RetryConfig, events: Seq<EventModel>)
    requires
        cfg.valid(),
    ensures
        spec_run_from(cfg, RetryState::spec_init(), events).attempts <= 1
            + cfg.max_rate_limit_retries + cfg.max_server_fail_retries + cfg.max_timeout_retries,
{
    lemma_run_attempts_bound(cfg, RetryState::spec_init(), events);
}

/// A first response with a non-retryable 3xx/4xx status ends the run after
/// that single attempt, with no backoff: 404 with a readable payload maps to
/// `NotFound` carrying the payload's message, any other such status to
/// `ApiError` carrying the payload's kind and message, and an unreadable
/// payload to `MalformedErrorPayload`.
pub proof fn lemma_terminal_response_never_retried(
    cfg: RetryConfig,
    events: Seq<EventModel>,
    status: u16,
    body: Seq<u8>,
)
    requires
        cfg.valid(),
        events.len() >= 1,
        events[0] == EventModel::Response(ResponseModel { status, body }),
        300 <= status < 500,
        status != 429,
    ensures
        spec_run_from(cfg, RetryState::spec_init(), events) == (RunModel {
            outcome: RunOutcomeModel::Failure(
                spec_classify_terminal(status, json_error_payload(body)),
            ),
            delays: Seq::<u64>::empty(),
            attempts: 1,
        }),
        json_error_payload(body) is Some && status == 404 ==> spec_run_from(
            cfg,
            RetryState::spec_init(),
            events,
        ).outcome == RunOutcomeModel::Failure(
            ErrorModel::NotFound((json_error_payload(body)->Some_0).1),
        ),
        json_error_payload(body) is None ==> spec_run_from(
            cfg,
            RetryState::spec_init(),
            events,
        ).outcome == RunOutcomeModel::Failure(ErrorModel::MalformedErrorPayload),
{
}

/// A run whose first two events are 429 responses and whose third is a
/// successful response returns that response after exactly three attempts,
/// and exactly two backoff delays were slept: `base * 2` and `base * 4`
/// milliseconds.
pub proof fn lemma_success_after_two_rate_limits(
    cfg: RetryConfig,
    events: Seq<EventModel>,
    resp: ResponseModel,
)
    requires
        cfg.valid(),
        cfg.max_rate_limit_retries > 2,
        events.len() == 3,
        retryable_event_of(FailureClass::RateLimit, events[0]),
        retryable_event_of(FailureClass::RateLimit, events[1]),
        events[2] == EventModel::Response(resp),
        resp.status < 300,
    ensures
        spec_run_from(cfg, RetryState::spec_init(), events).outcome == RunOutcomeModel::Success(
            resp,
        ),
        spec_run_from(cfg, RetryState::spec_init(), events).attempts == 3,
        spec_run_from(cfg, RetryState::spec_init(), events).delays == seq![
            spec_backoff(cfg.base_retry_delay_ms, 1) as u64,
            spec_backoff(cfg.base_retry_delay_ms, 2) as u64,
        ],
{
    let st0 = RetryState::spec_init();
    let e1 = events.drop_first();
    let e2 = e1.drop_first();
    assert(e1[0] == events[1]);
    assert(e2[0] == events[2]);
    assert(e2.len() == 1);
    let s1 = crate::executor::bump(st0, FailureClass::RateLimit);
    let s2 = crate::executor::bump(s1, FailureClass::RateLimit);
    let d1 = spec_backoff(cfg.base_retry_delay_ms, 1) as u64;
    let d2 = spec_backoff(cfg.base_retry_delay_ms, 2) as u64;
    let r2 = spec_run_from(cfg, s2, e2);
    let r1 = spec_run_from(cfg, s1, e1);
    let r0 = spec_run_from(cfg, st0, events);
    assert(spec_check_budgets(st0, cfg) is None);
    assert(spec_check_budgets(s1, cfg) is None);
    assert(spec_check_budgets(s2, cfg) is None);
    assert(r2.outcome == RunOutcomeModel::Success(resp));
    assert(r2.attempts == 1);
    assert(r2.delays =~= Seq::<u64>::empty());
    assert(events[1] matches EventModel::Response(r) && r.status == 429);
    assert(r1.outcome == r2.outcome);
    assert(r1.attempts == 2);
    assert(r1.delays =~= seq![d2]);
    assert(events[0] matches EventModel::Response(r) && r.status == 429);
    assert(r0.outcome == r1.outcome);
    assert(r0.attempts == 3);
    assert(r0.delays =~= seq![d1] + r1.delays);
    assert(r0.delays =~= seq![d1, d2]);
}

/// A request to an unsupported method is rejected with `UnsupportedMethod`
/// before any attempt is dispatched: no event is consumed and no delay is
/// slept, whatever the transport would have answered.
pub proof fn lemma_unsupported_method_never_dispatches(
    method: HttpMethod,
    cfg: RetryConfig,
    events: Seq<EventModel>,
)
    requires
        !method.spec_is_supported(),
    ensures
        spec_execute(method, cfg, events) == (RunModel {
            outcome: RunOutcomeModel::Failure(ErrorModel::UnsupportedMethod),
            delays: Seq::<u64>::empty(),
            attempts: 0,
        }),
{
}

} // verus!
