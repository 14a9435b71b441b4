//! Retry configuration and per-request retry state.
//!
//! A `RetryConfig` is immutable and client-wide; a `RetryState` lives for one
//! logical request and holds three independent counters, one per failure
//! class. No counter is shared across logical requests.

use vstd::prelude::*;
use crate::backoff::MAX_BACKOFF_EXPONENT;

verus! {

pub const DEFAULT_MAX_RATE_LIMIT_RETRIES: u8 = 8;
pub const DEFAULT_MAX_SERVER_FAIL_RETRIES: u8 = 8;
pub const DEFAULT_MAX_TIMEOUT_RETRIES: u8 = 5;
pub const DEFAULT_BASE_RETRY_DELAY_MS: u32 = 500;

/// Client-wide retry settings: one budget per failure class and the base
/// delay that the exponential backoff schedule starts from.
#[derive(Clone, Copy, Debug)]
pub struct RetryConfig {
    pub max_rate_limit_retries: u8,
    pub max_server_fail_retries: u8,
    pub max_timeout_retries: u8,
    pub base_retry_delay_ms: u32,
}

impl RetryConfig {
    /// Every budget is a small positive integer. The upper bound is the
    /// machine limit of the backoff calculator: for an attempt count up to
    /// [`MAX_BACKOFF_EXPONENT`] the computed delay always fits in a `u64`.
    pub open spec fn valid(self) -> bool {
        &&& 1 <= self.max_rate_limit_retries <= MAX_BACKOFF_EXPONENT
        &&& 1 <= self.max_server_fail_retries <= MAX_BACKOFF_EXPONENT
        &&& 1 <= self.max_timeout_retries <= MAX_BACKOFF_EXPONENT
    }

    /// The stated default settings: budgets of 8, 8 and 5 retries, starting
    /// from a 500 ms base delay.
    pub open spec fn spec_default() -> RetryConfig {
        RetryConfig {
            max_rate_limit_retries: DEFAULT_MAX_RATE_LIMIT_RETRIES,
            max_server_fail_retries: DEFAULT_MAX_SERVER_FAIL_RETRIES,
            max_timeout_retries: DEFAULT_MAX_TIMEOUT_RETRIES,
            base_retry_delay_ms: DEFAULT_BASE_RETRY_DELAY_MS,
        }
    }
}

impl Default for RetryConfig {
    fn default() -> (c: Self)
        ensures
            c == RetryConfig::spec_default(),
            c.valid(),
    {
        RetryConfig {
            max_rate_limit_retries: DEFAULT_MAX_RATE_LIMIT_RETRIES,
            max_server_fail_retries: DEFAULT_MAX_SERVER_FAIL_RETRIES,
            max_timeout_retries: DEFAULT_MAX_TIMEOUT_RETRIES,
            base_retry_delay_ms: DEFAULT_BASE_RETRY_DELAY_MS,
        }
    }
}

/// The three retry counters of one logical request. Each starts at zero and
/// is incremented only on its matching failure class.
#[derive(Clone, Copy, Debug)]
pub struct RetryState {
    pub rate_limit_retries: u8,
    pub server_fail_retries: u8,
    pub timeout_retries: u8,
}

impl RetryState {
    /// The state every logical request starts from: all counters at zero.
    pub open spec fn spec_init() -> RetryState {
        RetryState { rate_limit_retries: 0, server_fail_retries: 0, timeout_retries: 0 }
    }

    /// No counter has run past its configured maximum.
    pub open spec fn within(self, cfg: RetryConfig) -> bool {
        &&& self.rate_limit_retries <= cfg.max_rate_limit_retries
        &&& self.server_fail_retries <= cfg.max_server_fail_retries
        &&& self.timeout_retries <= cfg.max_timeout_retries
    }

    pub fn new() -> (s: RetryState)
        ensures
            s == RetryState::spec_init(),
    {
        RetryState { rate_limit_retries: 0, server_fail_retries: 0, timeout_retries: 0 }
    }
}

} // verus!
