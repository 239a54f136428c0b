use vstd::prelude::*;
use crate::types::Address;

verus! {

/// Failures of payout operations, grouped by code range: 1xx transient, 2xx permanent,
/// 3xx batch outcomes, 4xx states of the recovery machinery.
#[derive(Clone, Copy, Debug, PartialEq, Eq, Structural)]
pub enum RecoveryError {
    NetworkTimeout,
    TemporaryUnavailable,
    RateLimitExceeded,
    ResourceExhausted,
    InsufficientFunds,
    InvalidRecipient,
    Unauthorized,
    InvalidAmount,
    ProgramNotFound,
    PartialBatchFailure,
    AllBatchItemsFailed,
    BatchSizeMismatch,
    MaxRetriesExceeded,
    RecoveryInProgress,
    CircuitBreakerOpen,
    InvalidRetryConfig,
}

/// The numeric code of each recovery error.
pub open spec fn recovery_code(e: RecoveryError) -> u32 {
    match e {
        RecoveryError::NetworkTimeout => 100,
        RecoveryError::TemporaryUnavailable => 101,
        RecoveryError::RateLimitExceeded => 102,
        RecoveryError::ResourceExhausted => 103,
        RecoveryError::InsufficientFunds => 200,
        RecoveryError::InvalidRecipient => 201,
        RecoveryError::Unauthorized => 202,
        RecoveryError::InvalidAmount => 203,
        RecoveryError::ProgramNotFound => 204,
        RecoveryError::PartialBatchFailure => 300,
        RecoveryError::AllBatchItemsFailed => 301,
        RecoveryError::BatchSizeMismatch => 302,
        RecoveryError::MaxRetriesExceeded => 400,
        RecoveryError::RecoveryInProgress => 401,
        RecoveryError::CircuitBreakerOpen => 402,
        RecoveryError::InvalidRetryConfig => 403,
    }
}

impl RecoveryError {
    /// The numeric code of the error.
    pub fn code(&self) -> (r: u32)
        ensures
            r == recovery_code(*self),
    {
        match self {
            RecoveryError::NetworkTimeout => 100,
            RecoveryError::TemporaryUnavailable => 101,
            RecoveryError::RateLimitExceeded => 102,
            RecoveryError::ResourceExhausted => 103,
            RecoveryError::InsufficientFunds => 200,
            RecoveryError::InvalidRecipient => 201,
            RecoveryError::Unauthorized => 202,
            RecoveryError::InvalidAmount => 203,
            RecoveryError::ProgramNotFound => 204,
            RecoveryError::PartialBatchFailure => 300,
            RecoveryError::AllBatchItemsFailed => 301,
            RecoveryError::BatchSizeMismatch => 302,
            RecoveryError::MaxRetriesExceeded => 400,
            RecoveryError::RecoveryInProgress => 401,
            RecoveryError::CircuitBreakerOpen => 402,
            RecoveryError::InvalidRetryConfig => 403,
        }
    }
}

/// Whether an error is worth retrying.
#[derive(Clone, Copy, Debug, PartialEq, Eq, Structural)]
pub enum ErrorClass {
    /// May succeed on a retry.
    Transient,
    /// Will fail again.
    Permanent,
    /// A batch that partly failed.
    Partial,
}

/// The class of each error: the network and capacity errors are transient, the batch
/// outcomes partial, everything else permanent.
pub open spec fn class_of(error: RecoveryError) -> ErrorClass {
    match error {
        RecoveryError::NetworkTimeout | RecoveryError::TemporaryUnavailable
        | RecoveryError::RateLimitExceeded | RecoveryError::ResourceExhausted => ErrorClass::Transient,
        RecoveryError::PartialBatchFailure | RecoveryError::AllBatchItemsFailed
        | RecoveryError::BatchSizeMismatch => ErrorClass::Partial,
        _ => ErrorClass::Permanent,
    }
}

/// Classifies an error as transient, permanent or partial.
pub fn classify_error(error: RecoveryError) -> (r: ErrorClass)
    ensures
        r == class_of(error),
{
    match error {
        RecoveryError::NetworkTimeout
        | RecoveryError::TemporaryUnavailable
        | RecoveryError::RateLimitExceeded
        | RecoveryError::ResourceExhausted => ErrorClass::Transient,
        RecoveryError::InsufficientFunds
        | RecoveryError::InvalidRecipient
        | RecoveryError::Unauthorized
        | RecoveryError::InvalidAmount
        | RecoveryError::ProgramNotFound => ErrorClass::Permanent,
        RecoveryError::PartialBatchFailure
        | RecoveryError::AllBatchItemsFailed
        | RecoveryError::BatchSizeMismatch => ErrorClass::Partial,
        RecoveryError::MaxRetriesExceeded
        | RecoveryError::RecoveryInProgress
        | RecoveryError::CircuitBreakerOpen
        | RecoveryError::InvalidRetryConfig => ErrorClass::Permanent,
    }
}

/// What to do about a failed operation.
#[derive(Clone, Copy, Debug, PartialEq, Eq, Structural)]
pub enum RecoveryStrategy {
    AutoRetry,
    ManualRetry,
    Skip,
    Abort,
}

/// Transient errors are retried automatically; all others wait for a manual retry.
pub fn determine_recovery_strategy(error: RecoveryError) -> (r: RecoveryStrategy)
    ensures
        r == (if class_of(error) is Transient {
            RecoveryStrategy::AutoRetry
        } else {
            RecoveryStrategy::ManualRetry
        }),
{
    match classify_error(error) {
        ErrorClass::Transient => RecoveryStrategy::AutoRetry,
        ErrorClass::Permanent => RecoveryStrategy::ManualRetry,
        ErrorClass::Partial => RecoveryStrategy::ManualRetry,
    }
}

/// Settings of an exponential backoff.
#[derive(Clone, Copy, Debug, PartialEq, Eq, Structural)]
pub struct RetryConfig {
    pub max_attempts: u32,
    pub initial_delay_ms: u64,
    pub max_delay_ms: u64,
    pub backoff_multiplier: u32,
    /// Spread of the delay, in percent of it.
    pub jitter_percent: u32,
}

impl RetryConfig {
    /// Three attempts from 100 ms, doubling, capped at 5 s, 20% jitter.
    pub fn default() -> (r: RetryConfig)
        ensures
            r == (RetryConfig { max_attempts: 3, initial_delay_ms: 100, max_delay_ms: 5000, backoff_multiplier: 2, jitter_percent: 20 }),
    {
        RetryConfig {
            max_attempts: 3,
            initial_delay_ms: 100,
            max_delay_ms: 5000,
            backoff_multiplier: 2,
            jitter_percent: 20,
        }
    }

    /// Five attempts from 50 ms, doubling, capped at 3 s, 15% jitter.
    pub fn aggressive() -> (r: RetryConfig)
        ensures
            r == (RetryConfig { max_attempts: 5, initial_delay_ms: 50, max_delay_ms: 3000, backoff_multiplier: 2, jitter_percent: 15 }),
    {
        RetryConfig {
            max_attempts: 5,
            initial_delay_ms: 50,
            max_delay_ms: 3000,
            backoff_multiplier: 2,
            jitter_percent: 15,
        }
    }

    /// Two attempts from 200 ms, tripling, capped at 10 s, 25% jitter.
    pub fn conservative() -> (r: RetryConfig)
        ensures
            r == (RetryConfig { max_attempts: 2, initial_delay_ms: 200, max_delay_ms: 10000, backoff_multiplier: 3, jitter_percent: 25 }),
    {
        RetryConfig {
            max_attempts: 2,
            initial_delay_ms: 200,
            max_delay_ms: 10000,
            backoff_multiplier: 3,
            jitter_percent: 25,
        }
    }
}

/// `b` to the power `e`.
pub open spec fn pow(b: int, e: nat) -> int
    decreases e,
{
    if e == 0 {
        1
    } else {
        b * pow(b, (e - 1) as nat)
    }
}

/// The delay before retry number `attempt`, before jitter: the initial delay times the
/// multiplier to the power `attempt` (saturating), capped at the maximum delay.
pub open spec fn capped_delay(c: RetryConfig, attempt: u32) -> int {
    let base = c.initial_delay_ms * pow(c.backoff_multiplier as int, attempt as nat);
    let sat = if base > u64::MAX {
        u64::MAX as int
    } else {
        base
    };
    if sat < c.max_delay_ms {
        sat
    } else {
        c.max_delay_ms as int
    }
}

/// The width of the jitter around the capped delay.
pub open spec fn jitter_range(c: RetryConfig, attempt: u32) -> int {
    capped_delay(c, attempt) * c.jitter_percent / 100
}

/// The delay before retry number `attempt`, with the jitter drawn from `seed`.
pub open spec fn backoff_delay(c: RetryConfig, attempt: u32, seed: u64) -> int {
    let d = capped_delay(c, attempt);
    let r = jitter_range(c, attempt);
    if r > 0 {
        let m = (seed as int) % (2 * r);
        let offset = if m > r {
            m - r
        } else {
            0
        };
        if d + offset > u64::MAX {
            u64::MAX as int
        } else {
            d + offset
        }
    } else {
        d
    }
}

/// Powers of a positive base grow with the exponent.
proof fn lemma_pow_monotone(b: int, i: nat, n: nat)
    requires
        b >= 1,
        i <= n,
    ensures
        1 <= pow(b, i) <= pow(b, n),
    decreases n,
{
    if n > 0 {
        let m = (n - 1) as nat;
        lemma_pow_monotone(b, if i < n { i } else { m }, m);
        assert(1 <= pow(b, m) <= b * pow(b, m)) by (nonlinear_arith)
            requires
                b >= 1,
                pow(b, m) >= 1,
        ;
    }
}

/// Powers of zero are zero past the first.
proof fn lemma_pow_zero(n: nat)
    requires
        n >= 1,
    ensures
        pow(0, n) == 0,
{
}

/// The delay before retry number `attempt`, with exponential growth, a cap, and a
/// jitter drawn from `seed` (the ledger time, in the contract) to spread retries.
pub fn calculate_backoff_delay(config: &RetryConfig, attempt: u32, seed: u64) -> (r: u64)
    requires
        pow(config.backoff_multiplier as int, attempt as nat) <= u32::MAX,
        capped_delay(*config, attempt) * config.jitter_percent <= u64::MAX,
        2 * jitter_range(*config, attempt) <= u64::MAX,
    ensures
        r == backoff_delay(*config, attempt, seed),
{
    let b = config.backoff_multiplier;
    let mut power: u32 = 1;
    let mut i: u32 = 0;
    while i < attempt
        invariant
            i <= attempt,
            power == pow(b as int, i as nat),
            pow(b as int, attempt as nat) <= u32::MAX,
        decreases attempt - i,
    {
        proof {
            if b >= 1 {
                lemma_pow_monotone(b as int, (i + 1) as nat, attempt as nat);
            } else {
                lemma_pow_zero((i + 1) as nat);
            }
        }
        assert(power * b == pow(b as int, (i + 1) as nat)) by (nonlinear_arith)
            requires
                power == pow(b as int, i as nat),
                pow(b as int, (i + 1) as nat) == b * pow(b as int, i as nat),
        ;
        power = power * b;
        i += 1;
    }
    let base = match config.initial_delay_ms.checked_mul(power as u64) {
        Some(x) => x,
        None => u64::MAX,
    };
    let capped = if base < config.max_delay_ms {
        base
    } else {
        config.max_delay_ms
    };
    let range = (capped * config.jitter_percent as u64) / 100;
    if range > 0 {
        let offset = (seed % (range * 2)).saturating_sub(range);
        capped.saturating_add(offset)
    } else {
        capped
    }
}

/// What is kept of a failed operation while it may still be recovered.
#[derive(Clone, Copy, Debug, PartialEq, Eq, Structural)]
pub struct ErrorState {
    pub operation_id: u64,
    /// The code of the [`RecoveryError`].
    pub error_type: u32,
    pub retry_count: u32,
    pub last_retry_timestamp: u64,
    pub first_error_timestamp: u64,
    /// Whether the error is transient.
    pub can_recover: bool,
    pub caller: Address,
}

/// The record of a first failure of `operation_id` with `error` at `now`.
pub fn create_error_state(operation_id: u64, error: RecoveryError, caller: Address, now: u64) -> (r: ErrorState)
    ensures
        r.operation_id == operation_id,
        r.error_type == recovery_code(error),
        r.retry_count == 0,
        r.last_retry_timestamp == now,
        r.first_error_timestamp == now,
        r.can_recover == (class_of(error) is Transient),
        r.caller == caller,
{
    let can_recover = match classify_error(error) {
        ErrorClass::Transient => true,
        _ => false,
    };
    ErrorState {
        operation_id,
        error_type: error.code(),
        retry_count: 0,
        last_retry_timestamp: now,
        first_error_timestamp: now,
        can_recover,
        caller,
    }
}

/// The three states of a circuit breaker.
#[derive(Clone, Copy, Debug, PartialEq, Eq, Structural)]
pub enum CircuitState {
    /// Requests pass.
    Closed,
    /// Requests are refused until the timeout has passed.
    Open,
    /// Trial requests pass; enough successes close the circuit, one failure opens it.
    HalfOpen,
}

/// Stops calling a failing service for a while after repeated failures.
#[derive(Clone, Copy, Debug, PartialEq, Eq, Structural)]
pub struct CircuitBreaker {
    pub state: CircuitState,
    /// Failures while closed; successes still owed while half-open.
    pub failure_count: u32,
    pub failure_threshold: u32,
    pub success_threshold: u32,
    pub timeout_duration: u64,
    pub last_failure_time: u64,
    pub last_state_change: u64,
}

/// `a - b`, or zero where that is negative.
pub open spec fn sat_sub(a: int, b: int) -> int {
    if a < b {
        0
    } else {
        a - b
    }
}

impl CircuitBreaker {
    /// A closed breaker that opens after 5 failures, waits 60 s, and closes again after
    /// 2 successes.
    pub fn new(now: u64) -> (r: CircuitBreaker)
        ensures
            r == (CircuitBreaker {
                state: CircuitState::Closed,
                failure_count: 0,
                failure_threshold: 5,
                success_threshold: 2,
                timeout_duration: 60,
                last_failure_time: 0,
                last_state_change: now,
            }),
    {
        CircuitBreaker {
            state: CircuitState::Closed,
            failure_count: 0,
            failure_threshold: 5,
            success_threshold: 2,
            timeout_duration: 60,
            last_failure_time: 0,
            last_state_change: now,
        }
    }

    /// Records a successful call at `now`.
    pub fn record_success(&mut self, now: u64)
        ensures
            *final(self) == (match old(self).state {
                CircuitState::HalfOpen => {
                    let count = sat_sub(old(self).failure_count as int, 1) as u32;
                    if count == 0 {
                        CircuitBreaker { state: CircuitState::Closed, failure_count: 0, last_state_change: now, ..*old(self) }
                    } else {
                        CircuitBreaker { failure_count: count, ..*old(self) }
                    }
                },
                _ => CircuitBreaker { failure_count: 0, ..*old(self) },
            }),
    {
        match self.state {
            CircuitState::HalfOpen => {
                self.failure_count = self.failure_count.saturating_sub(1);
                if self.failure_count == 0 {
                    self.state = CircuitState::Closed;
                    self.last_state_change = now;
                }
            },
            CircuitState::Closed => {
                self.failure_count = 0;
            },
            CircuitState::Open => {
                self.failure_count = 0;
            },
        }
    }

    /// Records a failed call at `now`.
    pub fn record_failure(&mut self, now: u64)
        ensures
            ({
                let count = if old(self).failure_count == u32::MAX {
                    u32::MAX
                } else {
                    (old(self).failure_count + 1) as u32
                };
                let opens = match old(self).state {
                    CircuitState::Closed => count >= old(self).failure_threshold,
                    CircuitState::HalfOpen => true,
                    CircuitState::Open => false,
                };
                *final(self) == (if opens {
                    CircuitBreaker { state: CircuitState::Open, failure_count: count, last_failure_time: now, last_state_change: now, ..*old(self) }
                } else {
                    CircuitBreaker { failure_count: count, last_failure_time: now, ..*old(self) }
                })
            }),
    {
        self.last_failure_time = now;
        self.failure_count = self.failure_count.saturating_add(1);
        match self.state {
            CircuitState::Closed => {
                if self.failure_count >= self.failure_threshold {
                    self.state = CircuitState::Open;
                    self.last_state_change = now;
                }
            },
            CircuitState::HalfOpen => {
                self.state = CircuitState::Open;
                self.last_state_change = now;
            },
            CircuitState::Open => {},
        }
    }

    /// Whether a call may go ahead at `now`. An open breaker whose timeout has passed
    /// turns half-open (owing `success_threshold` successes) and lets the call through.
    pub fn is_request_allowed(&mut self, now: u64) -> (r: bool)
        ensures
            ({
                let o = *old(self);
                let reopens = o.state is Open && sat_sub(now as int, o.last_state_change as int) >= o.timeout_duration;
                &&& r == (o.state is Closed || o.state is HalfOpen || reopens)
                &&& *final(self) == (if reopens {
                    CircuitBreaker { state: CircuitState::HalfOpen, failure_count: o.success_threshold, last_state_change: now, ..o }
                } else {
                    o
                })
            }),
    {
        match self.state {
            CircuitState::Closed => true,
            CircuitState::Open => {
                let since = now.saturating_sub(self.last_state_change);
                if since >= self.timeout_duration {
                    self.state = CircuitState::HalfOpen;
                    self.failure_count = self.success_threshold;
                    self.last_state_change = now;
                    true
                } else {
                    false
                }
            },
            CircuitState::HalfOpen => true,
        }
    }
}

/// One failed item of a batch that went on past failures.
#[derive(Clone, Copy, Debug, PartialEq, Eq, Structural)]
pub struct BatchItemError {
    pub index: u32,
    pub recipient: Address,
    pub amount: i128,
    pub error_code: u32,
    pub can_retry: bool,
    pub timestamp: u64,
}

/// The tally of a batch that went on past failures.
#[derive(Clone, Debug)]
pub struct BatchResult {
    pub total_items: u32,
    pub successful: u32,
    pub failed: u32,
    pub failed_indices: Vec<u32>,
    pub error_details: Vec<BatchItemError>,
}

impl BatchResult {
    /// An empty tally for a batch of `total_items`.
    pub fn new(total_items: u32) -> (r: BatchResult)
        ensures
            r.total_items == total_items,
            r.successful == 0,
            r.failed == 0,
            r.failed_indices@ == Seq::<u32>::empty(),
            r.error_details@ == Seq::<BatchItemError>::empty(),
    {
        BatchResult {
            total_items,
            successful: 0,
            failed: 0,
            failed_indices: Vec::new(),
            error_details: Vec::new(),
        }
    }

    /// Counts one success (saturating).
    pub fn record_success(&mut self)
        ensures
            final(self).successful == (if old(self).successful == u32::MAX {
                u32::MAX
            } else {
                (old(self).successful + 1) as u32
            }),
            final(self).total_items == old(self).total_items,
            final(self).failed == old(self).failed,
            final(self).failed_indices@ == old(self).failed_indices@,
            final(self).error_details@ == old(self).error_details@,
    {
        self.successful = self.successful.saturating_add(1);
    }

    /// Counts one failure (saturating) and records its index and details; the item can
    /// be retried when the error is transient.
    pub fn record_failure(&mut self, index: u32, recipient: Address, amount: i128, error: RecoveryError, now: u64)
        ensures
            final(self).failed == (if old(self).failed == u32::MAX {
                u32::MAX
            } else {
                (old(self).failed + 1) as u32
            }),
            final(self).total_items == old(self).total_items,
            final(self).successful == old(self).successful,
            final(self).failed_indices@ == old(self).failed_indices@.push(index),
            final(self).error_details@.len() == old(self).error_details@.len() + 1,
            final(self).error_details@.drop_last() == old(self).error_details@,
            ({
                let d = final(self).error_details@.last();
                &&& d.index == index
                &&& d.recipient == recipient
                &&& d.amount == amount
                &&& d.error_code == recovery_code(error)
                &&& d.can_retry == (class_of(error) is Transient)
                &&& d.timestamp == now
            }),
    {
        self.failed = self.failed.saturating_add(1);
        self.failed_indices.push(index);
        let can_retry = match classify_error(error) {
            ErrorClass::Transient => true,
            _ => false,
        };
        let detail = BatchItemError {
            index,
            recipient,
            amount,
            error_code: error.code(),
            can_retry,
            timestamp: now,
        };
        self.error_details.push(detail);
        assert(self.error_details@.drop_last() =~= old(self).error_details@);
    }

    /// No item failed.
    pub fn is_full_success(&self) -> (r: bool)
        ensures
            r == (self.failed == 0),
    {
        self.failed == 0
    }

    /// Some items succeeded and some failed.
    pub fn is_partial_success(&self) -> (r: bool)
        ensures
            r == (self.successful > 0 && self.failed > 0),
    {
        self.successful > 0 && self.failed > 0
    }

    /// Every counted item failed.
    pub fn is_complete_failure(&self) -> (r: bool)
        ensures
            r == (self.successful == 0 && self.failed > 0),
    {
        self.successful == 0 && self.failed > 0
    }
}

} // verus!
