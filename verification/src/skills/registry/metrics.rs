//! Execution metrics for a skill: counts, durations and streaks.
//!
//! The mean duration and the success rate are floating-point figures; the
//! caller works them out from the totals kept here.

use vstd::prelude::*;
use crate::ids::now_timestamp;

verus! {

/// Execution metrics for a skill.
#[derive(Debug, Clone, Copy)]
pub struct ExecutionMetrics {
    pub total_executions: u64,
    pub successful_executions: u64,
    pub failed_executions: u64,
    pub total_duration_ms: u64,
    pub min_duration_ms: Option<u64>,
    pub max_duration_ms: Option<u64>,
    /// Unix times, in seconds, of the last execution, success and failure.
    pub last_execution: Option<i64>,
    pub last_success: Option<i64>,
    pub last_failure: Option<i64>,
    pub consecutive_successes: u64,
    pub consecutive_failures: u64,
}

/// The smaller of a running minimum and a new value.
pub open spec fn next_min(m: Option<u64>, d: u64) -> Option<u64> {
    match m {
        Some(x) => Some(if x < d { x } else { d }),
        None => Some(d),
    }
}

/// The larger of a running maximum and a new value.
pub open spec fn next_max(m: Option<u64>, d: u64) -> Option<u64> {
    match m {
        Some(x) => Some(if x > d { x } else { d }),
        None => Some(d),
    }
}

/// Room for one more execution of the given duration.
pub open spec fn can_record_execution(m: ExecutionMetrics, duration_ms: u64) -> bool {
    &&& m.total_executions < u64::MAX
    &&& m.successful_executions < u64::MAX
    &&& m.failed_executions < u64::MAX
    &&& m.consecutive_successes < u64::MAX
    &&& m.consecutive_failures < u64::MAX
    &&& m.total_duration_ms + duration_ms <= u64::MAX
}

/// What one more execution changes whatever its outcome.
pub open spec fn counted(old: ExecutionMetrics, new: ExecutionMetrics, duration_ms: u64) -> bool {
    &&& new.total_executions == old.total_executions + 1
    &&& new.total_duration_ms == old.total_duration_ms + duration_ms
    &&& new.min_duration_ms == next_min(old.min_duration_ms, duration_ms)
    &&& new.max_duration_ms == next_max(old.max_duration_ms, duration_ms)
    &&& new.last_execution is Some
}

/// The metrics after one more execution with the given outcome: counted,
/// the outcome's counter and streak up by one, the other streak reset, the
/// time of the other outcome kept.
pub open spec fn after_execution(
    old: ExecutionMetrics,
    new: ExecutionMetrics,
    success: bool,
    duration_ms: u64,
) -> bool {
    &&& counted(old, new, duration_ms)
    &&& if success {
        &&& new.successful_executions == old.successful_executions + 1
        &&& new.failed_executions == old.failed_executions
        &&& new.last_success is Some
        &&& new.last_failure == old.last_failure
        &&& new.consecutive_successes == old.consecutive_successes + 1
        &&& new.consecutive_failures == 0
    } else {
        &&& new.successful_executions == old.successful_executions
        &&& new.failed_executions == old.failed_executions + 1
        &&& new.last_success == old.last_success
        &&& new.last_failure is Some
        &&& new.consecutive_successes == 0
        &&& new.consecutive_failures == old.consecutive_failures + 1
    }
}

fn updated_min(m: Option<u64>, d: u64) -> (r: Option<u64>)
    ensures
        r == next_min(m, d),
{
    match m {
        Some(x) => Some(if x < d { x } else { d }),
        None => Some(d),
    }
}

fn updated_max(m: Option<u64>, d: u64) -> (r: Option<u64>)
    ensures
        r == next_max(m, d),
{
    match m {
        Some(x) => Some(if x > d { x } else { d }),
        None => Some(d),
    }
}

impl ExecutionMetrics {
    /// No executions yet.
    pub fn new() -> (m: Self)
        ensures
            m == ExecutionMetrics::new_spec(),
    {
        ExecutionMetrics {
            total_executions: 0,
            successful_executions: 0,
            failed_executions: 0,
            total_duration_ms: 0,
            min_duration_ms: None,
            max_duration_ms: None,
            last_execution: None,
            last_success: None,
            last_failure: None,
            consecutive_successes: 0,
            consecutive_failures: 0,
        }
    }

    /// Record a successful execution that took `duration_ms`.
    pub fn record_success(&mut self, duration_ms: u64)
        requires
            can_record_execution(*old(self), duration_ms),
        ensures
            counted(*old(self), *final(self), duration_ms),
            final(self).successful_executions == old(self).successful_executions + 1,
            final(self).failed_executions == old(self).failed_executions,
            final(self).last_success is Some,
            final(self).last_failure == old(self).last_failure,
            final(self).consecutive_successes == old(self).consecutive_successes + 1,
            final(self).consecutive_failures == 0,
    {
        self.total_executions = self.total_executions + 1;
        self.successful_executions = self.successful_executions + 1;
        self.total_duration_ms = self.total_duration_ms + duration_ms;
        self.min_duration_ms = updated_min(self.min_duration_ms, duration_ms);
        self.max_duration_ms = updated_max(self.max_duration_ms, duration_ms);
        let now = now_timestamp();
        self.last_execution = Some(now);
        self.last_success = Some(now);
        self.consecutive_successes = self.consecutive_successes + 1;
        self.consecutive_failures = 0;
    }

    /// Record a failed execution that took `duration_ms`.
    pub fn record_failure(&mut self, duration_ms: u64)
        requires
            can_record_execution(*old(self), duration_ms),
        ensures
            counted(*old(self), *final(self), duration_ms),
            final(self).successful_executions == old(self).successful_executions,
            final(self).failed_executions == old(self).failed_executions + 1,
            final(self).last_success == old(self).last_success,
            final(self).last_failure is Some,
            final(self).consecutive_successes == 0,
            final(self).consecutive_failures == old(self).consecutive_failures + 1,
    {
        self.total_executions = self.total_executions + 1;
        self.failed_executions = self.failed_executions + 1;
        self.total_duration_ms = self.total_duration_ms + duration_ms;
        self.min_duration_ms = updated_min(self.min_duration_ms, duration_ms);
        self.max_duration_ms = updated_max(self.max_duration_ms, duration_ms);
        let now = now_timestamp();
        self.last_execution = Some(now);
        self.last_failure = Some(now);
        self.consecutive_failures = self.consecutive_failures + 1;
        self.consecutive_successes = 0;
    }

    /// Stable: no failure since the last success, and at least three
    /// successes in all.
    pub fn is_stable(&self) -> (r: bool)
        ensures
            r == (self.consecutive_failures == 0 && self.successful_executions >= 3),
    {
        self.consecutive_failures == 0 && self.successful_executions >= 3
    }
}

impl Default for ExecutionMetrics {
    fn default() -> (m: Self)
        ensures
            m == ExecutionMetrics::new_spec(),
    {
        ExecutionMetrics::new()
    }
}

impl ExecutionMetrics {
    /// The metrics of a skill that never ran.
    pub open spec fn new_spec() -> ExecutionMetrics {
        ExecutionMetrics {
            total_executions: 0,
            successful_executions: 0,
            failed_executions: 0,
            total_duration_ms: 0,
            min_duration_ms: None,
            max_duration_ms: None,
            last_execution: None,
            last_success: None,
            last_failure: None,
            consecutive_successes: 0,
            consecutive_failures: 0,
        }
    }
}

} // verus!
