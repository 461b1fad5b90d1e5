//! Post-run sentinel policy and batch pacing.
//!
//! After a run ends, the counters decide which sentinel is written for the
//! target: a broken run (no counted output) forces authentication next
//! time, a successful-enough run rests for the expiry window, a
//! high-failure run forces authentication, and a middling run writes
//! nothing so the target is retried on the next pass. A run cut short
//! because the user does not exist bypasses the policy entirely and marks
//! the target permanently skipped. The failure-ratio thresholds are exact:
//! `errors <= total / 10` and `errors >= total / 3` compare true ratios,
//! stated here without division.

use vstd::prelude::*;

use crate::runstate::{LineSignal, RunResult, RunStats};

verus! {

/// The sentinel the threshold policy writes after a run.
#[derive(Clone, Copy, Debug, PartialEq, Eq, Structural)]
pub enum PolicyWrite {
    /// Rest for the expiry window: the run was successful enough.
    TempSkip,
    /// Force authentication on the next run.
    NeedsLogin,
    /// Write nothing: retry on the very next pass.
    NoWrite,
}

/// The sentinel owed for a run with `total` counted lines of which
/// `errors` carried the error token.
pub open spec fn policy_spec(total: int, errors: int) -> PolicyWrite {
    if total <= 0 {
        PolicyWrite::NeedsLogin
    } else if 10 * errors <= total {
        PolicyWrite::TempSkip
    } else if 3 * errors >= total {
        PolicyWrite::NeedsLogin
    } else {
        PolicyWrite::NoWrite
    }
}

/// Everything a run leaves behind in the sentinel store.
#[derive(Clone, Copy, Debug, PartialEq, Eq, Structural)]
pub struct PostRunEffects {
    /// Mark the target permanently skipped (its user does not exist).
    pub write_perma_skip: bool,
    /// Mark the target rested for the expiry window.
    pub write_temp_skip: bool,
    /// Force authentication on the target's next run.
    pub write_needs_login: bool,
    /// Persist the abnormal lines verbatim as a diagnostic record.
    pub dump_abnormal: bool,
}

/// The sentinel writes owed after a run that ended with `sig`: a run cut
/// short by a missing user marks the target permanently skipped and
/// nothing else; every other run is judged by the threshold policy, and
/// its abnormal lines are persisted when a counted line produced some.
pub open spec fn effects_spec(s: RunStats, sig: LineSignal) -> PostRunEffects {
    if sig == LineSignal::StopUserNotFound {
        PostRunEffects {
            write_perma_skip: true,
            write_temp_skip: false,
            write_needs_login: false,
            dump_abnormal: false,
        }
    } else {
        let w = policy_spec(s.total, s.errors);
        PostRunEffects {
            write_perma_skip: false,
            write_temp_skip: w == PolicyWrite::TempSkip,
            write_needs_login: w == PolicyWrite::NeedsLogin,
            dump_abnormal: s.total > 0 && s.abnormal.len() > 0,
        }
    }
}

/// Applies the threshold policy to a run's counters.
pub fn post_run_write(total_lines: i64, error_count: i64) -> (w: PolicyWrite)
    ensures
        w == policy_spec(total_lines as int, error_count as int),
{
    if total_lines <= 0 {
        PolicyWrite::NeedsLogin
    } else if 10 * (error_count as i128) <= total_lines as i128 {
        PolicyWrite::TempSkip
    } else if 3 * (error_count as i128) >= total_lines as i128 {
        PolicyWrite::NeedsLogin
    } else {
        PolicyWrite::NoWrite
    }
}

impl RunResult {
    /// The sentinel writes this run leaves behind, given the signal that
    /// ended it.
    pub fn conclude(&self, sig: LineSignal) -> (e: PostRunEffects)
        ensures
            e == effects_spec(self@, sig),
    {
        if matches!(sig, LineSignal::StopUserNotFound) {
            PostRunEffects {
                write_perma_skip: true,
                write_temp_skip: false,
                write_needs_login: false,
                dump_abnormal: false,
            }
        } else {
            let w = post_run_write(self.total_lines, self.error_count);
            PostRunEffects {
                write_perma_skip: false,
                write_temp_skip: matches!(w, PolicyWrite::TempSkip),
                write_needs_login: matches!(w, PolicyWrite::NeedsLogin),
                dump_abnormal: self.total_lines > 0 && self.abnormal_lines.len() > 0,
            }
        }
    }
}

/// The pause before the next target: the normal pacing interval, or thirty
/// times it after a rate-limit stop.
pub open spec fn pacing_delay_spec(sig: LineSignal, sleep_secs: u64) -> int {
    if sig == LineSignal::StopRateLimited {
        30 * sleep_secs
    } else {
        sleep_secs as int
    }
}

/// Computes the pause before the next target from the signal that ended
/// the run.
pub fn next_pacing_delay(sig: LineSignal, sleep_secs: u64) -> (d: u64)
    requires
        30 * sleep_secs <= u64::MAX,
    ensures
        d == pacing_delay_spec(sig, sleep_secs),
{
    if matches!(sig, LineSignal::StopRateLimited) {
        30 * sleep_secs
    } else {
        sleep_secs
    }
}

/// Whether the stream reader must terminate the child after this signal.
pub open spec fn must_terminate_spec(sig: LineSignal) -> bool {
    sig != LineSignal::Proceed
}

/// Decides whether to terminate the child after a line's signal.
pub fn must_terminate(sig: LineSignal) -> (r: bool)
    ensures
        r == must_terminate_spec(sig),
{
    !matches!(sig, LineSignal::Proceed)
}

/// A rate-limit stop terminates the child and stretches the next pacing
/// delay to the long cooldown, thirty times the normal interval.
pub proof fn lemma_rate_limit_cooldown(sleep_secs: u64)
    ensures
        must_terminate_spec(LineSignal::StopRateLimited),
        pacing_delay_spec(LineSignal::StopRateLimited, sleep_secs) == 30 * sleep_secs,
        pacing_delay_spec(LineSignal::Proceed, sleep_secs) == sleep_secs,
{
}

/// A run cut short by a missing user writes the permanent skip sentinel,
/// terminates the child, and writes no other sentinel, whatever the
/// counters say.
pub proof fn lemma_user_not_found_effects(s: RunStats)
    ensures
        must_terminate_spec(LineSignal::StopUserNotFound),
        effects_spec(s, LineSignal::StopUserNotFound).write_perma_skip,
        !effects_spec(s, LineSignal::StopUserNotFound).write_temp_skip,
        !effects_spec(s, LineSignal::StopUserNotFound).write_needs_login,
{
}

} // verus!
