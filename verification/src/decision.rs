//! The pre-run gate and run parameterization for one target.
//!
//! Before a run, the sentinel flags decide whether the target is skipped
//! permanently, skipped temporarily, or eligible; an eligible run is then
//! parameterized (authenticate or not, retweets only or not) and the exact
//! argument list of the child process is built from those parameters.

use vstd::prelude::*;

use crate::sentinel::DAY_SECS;
use crate::text::views_of;

verus! {

/// What the pre-run gate decides for one target on one pass.
#[derive(Clone, Copy, Debug, PartialEq, Eq, Structural)]
pub enum GateDecision {
    /// The permanent-skip marker is present: never run.
    PermaSkipped,
    /// The temporary-skip marker is present and fresh: rest this pass.
    TempSkipped,
    /// No marker bars the run.
    Eligible,
}

/// How the sentinel flags decide a target's fate before a run: a present
/// permanent marker skips it forever, a fresh temporary marker (unless
/// ignored on this pass) skips it for now, and otherwise it is eligible.
/// `temp_skip_age` is the temporary marker's age in seconds, or `None`
/// when the marker is absent.
pub open spec fn gate_spec(
    perma_skip: bool,
    ignore_temp_skip: bool,
    temp_skip_age: Option<u64>,
) -> GateDecision {
    if perma_skip {
        GateDecision::PermaSkipped
    } else if !ignore_temp_skip && (temp_skip_age matches Some(age) && age < DAY_SECS) {
        GateDecision::TempSkipped
    } else {
        GateDecision::Eligible
    }
}

/// Evaluates the pre-run gate for one target.
pub fn pre_run_gate(perma_skip: bool, ignore_temp_skip: bool, temp_skip_age: Option<u64>) -> (g:
    GateDecision)
    ensures
        g == gate_spec(perma_skip, ignore_temp_skip, temp_skip_age),
{
    if perma_skip {
        GateDecision::PermaSkipped
    } else if ignore_temp_skip {
        GateDecision::Eligible
    } else {
        match temp_skip_age {
            Some(age) => if age < DAY_SECS {
                GateDecision::TempSkipped
            } else {
                GateDecision::Eligible
            },
            None => GateDecision::Eligible,
        }
    }
}

/// A target rested at one moment is skipped while the marker's age is
/// under the expiry window and eligible again once it is past it: with the
/// marker written at `write_time`, a pass at `check_time` within the
/// window is gated to `TempSkipped`, and one at or past it to `Eligible`.
pub proof fn lemma_temp_skip_round_trip(write_time: u64, check_time: u64)
    requires
        write_time <= check_time,
    ensures
        check_time - write_time < DAY_SECS ==> gate_spec(
            false,
            false,
            Some((check_time - write_time) as u64),
        ) == GateDecision::TempSkipped,
        check_time - write_time >= DAY_SECS ==> gate_spec(
            false,
            false,
            Some((check_time - write_time) as u64),
        ) == GateDecision::Eligible,
{
}

/// Authentication is requested unless globally disabled, and always when
/// the target's needs-login marker is present.
pub open spec fn login_requested_spec(no_login: bool, needs_login_flag: bool) -> bool {
    !no_login || needs_login_flag
}

/// Decides whether the run authenticates.
pub fn login_requested(no_login: bool, needs_login_flag: bool) -> (r: bool)
    ensures
        r == login_requested_spec(no_login, needs_login_flag),
{
    !no_login || needs_login_flag
}

/// The child process's argument list: force-batch mode, optional login,
/// full scope, update mode, optional retweet-only, then the target user.
pub open spec fn command_args_spec(user: Seq<char>, login: bool, retweet_only: bool) -> Seq<
    Seq<char>,
> {
    seq!["-B"@] + (if login {
        seq!["--login"@]
    } else {
        Seq::<Seq<char>>::empty()
    }) + seq!["--all"@, "--update"@] + (if retweet_only {
        seq!["--retweet-only"@]
    } else {
        Seq::<Seq<char>>::empty()
    }) + seq!["--user"@, user]
}

/// Builds the child process's argument list for one run.
pub fn build_command_args(user: &str, login: bool, retweet_only: bool) -> (args: Vec<String>)
    ensures
        views_of(args@) == command_args_spec(user@, login, retweet_only),
{
    let mut v: Vec<String> = Vec::new();
    v.push(String::from_str("-B"));
    if login {
        v.push(String::from_str("--login"));
    }
    v.push(String::from_str("--all"));
    v.push(String::from_str("--update"));
    if retweet_only {
        v.push(String::from_str("--retweet-only"));
    }
    v.push(String::from_str("--user"));
    v.push(String::from_str(user));
    proof {
        assert(views_of(v@) =~= command_args_spec(user@, login, retweet_only));
    }
    v
}

} // verus!
