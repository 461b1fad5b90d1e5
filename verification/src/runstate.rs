//! Per-run counter state and its evolution over the downloader's output.
//!
//! One subprocess run yields a sequence of trimmed output lines. Each line
//! bumps the total counter and, by its classification, one category
//! counter; a terminating line (user not found, rate limited) stops the
//! stream. The whole run is a fold of the per-line step, so the counters
//! and the abnormal-line record are a function of the line sequence alone.

use vstd::prelude::*;

use crate::classify::{classify_line, classify_spec, LineClass};
use crate::text::views_of;

verus! {

/// What the reader of the output stream must do after one line.
#[derive(Clone, Copy, Debug, PartialEq, Eq, Structural)]
pub enum LineSignal {
    /// Keep reading.
    Proceed,
    /// The user does not exist: terminate the child and stop reading.
    StopUserNotFound,
    /// The rate limit was hit: terminate the child and stop reading.
    StopRateLimited,
}

/// The mathematical content of a `RunResult`.
pub ghost struct RunStats {
    /// Lines seen, counted from `-1` when a login banner is expected.
    pub total: int,
    /// Lines reporting a completed download.
    pub downloaded: int,
    /// Lines reporting a file that already existed.
    pub existing: int,
    /// Lines carrying the error token.
    pub errors: int,
    /// Unrecognised lines, verbatim, in order of appearance.
    pub abnormal: Seq<Seq<char>>,
}

/// Ephemeral aggregate of one subprocess run.
pub struct RunResult {
    /// Lines seen, counted from `-1` when a login banner is expected.
    pub total_lines: i64,
    /// Lines reporting a completed download.
    pub downloaded_count: i64,
    /// Lines reporting a file that already existed.
    pub exists_count: i64,
    /// Lines carrying the error token.
    pub error_count: i64,
    /// Unrecognised lines, verbatim, in order of appearance.
    pub abnormal_lines: Vec<String>,
}

impl View for RunResult {
    type V = RunStats;

    open spec fn view(&self) -> RunStats {
        RunStats {
            total: self.total_lines as int,
            downloaded: self.downloaded_count as int,
            existing: self.exists_count as int,
            errors: self.error_count as int,
            abnormal: views_of(self.abnormal_lines@),
        }
    }
}

/// The counters at the start of a run: the expected login banner consumes
/// one line that must not count as content, so the total starts at `-1`
/// when a login was requested.
pub open spec fn initial_stats(no_login: bool) -> RunStats {
    RunStats {
        total: if no_login { 0 } else { -1 },
        downloaded: 0,
        existing: 0,
        errors: 0,
        abnormal: Seq::empty(),
    }
}

/// The signal that one line's classification sends to the stream reader.
pub open spec fn signal_of(c: LineClass) -> LineSignal {
    match c {
        LineClass::UserNotFound => LineSignal::StopUserNotFound,
        LineClass::RateLimited => LineSignal::StopRateLimited,
        _ => LineSignal::Proceed,
    }
}

/// One line's effect on the counters.
pub open spec fn step_stats(s: RunStats, line: Seq<char>, target: Seq<char>) -> RunStats {
    let c = classify_spec(line, target);
    RunStats {
        total: s.total + 1,
        downloaded: s.downloaded + if c == LineClass::Downloaded { 1int } else { 0 },
        existing: s.existing + if c == LineClass::AlreadyExists { 1int } else { 0 },
        errors: s.errors + if c == LineClass::GenericError { 1int } else { 0 },
        abnormal: if c == LineClass::Abnormal { s.abnormal.push(line) } else { s.abnormal },
    }
}

/// The counters after folding the per-line step over `lines`, stopping
/// after the first terminating line.
pub open spec fn run_stats(s: RunStats, lines: Seq<Seq<char>>, target: Seq<char>) -> RunStats
    decreases lines.len(),
{
    if lines.len() == 0 {
        s
    } else {
        let s1 = step_stats(s, lines[0], target);
        if signal_of(classify_spec(lines[0], target)) != LineSignal::Proceed {
            s1
        } else {
            run_stats(s1, lines.drop_first(), target)
        }
    }
}

/// The signal that ends the reading of `lines`: that of the first
/// terminating line, or `Proceed` when the stream closes normally.
pub open spec fn run_signal(lines: Seq<Seq<char>>, target: Seq<char>) -> LineSignal
    decreases lines.len(),
{
    if lines.len() == 0 {
        LineSignal::Proceed
    } else {
        let sig = signal_of(classify_spec(lines[0], target));
        if sig != LineSignal::Proceed {
            sig
        } else {
            run_signal(lines.drop_first(), target)
        }
    }
}

/// Folding over a concatenation runs the prefix first, provided the prefix
/// contains no terminating line.
pub proof fn lemma_run_split(
    init: RunStats,
    pre: Seq<Seq<char>>,
    suf: Seq<Seq<char>>,
    target: Seq<char>,
)
    requires
        run_signal(pre, target) == LineSignal::Proceed,
    ensures
        run_stats(init, pre + suf, target) == run_stats(run_stats(init, pre, target), suf, target),
        run_signal(pre + suf, target) == run_signal(suf, target),
    decreases pre.len(),
{
    if pre.len() == 0 {
        assert(pre + suf =~= suf);
    } else {
        assert((pre + suf)[0] == pre[0]);
        assert((pre + suf).drop_first() =~= pre.drop_first() + suf);
        lemma_run_split(step_stats(init, pre[0], target), pre.drop_first(), suf, target);
    }
}

/// A line carrying the not-found message for the target, reached without
/// any earlier terminating line, ends the run with the user-not-found
/// stop signal — the one that marks the target permanently skipped.
pub proof fn lemma_not_found_line_stops_run(lines: Seq<Seq<char>>, target: Seq<char>, k: int)
    requires
        0 <= k < lines.len(),
        crate::text::contains_text(lines[k], crate::classify::user_not_found_pattern(target)),
        forall|j: int|
            0 <= j < k ==> signal_of(#[trigger] classify_spec(lines[j], target))
                == LineSignal::Proceed,
    ensures
        run_signal(lines, target) == LineSignal::StopUserNotFound,
    decreases k,
{
    if k == 0 {
        crate::classify::lemma_user_not_found_priority(lines[0], target);
    } else {
        assert(signal_of(classify_spec(lines[0], target)) == LineSignal::Proceed);
        assert(lines.drop_first()[k - 1] == lines[k]);
        assert(forall|j: int|
            0 <= j < k - 1 ==> signal_of(#[trigger] classify_spec(lines.drop_first()[j], target))
                == LineSignal::Proceed) by {
            assert(forall|j: int| 0 <= j < k - 1 ==> lines.drop_first()[j] == lines[j + 1]);
        }
        lemma_not_found_line_stops_run(lines.drop_first(), target, k - 1);
    }
}

/// A line carrying the rate-limit substring (and not the target's
/// not-found message, which outranks it), reached without any earlier
/// terminating line, ends the run with the rate-limited stop signal — the
/// one that terminates the child and stretches the next pacing delay to
/// the long cooldown.
pub proof fn lemma_rate_limit_line_stops_run(lines: Seq<Seq<char>>, target: Seq<char>, k: int)
    requires
        0 <= k < lines.len(),
        crate::text::contains_text(lines[k], "Rate limit exceeded"@),
        !crate::text::contains_text(lines[k], crate::classify::user_not_found_pattern(target)),
        forall|j: int|
            0 <= j < k ==> signal_of(#[trigger] classify_spec(lines[j], target))
                == LineSignal::Proceed,
    ensures
        run_signal(lines, target) == LineSignal::StopRateLimited,
    decreases k,
{
    if k == 0 {
        crate::classify::lemma_rate_limited_priority(lines[0], target);
    } else {
        assert(signal_of(classify_spec(lines[0], target)) == LineSignal::Proceed);
        assert(lines.drop_first()[k - 1] == lines[k]);
        assert(forall|j: int|
            0 <= j < k - 1 ==> signal_of(#[trigger] classify_spec(lines.drop_first()[j], target))
                == LineSignal::Proceed) by {
            assert(forall|j: int| 0 <= j < k - 1 ==> lines.drop_first()[j] == lines[j + 1]);
        }
        lemma_rate_limit_line_stops_run(lines.drop_first(), target, k - 1);
    }
}

/// The classifier is deterministic: two runs over the same line sequence
/// for the same target, from the same starting counters, produce identical
/// counters, identical abnormal-line records and the same stop signal.
pub proof fn lemma_classifier_deterministic(
    r1: RunStats,
    r2: RunStats,
    sig1: LineSignal,
    sig2: LineSignal,
    init: RunStats,
    lines: Seq<Seq<char>>,
    target: Seq<char>,
)
    requires
        r1 == run_stats(init, lines, target),
        r2 == run_stats(init, lines, target),
        sig1 == run_signal(lines, target),
        sig2 == run_signal(lines, target),
    ensures
        r1 == r2,
        sig1 == sig2,
{
}

impl RunResult {
    /// Fresh counters for a run; `no_login` says whether the login banner
    /// is expected, which shifts the starting total.
    pub fn new(no_login: bool) -> (r: RunResult)
        ensures
            r@ == initial_stats(no_login),
    {
        let r = RunResult {
            total_lines: if no_login { 0 } else { -1 },
            downloaded_count: 0,
            exists_count: 0,
            error_count: 0,
            abnormal_lines: Vec::new(),
        };
        proof {
            assert(r@.abnormal =~= initial_stats(no_login).abnormal);
        }
        r
    }

    /// Consumes one trimmed output line: updates the counters by the
    /// line's classification and returns the signal for the stream reader.
    pub fn observe_line(&mut self, line: &str, target: &str) -> (sig: LineSignal)
        requires
            old(self).total_lines < i64::MAX,
            old(self).downloaded_count < i64::MAX,
            old(self).exists_count < i64::MAX,
            old(self).error_count < i64::MAX,
        ensures
            final(self)@ == step_stats(old(self)@, line@, target@),
            sig == signal_of(classify_spec(line@, target@)),
    {
        self.total_lines = self.total_lines + 1;
        let c = classify_line(line, target);
        match c {
            LineClass::UserNotFound => {
                return LineSignal::StopUserNotFound;
            },
            LineClass::RateLimited => {
                return LineSignal::StopRateLimited;
            },
            LineClass::AlreadyExists => {
                self.exists_count = self.exists_count + 1;
            },
            LineClass::GenericError => {
                self.error_count = self.error_count + 1;
            },
            LineClass::Downloaded => {
                self.downloaded_count = self.downloaded_count + 1;
            },
            LineClass::Abnormal => {
                self.abnormal_lines.push(String::from_str(line));
                proof {
                    assert(self@.abnormal =~= old(self)@.abnormal.push(line@));
                }
            },
            LineClass::LoggedInBanner => {},
        }
        LineSignal::Proceed
    }
}

/// Consumes a whole line sequence, as the stream reader would: lines are
/// classified in order and reading stops after the first terminating line.
/// The result is exactly the fold of the per-line step, so it depends on
/// the line sequence, the target and the login expectation alone.
pub fn process_lines(lines: &Vec<String>, target: &str, no_login: bool) -> (out: (
    RunResult,
    LineSignal,
))
    requires
        lines@.len() + 2 <= i64::MAX,
    ensures
        out.0@ == run_stats(initial_stats(no_login), views_of(lines@), target@),
        out.1 == run_signal(views_of(lines@), target@),
{
    let ghost all: Seq<Seq<char>> = views_of(lines@);
    let ghost init: RunStats = initial_stats(no_login);
    let mut result = RunResult::new(no_login);
    let n = lines.len();
    let mut i: usize = 0;
    while i < n
        invariant
            i <= n,
            n == lines@.len(),
            lines@.len() + 2 <= i64::MAX,
            all == views_of(lines@),
            init == initial_stats(no_login),
            result@ == run_stats(init, all.take(i as int), target@),
            run_signal(all.take(i as int), target@) == LineSignal::Proceed,
            result@.total == init.total + i,
            0 <= result@.downloaded <= i,
            0 <= result@.existing <= i,
            0 <= result@.errors <= i,
        decreases n - i,
    {
        proof {
            assert(all[i as int] == lines@[i as int]@);
        }
        let ghost x: Seq<char> = all[i as int];
        let ghost pre: Seq<Seq<char>> = all.take(i as int);
        let ghost before: RunStats = result@;
        let line: &String = &lines[i];
        let sig = result.observe_line(line.as_str(), target);
        if !matches!(sig, LineSignal::Proceed) {
            proof {
                lemma_run_split(init, pre, all.skip(i as int), target@);
                assert(pre + all.skip(i as int) =~= all);
                assert(all.skip(i as int)[0] == x);
                assert(all.skip(i as int).len() > 0);
            }
            return (result, sig);
        }
        proof {
            lemma_run_split(init, pre, seq![x], target@);
            assert(pre + seq![x] =~= all.take(i + 1));
            assert(seq![x][0] == x);
            assert(seq![x].drop_first() =~= Seq::<Seq<char>>::empty());
            let s1 = step_stats(before, x, target@);
            assert(run_stats(s1, Seq::<Seq<char>>::empty(), target@) == s1);
            assert(run_signal(Seq::<Seq<char>>::empty(), target@) == LineSignal::Proceed);
            assert(run_stats(before, seq![x], target@) == s1);
            assert(run_signal(seq![x], target@) == signal_of(classify_spec(x, target@)));
        }
        i += 1;
    }
    proof {
        assert(all.take(n as int) =~= all);
    }
    (result, LineSignal::Proceed)
}

} // verus!
