//! Sentinel file naming and freshness.
//!
//! Per-target state persists as small marker files inside the target's
//! directory. This module fixes the file names, builds the paths, and
//! states the freshness window of the temporary-skip marker. Reading and
//! writing the files themselves is filesystem work done outside the
//! library.

use vstd::prelude::*;

use crate::text::views_of;

verus! {

/// Seconds in the temporary-skip expiry window: one day.
pub const DAY_SECS: u64 = 60 * 60 * 24;

/// The persistent per-target markers.
#[derive(Clone, Copy, Debug, PartialEq, Eq, Structural)]
pub enum SentinelFlag {
    /// Exclude the target from all future runs until removed by hand.
    PermaSkip,
    /// Rest the target while the marker is younger than the expiry window.
    TempSkip,
    /// Force authentication on the target's next run.
    NeedsLogin,
    /// Operator-supplied mode toggle; the supervisor only reads it.
    RetweetOnly,
}

/// The marker file name of each sentinel flag.
pub open spec fn flag_name_spec(f: SentinelFlag) -> Seq<char> {
    match f {
        SentinelFlag::PermaSkip => ".perm_skip"@,
        SentinelFlag::TempSkip => ".skip"@,
        SentinelFlag::NeedsLogin => ".login"@,
        SentinelFlag::RetweetOnly => ".retweet_only"@,
    }
}

/// A file or directory path directly inside the target's directory.
pub open spec fn child_path_spec(target: Seq<char>, child: Seq<char>) -> Seq<char> {
    target + "/"@ + child
}

/// The path of a sentinel flag's marker file for `target`.
pub open spec fn sentinel_path_spec(target: Seq<char>, f: SentinelFlag) -> Seq<char> {
    child_path_spec(target, flag_name_spec(f))
}

/// The marker file name of a sentinel flag.
pub fn flag_file_name(f: SentinelFlag) -> (n: &'static str)
    ensures
        n@ == flag_name_spec(f),
{
    match f {
        SentinelFlag::PermaSkip => ".perm_skip",
        SentinelFlag::TempSkip => ".skip",
        SentinelFlag::NeedsLogin => ".login",
        SentinelFlag::RetweetOnly => ".retweet_only",
    }
}

/// Builds the path of a file or directory directly inside the target's
/// directory.
pub fn child_path(target: &str, child: &str) -> (p: String)
    ensures
        p@ == child_path_spec(target@, child@),
{
    String::from_str(target).concat("/").concat(child)
}

/// Builds the path of a sentinel flag's marker file for `target`.
pub fn sentinel_path(target: &str, f: SentinelFlag) -> (p: String)
    ensures
        p@ == sentinel_path_spec(target@, f),
{
    child_path(target, flag_file_name(f))
}

/// The name of the diagnostic file holding a run's abnormal lines.
pub fn abnormal_file_name() -> (n: &'static str)
    ensures
        n@ == ".abnormal"@,
{
    ".abnormal"
}

/// The diagnostic record of a run's abnormal lines: the lines verbatim, in
/// order, joined by a newline.
pub open spec fn joined_lines_spec(lines: Seq<Seq<char>>) -> Seq<char>
    decreases lines.len(),
{
    if lines.len() == 0 {
        Seq::empty()
    } else if lines.len() == 1 {
        lines[0]
    } else {
        lines[0] + "\n"@ + joined_lines_spec(lines.drop_first())
    }
}

/// Joins a run's abnormal lines with newlines for the diagnostic file.
pub fn join_lines(lines: &Vec<String>) -> (r: String)
    ensures
        r@ == joined_lines_spec(views_of(lines@)),
{
    let ghost all: Seq<Seq<char>> = views_of(lines@);
    let n = lines.len();
    if n == 0 {
        let r = String::new();
        proof {
            assert(r@ =~= joined_lines_spec(all));
        }
        return r;
    }
    let mut r = String::from_str(lines[0].as_str());
    let mut i: usize = 1;
    while i < n
        invariant
            1 <= i <= n,
            n == lines@.len(),
            all == views_of(lines@),
            r@ == joined_lines_spec(all.take(i as int)),
        decreases n - i,
    {
        proof {
            assert(all[i as int] == lines@[i as int]@);
        }
        r.append("\n");
        r.append(lines[i].as_str());
        proof {
            lemma_join_snoc(all.take(i as int), all[i as int]);
            assert(all.take(i as int).push(all[i as int]) =~= all.take(i + 1));
        }
        i += 1;
    }
    proof {
        assert(all.take(n as int) =~= all);
    }
    r
}

/// Appending one more line to a non-empty join appends a newline and the
/// line.
proof fn lemma_join_snoc(lines: Seq<Seq<char>>, x: Seq<char>)
    requires
        lines.len() >= 1,
    ensures
        joined_lines_spec(lines.push(x)) == joined_lines_spec(lines) + "\n"@ + x,
    decreases lines.len(),
{
    if lines.len() == 1 {
        assert(lines.push(x)[0] == lines[0]);
        assert(lines.push(x).drop_first() =~= seq![x]);
        assert(joined_lines_spec(seq![x]) == x);
        assert(joined_lines_spec(lines.push(x)) == lines[0] + "\n"@ + x);
    } else {
        assert(lines.push(x)[0] == lines[0]);
        assert(lines.push(x).drop_first() =~= lines.drop_first().push(x));
        lemma_join_snoc(lines.drop_first(), x);
        assert(joined_lines_spec(lines.push(x)) == lines[0] + "\n"@ + (joined_lines_spec(
            lines.drop_first(),
        ) + "\n"@ + x));
        assert(lines[0] + "\n"@ + (joined_lines_spec(lines.drop_first()) + "\n"@ + x) =~= (lines[0]
            + "\n"@ + joined_lines_spec(lines.drop_first())) + "\n"@ + x);
    }
}

/// A sentinel path names its target: equal marker paths for the same flag
/// can only come from the same target, so a write keyed to one target can
/// never land in another target's directory entry.
pub proof fn lemma_sentinel_path_identifies_target(
    t1: Seq<char>,
    t2: Seq<char>,
    f: SentinelFlag,
)
    requires
        sentinel_path_spec(t1, f) == sentinel_path_spec(t2, f),
    ensures
        t1 == t2,
{
    let s = "/"@ + flag_name_spec(f);
    assert(sentinel_path_spec(t1, f) =~= t1 + s);
    assert(sentinel_path_spec(t2, f) =~= t2 + s);
    assert((t1 + s).len() == t1.len() + s.len());
    assert((t2 + s).len() == t2.len() + s.len());
    assert(t1.len() == t2.len());
    assert(t1 =~= t2) by {
        assert(forall|i: int| 0 <= i < t1.len() ==> t1[i] == #[trigger] t2[i]) by {
            assert(forall|i: int| 0 <= i < t1.len() ==> t1[i] == (t1 + s)[i] && t2[i] == (t2
                + s)[i]);
        }
    }
}

} // verus!
