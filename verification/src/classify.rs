//! Outcome classification of one downloader output line.
//!
//! Each line (already trimmed of surrounding whitespace) falls into exactly
//! one category, decided by a fixed priority order: the terminating signals
//! (user not found, rate limited) are recognised before the merely counting
//! categories, and the exact-match categories before the substring ones.

use vstd::prelude::*;

use crate::text::{contains_str, contains_text, ends_with_str, ends_with_text, starts_with_str,
    starts_with_text, text_eq};

verus! {

/// The category of one output line.
#[derive(Clone, Copy, Debug, PartialEq, Eq, Structural)]
pub enum LineClass {
    /// The downloader reported that this target's user does not exist.
    UserNotFound,
    /// The exact banner printed after a successful authentication.
    LoggedInBanner,
    /// The downloader hit the service's rate limit.
    RateLimited,
    /// A media file was already present on disk.
    AlreadyExists,
    /// The literal error token.
    GenericError,
    /// A media file was downloaded.
    Downloaded,
    /// None of the recognised categories; kept verbatim for inspection.
    Abnormal,
}

/// The not-found message the downloader prints for `target`.
pub open spec fn user_not_found_pattern(target: Seq<char>) -> Seq<char> {
    "User '"@ + target + "' not found"@
}

/// The category of `line` when processing `target`, by the fixed priority
/// order of the matching rules.
pub open spec fn classify_spec(line: Seq<char>, target: Seq<char>) -> LineClass {
    if contains_text(line, user_not_found_pattern(target)) {
        LineClass::UserNotFound
    } else if line == "Logged in"@ {
        LineClass::LoggedInBanner
    } else if contains_text(line, "Rate limit exceeded"@) {
        LineClass::RateLimited
    } else if ends_with_text(line, "already exists"@) {
        LineClass::AlreadyExists
    } else if line == "error"@ {
        LineClass::GenericError
    } else if starts_with_text(line, "Downloaded"@) {
        LineClass::Downloaded
    } else {
        LineClass::Abnormal
    }
}

/// The not-found message for `target`, as an owned string.
pub fn user_not_found_message(target: &str) -> (m: String)
    ensures
        m@ == user_not_found_pattern(target@),
{
    String::from_str("User '").concat(target).concat("' not found")
}

/// Classifies one trimmed output line for `target`.
pub fn classify_line(line: &str, target: &str) -> (c: LineClass)
    ensures
        c == classify_spec(line@, target@),
{
    let not_found = user_not_found_message(target);
    if contains_str(line, not_found.as_str()) {
        LineClass::UserNotFound
    } else if text_eq(line, "Logged in") {
        LineClass::LoggedInBanner
    } else if contains_str(line, "Rate limit exceeded") {
        LineClass::RateLimited
    } else if ends_with_str(line, "already exists") {
        LineClass::AlreadyExists
    } else if text_eq(line, "error") {
        LineClass::GenericError
    } else if starts_with_str(line, "Downloaded") {
        LineClass::Downloaded
    } else {
        LineClass::Abnormal
    }
}

/// A line carrying the not-found message for this target is always
/// classified as `UserNotFound`, whatever else it contains: that rule has
/// the highest priority.
pub proof fn lemma_user_not_found_priority(line: Seq<char>, target: Seq<char>)
    requires
        contains_text(line, user_not_found_pattern(target)),
    ensures
        classify_spec(line, target) == LineClass::UserNotFound,
{
}

/// `UserNotFound` is keyed to this target's name: a line that does not
/// carry the not-found message for `target` is never classified as
/// `UserNotFound` for `target`.
pub proof fn lemma_user_not_found_keyed(line: Seq<char>, target: Seq<char>)
    requires
        !contains_text(line, user_not_found_pattern(target)),
    ensures
        classify_spec(line, target) != LineClass::UserNotFound,
{
}

/// A line carrying the rate-limit substring is classified as `RateLimited`
/// unless the higher-priority not-found rule matches: the login banner,
/// being shorter than the rate-limit substring, can never carry it.
pub proof fn lemma_rate_limited_priority(line: Seq<char>, target: Seq<char>)
    requires
        contains_text(line, "Rate limit exceeded"@),
        !contains_text(line, user_not_found_pattern(target)),
    ensures
        classify_spec(line, target) == LineClass::RateLimited,
{
    reveal_strlit("Logged in");
    reveal_strlit("Rate limit exceeded");
    if line == "Logged in"@ {
        let i = choose|i: int| crate::text::matches_at(line, "Rate limit exceeded"@, i);
        assert(i + "Rate limit exceeded"@.len() <= line.len());
        assert(false);
    }
}

} // verus!
