use twmd_batch::text::{contains_str, ends_with_str, starts_with_str, text_eq};
use twmd_batch::timefmt::secs_to_human;

#[test]
fn seconds_under_a_minute() {
    assert_eq!(secs_to_human(0), "0s");
    assert_eq!(secs_to_human(5), "5s");
    assert_eq!(secs_to_human(45), "45s");
    assert_eq!(secs_to_human(59), "59s");
}

#[test]
fn minutes_under_an_hour() {
    assert_eq!(secs_to_human(60), "1m");
    assert_eq!(secs_to_human(119), "1m");
    assert_eq!(secs_to_human(120), "2m");
    assert_eq!(secs_to_human(3599), "59m");
}

#[test]
fn hours_above() {
    assert_eq!(secs_to_human(3600), "1h");
    assert_eq!(secs_to_human(82800), "23h");
    assert_eq!(secs_to_human(90000), "25h");
    assert_eq!(secs_to_human(172800), "48h");
}

#[test]
fn substring_helpers() {
    assert!(contains_str("a Rate limit exceeded b", "Rate limit exceeded"));
    assert!(!contains_str("rate limit exceeded", "Rate limit exceeded"));
    assert!(contains_str("anything", ""));
    assert!(starts_with_str("Downloaded x", "Downloaded"));
    assert!(!starts_with_str("xDownloaded", "Downloaded"));
    assert!(ends_with_str("pic already exists", "already exists"));
    assert!(!ends_with_str("already exists pic", "already exists"));
    assert!(text_eq("error", "error"));
    assert!(!text_eq("error", "error "));
}
