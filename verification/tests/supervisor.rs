use twmd_batch::args::Args;
use twmd_batch::classify::{classify_line, user_not_found_message, LineClass};
use twmd_batch::decision::{build_command_args, login_requested, pre_run_gate, GateDecision};
use twmd_batch::policy::{must_terminate, next_pacing_delay, post_run_write, PolicyWrite};
use twmd_batch::runstate::{process_lines, LineSignal, RunResult};
use twmd_batch::sentinel::{
    abnormal_file_name, child_path, flag_file_name, join_lines, sentinel_path, SentinelFlag,
};

fn owned(lines: &[&str]) -> Vec<String> {
    lines.iter().map(|s| String::from(*s)).collect()
}

#[test]
fn classify_user_not_found() {
    assert_eq!(
        classify_line("User 'alice' not found", "alice"),
        LineClass::UserNotFound
    );
    assert_eq!(
        classify_line("twmd: User 'alice' not found (exiting)", "alice"),
        LineClass::UserNotFound
    );
}

#[test]
fn classify_user_not_found_is_keyed_to_target() {
    assert_eq!(
        classify_line("User 'bob' not found", "alice"),
        LineClass::Abnormal
    );
    assert_eq!(user_not_found_message("carol"), "User 'carol' not found");
}

#[test]
fn classify_each_category() {
    assert_eq!(classify_line("Logged in", "alice"), LineClass::LoggedInBanner);
    assert_eq!(
        classify_line("Rate limit exceeded", "alice"),
        LineClass::RateLimited
    );
    assert_eq!(
        classify_line("pic2.jpg already exists", "alice"),
        LineClass::AlreadyExists
    );
    assert_eq!(classify_line("error", "alice"), LineClass::GenericError);
    assert_eq!(
        classify_line("Downloaded pic1.jpg", "alice"),
        LineClass::Downloaded
    );
    assert_eq!(
        classify_line("garbled nonsense line", "alice"),
        LineClass::Abnormal
    );
}

#[test]
fn classify_exact_matches_are_not_subsumed() {
    assert_eq!(classify_line("Logged in now", "alice"), LineClass::Abnormal);
    assert_eq!(classify_line("errors", "alice"), LineClass::Abnormal);
}

#[test]
fn classify_priority_order() {
    assert_eq!(
        classify_line("Rate limit exceeded already exists", "alice"),
        LineClass::RateLimited
    );
    assert_eq!(
        classify_line("Downloaded pic already exists", "alice"),
        LineClass::AlreadyExists
    );
    assert_eq!(
        classify_line("User 'alice' not found Rate limit exceeded", "alice"),
        LineClass::UserNotFound
    );
}

#[test]
fn alice_run_counts_from_login_baseline() {
    let lines = owned(&[
        "Logged in",
        "Downloaded pic1.jpg",
        "pic2.jpg already exists",
        "error",
        "Downloaded pic3.jpg",
    ]);
    let (result, signal) = process_lines(&lines, "alice", false);
    assert_eq!(signal, LineSignal::Proceed);
    assert_eq!(result.total_lines, 4);
    assert_eq!(result.downloaded_count, 2);
    assert_eq!(result.exists_count, 1);
    assert_eq!(result.error_count, 1);
    assert!(result.abnormal_lines.is_empty());
    let effects = result.conclude(signal);
    assert!(!effects.write_perma_skip);
    assert!(!effects.write_temp_skip);
    assert!(!effects.write_needs_login);
    assert!(!effects.dump_abnormal);
}

#[test]
fn bob_run_records_abnormal_line() {
    let lines = owned(&["garbled nonsense line"]);
    let (result, signal) = process_lines(&lines, "bob", true);
    assert_eq!(signal, LineSignal::Proceed);
    assert_eq!(result.total_lines, 1);
    assert_eq!(result.abnormal_lines, vec![String::from("garbled nonsense line")]);
    let effects = result.conclude(signal);
    assert!(effects.dump_abnormal);
    assert!(effects.write_temp_skip);
    assert_eq!(join_lines(&result.abnormal_lines), "garbled nonsense line");
}

#[test]
fn low_failure_ratio_writes_temp_skip() {
    assert_eq!(post_run_write(20, 1), PolicyWrite::TempSkip);
    let result = RunResult {
        total_lines: 20,
        downloaded_count: 10,
        exists_count: 9,
        error_count: 1,
        abnormal_lines: Vec::new(),
    };
    let effects = result.conclude(LineSignal::Proceed);
    assert!(effects.write_temp_skip);
    assert!(!effects.write_needs_login);
}

#[test]
fn high_failure_ratio_writes_needs_login() {
    assert_eq!(post_run_write(20, 7), PolicyWrite::NeedsLogin);
    let result = RunResult {
        total_lines: 20,
        downloaded_count: 13,
        exists_count: 0,
        error_count: 7,
        abnormal_lines: Vec::new(),
    };
    let effects = result.conclude(LineSignal::Proceed);
    assert!(effects.write_needs_login);
    assert!(!effects.write_temp_skip);
}

#[test]
fn middle_band_writes_nothing() {
    assert_eq!(post_run_write(20, 3), PolicyWrite::NoWrite);
    assert_eq!(post_run_write(4, 1), PolicyWrite::NoWrite);
}

#[test]
fn no_counted_output_forces_login() {
    assert_eq!(post_run_write(0, 0), PolicyWrite::NeedsLogin);
    assert_eq!(post_run_write(-1, 0), PolicyWrite::NeedsLogin);
}

#[test]
fn classifier_is_idempotent() {
    let lines = owned(&[
        "Logged in",
        "Downloaded pic1.jpg",
        "strange output",
        "error",
        "another strange line",
    ]);
    let (first, first_signal) = process_lines(&lines, "alice", false);
    let (second, second_signal) = process_lines(&lines, "alice", false);
    assert_eq!(first_signal, second_signal);
    assert_eq!(first.total_lines, second.total_lines);
    assert_eq!(first.downloaded_count, second.downloaded_count);
    assert_eq!(first.exists_count, second.exists_count);
    assert_eq!(first.error_count, second.error_count);
    assert_eq!(first.abnormal_lines, second.abnormal_lines);
}

#[test]
fn temp_skip_window_round_trip() {
    let written = 1_000_000u64;
    let after_23h = written + 23 * 3600;
    let after_25h = written + 25 * 3600;
    assert_eq!(
        pre_run_gate(false, false, Some(after_23h - written)),
        GateDecision::TempSkipped
    );
    assert_eq!(
        pre_run_gate(false, false, Some(after_25h - written)),
        GateDecision::Eligible
    );
    assert_eq!(pre_run_gate(false, false, Some(86399)), GateDecision::TempSkipped);
    assert_eq!(pre_run_gate(false, false, Some(86400)), GateDecision::Eligible);
}

#[test]
fn gate_precedence() {
    assert_eq!(pre_run_gate(true, false, Some(0)), GateDecision::PermaSkipped);
    assert_eq!(pre_run_gate(true, true, None), GateDecision::PermaSkipped);
    assert_eq!(pre_run_gate(false, true, Some(0)), GateDecision::Eligible);
    assert_eq!(pre_run_gate(false, false, None), GateDecision::Eligible);
}

#[test]
fn rate_limit_stretches_pacing_delay() {
    assert_eq!(next_pacing_delay(LineSignal::StopRateLimited, 15), 450);
    assert_eq!(next_pacing_delay(LineSignal::Proceed, 15), 15);
    assert_eq!(next_pacing_delay(LineSignal::StopUserNotFound, 15), 15);
    assert!(must_terminate(LineSignal::StopRateLimited));
    assert!(must_terminate(LineSignal::StopUserNotFound));
    assert!(!must_terminate(LineSignal::Proceed));
}

#[test]
fn user_not_found_stops_the_run_and_marks_perma_skip() {
    let lines = owned(&[
        "Downloaded a.jpg",
        "User 'carol' not found",
        "Downloaded b.jpg",
    ]);
    let (result, signal) = process_lines(&lines, "carol", true);
    assert_eq!(signal, LineSignal::StopUserNotFound);
    assert_eq!(result.total_lines, 2);
    assert_eq!(result.downloaded_count, 1);
    let effects = result.conclude(signal);
    assert!(effects.write_perma_skip);
    assert!(!effects.write_temp_skip);
    assert!(!effects.write_needs_login);
    assert!(!effects.dump_abnormal);
}

#[test]
fn rate_limit_stops_the_run() {
    let lines = owned(&[
        "pic already exists",
        "Rate limit exceeded",
        "Downloaded x.jpg",
    ]);
    let (result, signal) = process_lines(&lines, "dave", true);
    assert_eq!(signal, LineSignal::StopRateLimited);
    assert_eq!(result.total_lines, 2);
    assert_eq!(result.exists_count, 1);
    assert_eq!(result.downloaded_count, 0);
    let effects = result.conclude(signal);
    assert!(!effects.write_perma_skip);
    assert!(effects.write_temp_skip);
}

#[test]
fn command_args_full_shape() {
    let args = build_command_args("alice", true, false);
    let expected = ["-B", "--login", "--all", "--update", "--user", "alice"];
    assert_eq!(args.len(), expected.len());
    for (got, want) in args.iter().zip(expected.iter()) {
        assert_eq!(got, want);
    }
}

#[test]
fn command_args_optional_flags() {
    let args = build_command_args("bob", false, true);
    let expected = ["-B", "--all", "--update", "--retweet-only", "--user", "bob"];
    assert_eq!(args.len(), expected.len());
    for (got, want) in args.iter().zip(expected.iter()) {
        assert_eq!(got, want);
    }
}

#[test]
fn sentinel_paths() {
    assert_eq!(sentinel_path("alice", SentinelFlag::PermaSkip), "alice/.perm_skip");
    assert_eq!(sentinel_path("alice", SentinelFlag::TempSkip), "alice/.skip");
    assert_eq!(sentinel_path("alice", SentinelFlag::NeedsLogin), "alice/.login");
    assert_eq!(
        sentinel_path("alice", SentinelFlag::RetweetOnly),
        "alice/.retweet_only"
    );
    assert_eq!(flag_file_name(SentinelFlag::TempSkip), ".skip");
    assert_eq!(abnormal_file_name(), ".abnormal");
    assert_eq!(child_path("bob", "img"), "bob/img");
    assert_eq!(child_path("bob", "video"), "bob/video");
}

#[test]
fn join_lines_shapes() {
    assert_eq!(join_lines(&owned(&[])), "");
    assert_eq!(join_lines(&owned(&["solo"])), "solo");
    assert_eq!(join_lines(&owned(&["a", "b", "c"])), "a\nb\nc");
}

#[test]
fn login_request_rules() {
    assert!(login_requested(false, false));
    assert!(login_requested(false, true));
    assert!(login_requested(true, true));
    assert!(!login_requested(true, false));
}

#[test]
fn skip_list_matches_whole_names() {
    let args = Args {
        no_login: false,
        sleep: 15,
        ignore_skip_file: false,
        skip_dirs: owned(&["alice", "bob"]),
    };
    assert!(args.skips("alice"));
    assert!(args.skips("bob"));
    assert!(!args.skips("carol"));
    assert!(!args.skips("ali"));
}
