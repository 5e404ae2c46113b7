use mopt_cmplog::cli::CliArgs;
use mopt_cmplog::startup::{begin, start, Failure, FuzzPlan, Rejection, Step};
use mopt_cmplog::timeout::{parse_millis, Timeout};

fn args(out: Option<&str>, input: Option<&str>, timeout: &str, remaining: &[&str]) -> CliArgs {
    CliArgs {
        out: out.map(String::from),
        input: input.map(String::from),
        tokens: Some("dict".to_string()),
        timeout: timeout.to_string(),
        remaining: remaining.iter().map(|w| w.to_string()).collect(),
    }
}

fn settle(args: CliArgs, created: bool, out_is_dir: bool, in_is_dir: bool) -> Step {
    let mut step = begin(args);
    loop {
        step = match step {
            Step::CreateOutDir(pending) => pending.created(created),
            Step::CheckOutDir(pending) => pending.checked(out_is_dir),
            Step::CheckInDir(pending) => pending.checked(in_is_dir),
            other => return other,
        };
    }
}

fn fuzzes(step: Step) -> FuzzPlan {
    match step {
        Step::Fuzz(plan) => plan,
        other => panic!("{:?}", other),
    }
}

#[test]
fn inputs_to_execute_come_first() {
    match settle(args(None, None, "x", &["a", "b"]), false, false, false) {
        Step::RunTestcases(files) => assert_eq!(files, vec!["a".to_string(), "b".to_string()]),
        other => panic!("{:?}", other),
    }
}

#[test]
fn fuzzing_starts_with_what_was_asked_for() {
    let plan = fuzzes(settle(args(Some("o"), Some("i"), "1200", &[]), true, false, true));
    assert_eq!(plan.out_dir, "o");
    assert_eq!(plan.corpus, "queue");
    assert_eq!(plan.objectives, "crashes");
    assert_eq!(plan.seed_dir, "i");
    assert_eq!(plan.token_file.as_deref(), Some("dict"));
    assert_eq!(plan.timeout_ms, 1200);
    assert_eq!(plan.timeout(), Timeout { secs: 1, subsec_millis: 200 });
    assert_eq!(plan.tracing_timeout(), Timeout { secs: 12, subsec_millis: 0 });
}

#[test]
fn an_output_directory_may_be_there_already() {
    let plan = fuzzes(settle(args(Some("o"), Some("i"), "7", &[]), false, true, true));
    assert_eq!(plan.timeout_ms, 7);
}

#[test]
fn output_directory_is_created_before_the_input_is_looked_at() {
    match begin(args(Some("o"), None, "7", &[])) {
        Step::CreateOutDir(pending) => {
            assert_eq!(pending.out, "o");
            match pending.created(true) {
                Step::Fail(failure) => assert_eq!(failure, Failure::InputMissing),
                other => panic!("{:?}", other),
            }
        }
        other => panic!("{:?}", other),
    }
}

#[test]
fn a_missing_output_directory_fails() {
    match settle(args(None, Some("i"), "7", &[]), true, true, true) {
        Step::Fail(failure) => {
            assert_eq!(failure, Failure::OutputMissing);
            assert_eq!(failure.message(), "The --output parameter is missing");
        }
        other => panic!("{:?}", other),
    }
}

#[test]
fn a_missing_input_directory_fails() {
    match settle(args(Some("o"), None, "7", &[]), false, true, true) {
        Step::Fail(failure) => {
            assert_eq!(failure, Failure::InputMissing);
            assert_eq!(failure.message(), "The --input parameter is missing");
        }
        other => panic!("{:?}", other),
    }
}

#[test]
fn a_file_in_the_place_of_the_output_directory_is_rejected() {
    match settle(args(Some("o"), Some("i"), "7", &[]), false, false, true) {
        Step::Reject(Rejection::OutDirInvalid(path)) => assert_eq!(path, "o"),
        other => panic!("{:?}", other),
    }
}

#[test]
fn an_input_directory_that_is_none_is_rejected() {
    match settle(args(Some("o"), Some("i"), "bad", &[]), true, false, false) {
        Step::Reject(Rejection::InDirInvalid(path)) => assert_eq!(path, "i"),
        other => panic!("{:?}", other),
    }
}

#[test]
fn a_timeout_that_is_no_number_fails() {
    match settle(args(Some("o"), Some("i"), "1.5s", &[]), true, false, true) {
        Step::Fail(failure) => {
            assert_eq!(failure, Failure::TimeoutInvalid);
            assert_eq!(failure.message(), "Could not parse timeout in milliseconds");
        }
        other => panic!("{:?}", other),
    }
}

#[test]
fn milliseconds_are_read_as_std_reads_them() {
    for text in [
        "0", "7", "1200", "+5", "007", "+0", "18446744073709551615", "18446744073709551616",
        "99999999999999999999999", "", "+", "-", "-1", "-0", "++1", "1 ", " 1", "1_000", "12x",
        "0x10", "1.0", "\u{0663}", "+18446744073709551615", "000000000000000000000000001",
    ] {
        assert_eq!(parse_millis(text), text.parse::<u64>().ok(), "{:?}", text);
    }
    assert_eq!(parse_millis("1200"), Some(1200));
}

#[test]
fn timeouts_are_scaled_exactly() {
    assert_eq!(Timeout::from_millis(1999), Timeout { secs: 1, subsec_millis: 999 });
    assert_eq!(
        Timeout::from_millis(1999).times(10),
        Some(Timeout { secs: 19, subsec_millis: 990 })
    );
    assert_eq!(Timeout::from_millis(5).times(0), Some(Timeout { secs: 0, subsec_millis: 0 }));
    let longest = Timeout::from_millis(u64::MAX);
    assert_eq!(longest, Timeout { secs: 18446744073709551, subsec_millis: 615 });
    assert_eq!(
        longest.times(10),
        Some(Timeout { secs: 184467440737095516, subsec_millis: 150 })
    );
    let full = Timeout { secs: u64::MAX, subsec_millis: 999 };
    assert_eq!(full.times(1), Some(full));
    assert_eq!(full.times(2), None);
}

fn line(words: &[&str]) -> Vec<String> {
    words.iter().map(|w| w.to_string()).collect()
}

#[test]
fn a_written_line_leads_to_its_first_step() {
    match start(&line(&["fuzzer", "-o", "finds", "-i", "seeds"])).unwrap() {
        Step::CreateOutDir(pending) => {
            assert_eq!(pending.out, "finds");
            assert_eq!(pending.input.as_deref(), Some("seeds"));
            assert_eq!(pending.tokens, None);
            assert_eq!(pending.timeout, "1200");
            let plan = fuzzes(match pending.created(true) {
                Step::CheckInDir(pending) => pending.checked(true),
                other => other,
            });
            assert_eq!(plan.timeout_ms, 1200);
        }
        other => panic!("{:?}", other),
    }
    match start(&line(&["fuzzer", "-o", "finds", "crash"])).unwrap() {
        Step::RunTestcases(files) => assert_eq!(files, line(&["crash"])),
        other => panic!("{:?}", other),
    }
    match start(&line(&["fuzzer"])).unwrap() {
        Step::Fail(failure) => assert_eq!(failure, Failure::OutputMissing),
        other => panic!("{:?}", other),
    }
    assert!(start(&line(&["fuzzer", "--what"])).is_err());
}
