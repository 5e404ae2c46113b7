use mopt_cmplog::cli::{command, CliArgs, DEFAULT_TIMEOUT, PROGRAM_NAME, PROGRAM_VERSION};

fn line(words: &[&str]) -> Vec<String> {
    words.iter().map(|w| w.to_string()).collect()
}

fn value(word: &str) -> Option<Vec<String>> {
    Some(vec![word.to_string()])
}

#[test]
fn short_flags_are_understood() {
    let args = CliArgs::parse(&line(&[
        "fuzzer", "-o", "out", "-i", "seeds", "-x", "dict", "-t", "77",
    ]))
    .unwrap();
    assert_eq!(args.out.as_deref(), Some("out"));
    assert_eq!(args.input.as_deref(), Some("seeds"));
    assert_eq!(args.tokens.as_deref(), Some("dict"));
    assert_eq!(args.timeout, "77");
    assert!(args.remaining.is_empty());
}

#[test]
fn long_flags_are_understood() {
    let args = CliArgs::parse(&line(&[
        "fuzzer", "--timeout=5", "--input", "s", "--tokens=d", "--output=o",
    ]))
    .unwrap();
    assert_eq!(args.out.as_deref(), Some("o"));
    assert_eq!(args.input.as_deref(), Some("s"));
    assert_eq!(args.tokens.as_deref(), Some("d"));
    assert_eq!(args.timeout, "5");
}

#[test]
fn bare_line_has_the_default_timeout_only() {
    let args = CliArgs::parse(&line(&["fuzzer"])).unwrap();
    assert_eq!(args.out, None);
    assert_eq!(args.input, None);
    assert_eq!(args.tokens, None);
    assert_eq!(args.timeout, "1200");
    assert!(args.remaining.is_empty());
    let args = CliArgs::parse(&vec![]).unwrap();
    assert_eq!(args.timeout, DEFAULT_TIMEOUT);
}

#[test]
fn a_free_word_is_an_input_to_execute() {
    let args = CliArgs::parse(&line(&["fuzzer", "-o", "out", "crash-1"])).unwrap();
    assert_eq!(args.out.as_deref(), Some("out"));
    assert_eq!(args.remaining, vec!["crash-1".to_string()]);
}

#[test]
fn lines_that_make_no_sense_are_turned_down() {
    for words in [
        &["fuzzer", "--nonsense"][..],
        &["fuzzer", "-o"][..],
        &["fuzzer", "one", "two"][..],
        &["fuzzer", "--help"][..],
        &["fuzzer", "--version"][..],
        &["fuzzer", "-o", "a", "-o", "b"][..],
    ] {
        let text = CliArgs::parse(&line(words)).err();
        assert!(text.is_some(), "{:?}", words);
        assert!(!text.unwrap().is_empty());
    }
}

#[test]
fn command_is_described_in_order() {
    let command = command();
    assert_eq!(command.name, PROGRAM_NAME);
    assert_eq!(command.version, PROGRAM_VERSION);
    assert_eq!(command.author, "AFLplusplus team");
    assert_eq!(command.about, "LibAFL-based fuzzer for Fuzzbench");
    let ids: Vec<&str> = command.args.iter().map(|a| a.id).collect();
    assert_eq!(ids, ["out", "in", "tokens", "timeout", "remaining"]);
    let shorts: Vec<Option<char>> = command.args.iter().map(|a| a.short).collect();
    assert_eq!(shorts, [Some('o'), Some('i'), Some('x'), Some('t'), None]);
    let longs: Vec<Option<&str>> = command.args.iter().map(|a| a.long).collect();
    assert_eq!(
        longs,
        [Some("output"), Some("input"), Some("tokens"), Some("timeout"), None]
    );
    assert_eq!(command.args[3].default_value, Some("1200"));
}

#[test]
fn values_are_sorted_out_by_their_place() {
    let args = CliArgs::from_values(vec![
        value("a"),
        None,
        Some(vec![]),
        Some(vec!["4".to_string(), "5".to_string()]),
        Some(vec!["x".to_string(), "y".to_string()]),
    ]);
    assert_eq!(args.out.as_deref(), Some("a"));
    assert_eq!(args.input, None);
    assert_eq!(args.tokens, None);
    assert_eq!(args.timeout, "4");
    assert_eq!(args.remaining, vec!["x".to_string(), "y".to_string()]);
    let args = CliArgs::from_values(vec![None, value("b"), value("c"), value("d"), None]);
    assert_eq!(args.out, None);
    assert_eq!(args.input.as_deref(), Some("b"));
    assert_eq!(args.tokens.as_deref(), Some("c"));
    assert_eq!(args.timeout, "d");
    assert!(args.remaining.is_empty());
}
