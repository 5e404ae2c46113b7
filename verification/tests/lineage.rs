use mopt_cmplog::clock::{elapsed_ms, ClockError};
use mopt_cmplog::lineage::{LineageFeedback, LineageMutatorWrap, MutationLog, ParentInfo};
use std::borrow::Cow;

const MS: u128 = 1_000_000;

#[test]
fn elapsed_counts_whole_milliseconds() {
    assert_eq!(elapsed_ms(5 * MS, 5 * MS), Ok(0));
    assert_eq!(elapsed_ms(5 * MS, 6 * MS - 1), Ok(0));
    assert_eq!(elapsed_ms(5 * MS, 6 * MS), Ok(1));
    assert_eq!(elapsed_ms(0, 1_700_000_000_123_456_789), Ok(1_700_000_000_123));
}

#[test]
fn elapsed_agrees_with_std_durations() {
    let start = std::time::Duration::new(1_700_000_000, 999_999_999);
    let now = std::time::Duration::new(1_700_000_003, 1);
    let expected = (now - start).as_millis() as u64;
    assert_eq!(elapsed_ms(start.as_nanos(), now.as_nanos()), Ok(expected));
    assert_eq!(expected, 2_000);
}

#[test]
fn elapsed_is_cut_to_sixty_four_bits() {
    let span: u128 = (u64::MAX as u128 + 1 + 42) * MS;
    assert_eq!(elapsed_ms(0, span), Ok(42));
    assert_eq!(elapsed_ms(0, u64::MAX as u128 * MS), Ok(u64::MAX));
}

#[test]
fn a_clock_behind_the_start_is_an_error() {
    assert_eq!(elapsed_ms(10, 9), Err(ClockError));
}

#[test]
fn later_readings_are_not_smaller() {
    let start: u128 = 77;
    let mut last: u64 = 0;
    for step in 0..50u128 {
        let ms = elapsed_ms(start, start + step * 333_333).unwrap();
        assert!(ms >= last);
        last = ms;
    }
    assert_eq!(last, 16);
}

#[test]
fn wrapper_is_named_after_its_mutator() {
    let wrap = LineageMutatorWrap::new(3u8, "StdMOptMutator");
    assert_eq!(wrap.name(), &Cow::Borrowed("LineageMutatorWrap[StdMOptMutator]"));
    let empty = LineageMutatorWrap::new((), "");
    assert_eq!(empty.name().as_ref(), "LineageMutatorWrap[]");
}

#[test]
fn feedback_has_its_name_and_keeps_nothing() {
    let feedback = LineageFeedback::new();
    assert_eq!(feedback.name().as_ref(), "LineageFeedback");
    assert!(!feedback.is_interesting());
}

#[test]
fn defaults_are_zero() {
    let log = MutationLog::default();
    assert!(log.names.is_empty());
    assert_eq!((log.execs, log.elapsed_ms), (0, 0));
    let info = ParentInfo::default();
    assert_eq!(info.parent_id, None);
    assert_eq!(info.parent_file, None);
    assert_eq!((info.execs, info.elapsed_ms), (0, 0));
}

#[test]
fn record_makes_a_log_where_there_is_none() {
    let mut log = None;
    MutationLog::record(&mut log, 12, 34);
    let log = log.unwrap();
    assert!(log.names.is_empty());
    assert_eq!((log.execs, log.elapsed_ms), (12, 34));
}

#[test]
fn record_clears_the_names_of_an_old_log() {
    let mut log = Some(MutationLog {
        names: vec![Cow::Borrowed("BitFlip"), Cow::Owned("ByteAdd".to_string())],
        execs: 1,
        elapsed_ms: 2,
    });
    MutationLog::record(&mut log, 3, 4);
    let log = log.unwrap();
    assert!(log.names.is_empty());
    assert_eq!((log.execs, log.elapsed_ms), (3, 4));
}

#[test]
fn mutation_takes_a_snapshot_and_gives_out_the_mutator() {
    let mut wrap = LineageMutatorWrap::new(vec![1, 2], "inner");
    let mut log = None;
    match wrap.mutate_at(&mut log, 9, 100 * MS, 350 * MS) {
        Ok(inner) => inner.push(3),
        Err(_) => panic!("the clock is ahead of the start"),
    }
    assert_eq!(wrap.inner_mut(), &vec![1, 2, 3]);
    let log = log.unwrap();
    assert_eq!((log.execs, log.elapsed_ms), (9, 250));
    assert_eq!(wrap.name().as_ref(), "LineageMutatorWrap[inner]");
}

#[test]
fn mutation_touches_nothing_when_the_clock_is_behind() {
    let mut wrap = LineageMutatorWrap::new(5u8, "inner");
    let mut log = None;
    assert_eq!(wrap.mutate_at(&mut log, 9, 2, 1).err(), Some(ClockError));
    assert!(log.is_none());
    assert_eq!(*wrap.inner_mut(), 5);
}

#[test]
fn mutation_reads_the_real_clock() {
    let mut wrap = LineageMutatorWrap::new(5u8, "inner");
    let mut log = None;
    let before = std::time::SystemTime::now().duration_since(std::time::UNIX_EPOCH).unwrap();
    *wrap.mutate(&mut log, 1, 0).unwrap() += 1;
    let after = std::time::SystemTime::now().duration_since(std::time::UNIX_EPOCH).unwrap();
    let taken = log.unwrap();
    assert!(taken.elapsed_ms as u128 >= before.as_millis());
    assert!(taken.elapsed_ms as u128 <= after.as_millis());
    assert_eq!(*wrap.inner_mut(), 6);
    let mut log = None;
    assert_eq!(wrap.mutate(&mut log, 1, u128::MAX).err(), Some(ClockError));
    assert!(log.is_none());
}

#[test]
fn parent_is_known_only_where_the_lookup_finds_one() {
    let feedback = LineageFeedback::new();
    assert_eq!(feedback.parent::<()>(Ok(Some(7))), Some(7));
    assert_eq!(feedback.parent::<()>(Ok(None)), None);
    assert_eq!(feedback.parent(Err("no stage is running")), None);
}

#[test]
fn child_carries_what_the_mutator_recorded() {
    let feedback = LineageFeedback::new();
    let mut log = None;
    let mut wrap = LineageMutatorWrap::new((), "inner");
    wrap.mutate_at(&mut log, 40, MS, 8 * MS).unwrap();
    let file: Result<Option<String>, ()> = Ok(Some("id_3".to_string()));
    let info = feedback
        .append_metadata_at(Some(3), file, log.as_ref(), 41, MS, 50 * MS)
        .unwrap()
        .unwrap();
    assert_eq!(info.parent_id, Some(3));
    assert_eq!(info.parent_file.as_deref(), Some("id_3"));
    assert_eq!((info.execs, info.elapsed_ms), (40, 7));
}

#[test]
fn child_carries_live_values_without_a_snapshot() {
    let feedback = LineageFeedback::new();
    let file: Result<Option<String>, &str> = Err("gone");
    let info = feedback
        .append_metadata_at(Some(usize::MAX), file, None, 99, MS, 50 * MS)
        .unwrap()
        .unwrap();
    assert_eq!(info.parent_id, Some(usize::MAX as u64));
    assert_eq!(info.parent_file, None);
    assert_eq!((info.execs, info.elapsed_ms), (99, 49));
}

#[test]
fn nothing_is_attached_without_a_parent() {
    let feedback = LineageFeedback::new();
    let log = MutationLog { names: vec![], execs: 1, elapsed_ms: 1 };
    let file: Result<Option<String>, ()> = Ok(Some("stray".to_string()));
    assert!(feedback.append_metadata_at(None, file, Some(&log), 9, 5, 1).unwrap().is_none());
    let file: Result<Option<String>, ()> = Ok(None);
    assert!(feedback.append_metadata(None, file, None, 9, u128::MAX).unwrap().is_none());
}

#[test]
fn live_values_need_a_clock_that_is_not_behind() {
    let feedback = LineageFeedback::new();
    let file: Result<Option<String>, ()> = Ok(None);
    assert_eq!(
        feedback.append_metadata_at(Some(1), file, None, 9, 5, 1).err(),
        Some(ClockError)
    );
    let file: Result<Option<String>, ()> = Ok(None);
    assert!(feedback.append_metadata(Some(1), file, None, 9, u128::MAX).is_err());
}

#[test]
fn live_values_come_from_the_real_clock() {
    let feedback = LineageFeedback::new();
    let file: Result<Option<String>, ()> = Ok(None);
    let before = std::time::SystemTime::now().duration_since(std::time::UNIX_EPOCH).unwrap();
    let info = feedback.append_metadata(Some(1), file, None, 9, 0).unwrap().unwrap();
    assert_eq!(info.execs, 9);
    assert!(info.elapsed_ms as u128 >= before.as_millis());
    let log = MutationLog { names: vec![], execs: 4, elapsed_ms: 5 };
    let file: Result<Option<String>, ()> = Ok(None);
    let info = feedback
        .append_metadata(Some(1), file, Some(&log), 5, u128::MAX)
        .unwrap()
        .unwrap();
    assert_eq!((info.execs, info.elapsed_ms), (4, 5));
}

#[test]
fn only_the_execution_of_the_mutated_input_lies_in_a_round() {
    let log = MutationLog { names: vec![], execs: 40, elapsed_ms: 7 };
    assert!(log.current(41));
    for execs in [0, 39, 40, 42, 43, u64::MAX] {
        assert!(!log.current(execs), "{}", execs);
    }
    let last = MutationLog { names: vec![], execs: u64::MAX, elapsed_ms: 7 };
    assert!(!last.current(0));
    assert!(!last.current(u64::MAX));
}

#[test]
fn child_carries_live_values_where_the_snapshot_is_stale() {
    let feedback = LineageFeedback::new();
    let log = MutationLog { names: vec![], execs: 10, elapsed_ms: 3 };
    for execs in [0, 10, 12, 13, 500] {
        let file: Result<Option<String>, ()> = Ok(Some("id_8".to_string()));
        let info = feedback
            .append_metadata_at(Some(8), file, Some(&log), execs, MS, 50 * MS)
            .unwrap()
            .unwrap();
        assert_eq!(info.parent_id, Some(8));
        assert_eq!(info.parent_file.as_deref(), Some("id_8"));
        assert_eq!((info.execs, info.elapsed_ms), (execs, 49));
    }
}

#[test]
fn a_find_between_two_rounds_is_told_by_the_live_state() {
    // A round of the wrapped mutator; then, on another entry, a traced execution and one of
    // a mutator that takes no snapshot; then the wrapped mutator again.
    let feedback = LineageFeedback::new();
    let mut wrap = LineageMutatorWrap::new((), "inner");
    let mut log = None;
    let attach = |log: &Option<MutationLog>, execs: u64, now: u128| {
        let file: Result<Option<String>, ()> = Ok(None);
        let info = feedback
            .append_metadata_at(Some(1), file, log.as_ref(), execs, 0, now)
            .unwrap()
            .unwrap();
        (info.execs, info.elapsed_ms)
    };
    wrap.mutate_at(&mut log, 100, 0, 10 * MS).unwrap();
    assert_eq!(attach(&log, 101, 12 * MS), (100, 10));
    assert_eq!(attach(&log, 103, 20 * MS), (103, 20));
    wrap.mutate_at(&mut log, 103, 0, 25 * MS).unwrap();
    assert_eq!(attach(&log, 104, 30 * MS), (103, 25));
}

#[test]
fn a_stale_snapshot_does_not_hide_a_clock_that_is_behind() {
    let feedback = LineageFeedback::new();
    let log = MutationLog { names: vec![], execs: 10, elapsed_ms: 3 };
    let file: Result<Option<String>, ()> = Ok(None);
    assert_eq!(
        feedback.append_metadata_at(Some(8), file, Some(&log), 500, 5, 1).err(),
        Some(ClockError)
    );
    let file: Result<Option<String>, ()> = Ok(None);
    assert!(feedback.append_metadata_at(Some(8), file, Some(&log), 11, 5, 1).is_ok());
    let before = std::time::SystemTime::now().duration_since(std::time::UNIX_EPOCH).unwrap();
    let file: Result<Option<String>, ()> = Ok(None);
    let info = feedback.append_metadata(Some(8), file, Some(&log), 500, 0).unwrap().unwrap();
    assert_eq!(info.execs, 500);
    assert!(info.elapsed_ms as u128 >= before.as_millis());
}
