use mopt_cmplog::replay::{init_warning, replay_actions, ReplayAction};
use mopt_cmplog::session::{after_import, after_launch, after_set_up, Launch, SessionStep};

#[test]
fn only_minus_one_is_warned_about() {
    assert_eq!(init_warning(-1), Some("Warning: LLVMFuzzerInitialize failed with -1"));
    for code in [0, 1, -2, i32::MAX, i32::MIN] {
        assert_eq!(init_warning(code), None);
    }
}

#[test]
fn replay_goes_through_the_files_in_order() {
    let files = vec!["b".to_string(), "a".to_string(), "b".to_string()];
    assert_eq!(
        replay_actions(0, &files),
        vec![
            ReplayAction::Announce(3),
            ReplayAction::Execute("b".to_string()),
            ReplayAction::Execute("a".to_string()),
            ReplayAction::Execute("b".to_string()),
        ]
    );
}

#[test]
fn replay_goes_on_after_a_failed_set_up() {
    let files = vec!["only".to_string()];
    assert_eq!(
        replay_actions(-1, &files),
        vec![
            ReplayAction::Warn("Warning: LLVMFuzzerInitialize failed with -1"),
            ReplayAction::Announce(1),
            ReplayAction::Execute("only".to_string()),
        ]
    );
    assert_eq!(replay_actions(0, &vec![]), vec![ReplayAction::Announce(0)]);
}

#[test]
fn launch_decides_who_fuzzes() {
    assert_eq!(after_launch(Launch::Started), SessionStep::SetUp);
    assert_eq!(after_launch(Launch::ShuttingDown), SessionStep::Return);
    assert_eq!(after_launch(Launch::Failed), SessionStep::Fail);
}

#[test]
fn seeds_are_read_only_without_a_corpus() {
    assert_eq!(after_set_up(0), SessionStep::ImportSeeds);
    assert_eq!(after_set_up(1), SessionStep::Fuzz { imported: false });
    assert_eq!(after_set_up(usize::MAX), SessionStep::Fuzz { imported: false });
}

#[test]
fn a_session_without_seeds_leaves() {
    assert_eq!(after_import(true), SessionStep::Fuzz { imported: true });
    assert_eq!(after_import(false), SessionStep::LeaveWithoutSeeds);
}
