//! Executing given inputs once each, without fuzzing.
use vstd::prelude::*;

verus! {

/// What the target's own set-up returns when it fails.
pub const INIT_FAILED: i32 = -1;

/// Said when the target's own set-up fails. Everything goes on regardless.
pub const INIT_WARNING: &'static str = "Warning: LLVMFuzzerInitialize failed with -1";

/// What there is to say about the code that the target's own set-up returned.
pub open spec fn init_warning_spec(code: i32) -> Option<&'static str> {
    if code == INIT_FAILED {
        Some(INIT_WARNING)
    } else {
        None
    }
}

/// What there is to say about the code that the target's own set-up returned.
pub fn init_warning(code: i32) -> (r: Option<&'static str>)
    ensures
        r == init_warning_spec(code),
        code == -1 ==> r is Some && r->0@ == "Warning: LLVMFuzzerInitialize failed with -1"@,
        code != -1 ==> r is None,
{
    if code == INIT_FAILED {
        Some(INIT_WARNING)
    } else {
        None
    }
}

/// One thing to do in a replay.
#[derive(Debug, PartialEq, Eq)]
pub enum ReplayAction {
    /// Say this.
    Warn(&'static str),
    /// Say that so many inputs are going to be executed.
    Announce(usize),
    /// Say that this file is executed, read it, and run the target on what is in it.
    Execute(String),
}

/// What is done before the first input of a replay.
pub open spec fn replay_opening(code: i32, count: nat) -> Seq<ReplayAction> {
    let announcement = seq![ReplayAction::Announce(count as usize)];
    match init_warning_spec(code) {
        Some(text) => seq![ReplayAction::Warn(text)] + announcement,
        None => announcement,
    }
}

/// A replay of `files` after a set-up that returned `code`.
pub open spec fn replay(code: i32, files: Seq<String>) -> Seq<ReplayAction> {
    replay_opening(code, files.len()) + files.map_values(|f: String| ReplayAction::Execute(f))
}

/// All there is to do in a replay of `files`, in its order, after the target's own set-up
/// has returned `code`.
pub fn replay_actions(code: i32, files: &Vec<String>) -> (r: Vec<ReplayAction>)
    ensures
        r@ == replay(code, files@),
        code == -1 ==> {
            &&& r@.len() == files@.len() + 2
            &&& r@[0] matches ReplayAction::Warn(text)
            &&& text@ == "Warning: LLVMFuzzerInitialize failed with -1"@
        },
        code != -1 ==> r@.len() == files@.len() + 1,
        r@[r@.len() - files@.len() - 1] == ReplayAction::Announce(files@.len() as usize),
        forall|i: int|
            0 <= i < files@.len() ==> r@[r@.len() - files@.len() + i] == ReplayAction::Execute(
                #[trigger] files@[i],
            ),
{
    let mut actions: Vec<ReplayAction> = Vec::new();
    if let Some(text) = init_warning(code) {
        actions.push(ReplayAction::Warn(text));
    }
    actions.push(ReplayAction::Announce(files.len()));
    let ghost opening = replay_opening(code, files@.len());
    assert(actions@ == opening);
    let mut i: usize = 0;
    while i < files.len()
        invariant
            i <= files.len(),
            actions@ == opening + files@.subrange(0, i as int).map_values(
                |f: String| ReplayAction::Execute(f),
            ),
        decreases files.len() - i,
    {
        actions.push(ReplayAction::Execute(files[i].clone()));
        i += 1;
    }
    assert(files@.subrange(0, files@.len() as int) == files@);
    actions
}

/// Every file that was named is executed once and in its turn, and nothing else is. Nothing
/// is executed before it has been said how many there are.
pub proof fn lemma_replay_executes_each_in_turn(code: i32, files: Seq<String>)
    ensures
        ({
            let opening = replay_opening(code, files.len());
            let all = replay(code, files);
            &&& all.len() == opening.len() + files.len()
            &&& forall|i: int| 0 <= i < opening.len() ==> !(#[trigger] opening[i] is Execute)
            &&& all.subrange(0, opening.len() as int) == opening
            &&& opening.last() == ReplayAction::Announce(files.len() as usize)
            &&& forall|i: int|
                0 <= i < files.len() ==> all[opening.len() + i] == ReplayAction::Execute(
                    #[trigger] files[i],
                )
        }),
{
    assert(replay(code, files).subrange(0, replay_opening(code, files.len()).len() as int)
        == replay_opening(code, files.len()));
}

/// Only a set-up that failed makes a difference to a replay, and only at its start: what it
/// adds is one warning, and all else is as after any other code.
pub proof fn lemma_a_failed_set_up_only_warns(
    code: i32,
    files: &Vec<String>,
    failed: Vec<ReplayAction>,
    other: Vec<ReplayAction>,
)
    requires
        code != -1,
        call_ensures(replay_actions, (-1i32, files), failed),
        call_ensures(replay_actions, (code, files), other),
    ensures
        failed@.len() == other@.len() + 1,
        failed@[0] is Warn,
        failed@.subrange(1, failed@.len() as int) == other@,
        forall|i: int| 0 <= i < other@.len() ==> !(#[trigger] other@[i] is Warn),
        other@[0] == ReplayAction::Announce(files@.len() as usize),
{
    assert forall|i: int| 0 <= i < other@.len() implies failed@[i + 1] == #[trigger] other@[i] && !(
    other@[i] is Warn) by {
        if i > 0 {
            assert(other@[i] == ReplayAction::Execute(files@[i - 1]));
            assert(failed@[i + 1] == ReplayAction::Execute(files@[i - 1]));
        }
    }
}

} // verus!
