//! How a fuzzing session gets under way.
//!
//! A session is a process that is started anew, with the state of the one before, each
//! time the target takes it down. What has been found before is kept: only a session
//! without any corpus reads the initial inputs.
use vstd::prelude::*;

verus! {

/// How the launch of a session turned out.
#[derive(Debug, Clone, Copy, PartialEq, Eq, Structural)]
pub enum Launch {
    /// This process is the one to fuzz.
    Started,
    /// This process only watched over the session, which is over.
    ShuttingDown,
    /// The session could not be launched.
    Failed,
}

/// What is to be done next.
#[derive(Debug, Clone, Copy, PartialEq, Eq, Structural)]
pub enum SessionStep {
    /// Set everything up; then go on with [`after_set_up`].
    SetUp,
    /// Read the initial inputs; then go on with [`after_import`].
    ImportSeeds,
    /// Fuzz. Where initial inputs were read, first say how many there are.
    Fuzz { imported: bool },
    /// End; all is well.
    Return,
    /// Say that no initial inputs could be read, and leave with success.
    LeaveWithoutSeeds,
    /// Fail: the restarter could not be set up.
    Fail,
}

pub open spec fn after_launch_spec(launch: Launch) -> SessionStep {
    match launch {
        Launch::Started => SessionStep::SetUp,
        Launch::ShuttingDown => SessionStep::Return,
        Launch::Failed => SessionStep::Fail,
    }
}

/// Goes on after the launch.
pub fn after_launch(launch: Launch) -> (r: SessionStep)
    ensures
        r == after_launch_spec(launch),
        r == SessionStep::SetUp <==> launch == Launch::Started,
        r == SessionStep::Return <==> launch == Launch::ShuttingDown,
        r == SessionStep::Fail <==> launch == Launch::Failed,
{
    match launch {
        Launch::Started => SessionStep::SetUp,
        Launch::ShuttingDown => SessionStep::Return,
        Launch::Failed => SessionStep::Fail,
    }
}

pub open spec fn after_set_up_spec(corpus_count: nat) -> SessionStep {
    if corpus_count == 0 {
        SessionStep::ImportSeeds
    } else {
        SessionStep::Fuzz { imported: false }
    }
}

/// Goes on once everything is set up, with so many entries in the corpus.
pub fn after_set_up(corpus_count: usize) -> (r: SessionStep)
    ensures
        r == after_set_up_spec(corpus_count as nat),
        corpus_count == 0 ==> r == SessionStep::ImportSeeds,
        corpus_count > 0 ==> r == (SessionStep::Fuzz { imported: false }),
{
    if corpus_count < 1 {
        SessionStep::ImportSeeds
    } else {
        SessionStep::Fuzz { imported: false }
    }
}

pub open spec fn after_import_spec(loaded: bool) -> SessionStep {
    if loaded {
        SessionStep::Fuzz { imported: true }
    } else {
        SessionStep::LeaveWithoutSeeds
    }
}

/// Goes on, given whether the initial inputs could be read.
pub fn after_import(loaded: bool) -> (r: SessionStep)
    ensures
        r == after_import_spec(loaded),
        loaded ==> r == (SessionStep::Fuzz { imported: true }),
        !loaded ==> r == SessionStep::LeaveWithoutSeeds,
{
    if loaded {
        SessionStep::Fuzz { imported: true }
    } else {
        SessionStep::LeaveWithoutSeeds
    }
}

/// The step that a session comes to when its launch turns out as `launch`, its corpus has
/// `corpus_count` entries, and reading the initial inputs turns out as `loaded`.
pub open spec fn session_end(launch: Launch, corpus_count: nat, loaded: bool) -> SessionStep {
    match after_launch_spec(launch) {
        SessionStep::SetUp => match after_set_up_spec(corpus_count) {
            SessionStep::ImportSeeds => after_import_spec(loaded),
            step => step,
        },
        step => step,
    }
}

/// A session fuzzes exactly when it was started and has something to start from: a corpus,
/// or initial inputs. Initial inputs are read only where there is no corpus. What
/// comes of reading them makes no difference to a session that has one.
pub proof fn lemma_session_fuzzes_with_inputs(launch: Launch, corpus_count: nat, loaded: bool)
    ensures
        ({
            let end = session_end(launch, corpus_count, loaded);
            &&& end is Fuzz <==> launch == Launch::Started && (corpus_count > 0 || loaded)
            &&& end is Fuzz ==> (end->imported <==> corpus_count == 0)
            &&& end == SessionStep::Return <==> launch == Launch::ShuttingDown
            &&& end == SessionStep::Fail <==> launch == Launch::Failed
            &&& end == SessionStep::LeaveWithoutSeeds <==> launch == Launch::Started
                && corpus_count == 0 && !loaded
            &&& corpus_count > 0 ==> end == session_end(launch, corpus_count, !loaded)
        }),
{
}

/// A session that goes on from step to step does not fuzz without an input to start from, and
/// never reads the initial inputs over a corpus that is there.
pub proof fn lemma_steps_of_a_session(
    launch: Launch,
    corpus_count: usize,
    loaded: bool,
    first: SessionStep,
    second: SessionStep,
    third: SessionStep,
)
    requires
        call_ensures(after_launch, (launch,), first),
        call_ensures(after_set_up, (corpus_count,), second),
        call_ensures(after_import, (loaded,), third),
    ensures
        first is SetUp <==> launch is Started,
        first is Return <==> launch is ShuttingDown,
        first is Fail <==> launch is Failed,
        second is ImportSeeds <==> corpus_count == 0,
        second is Fuzz <==> corpus_count > 0,
        second is Fuzz ==> !second->imported,
        third is Fuzz <==> loaded,
        third is Fuzz ==> third->imported,
        third is LeaveWithoutSeeds <==> !loaded,
{
}

} // verus!
