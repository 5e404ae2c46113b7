//! Where each corpus entry came from.
//!
//! A mutator leaves a snapshot of the run behind when it starts on an input. When a new
//! entry is about to be stored, that snapshot is attached to it together with the entry
//! it was mutated from. The names of the single mutations are not kept: MOpt stacks them
//! internally, so the list in a snapshot is always empty.
//!
//! Not every mutator takes a snapshot. The one that replaces input by what it was compared
//! with does not, so an entry that it finds may come upon the snapshot of a round that is
//! over. Such a snapshot says nothing about the entry, which then carries the live values,
//! as it does where there is no snapshot at all.
use std::borrow::Cow;
use vstd::prelude::*;

use crate::clock::{elapsed_ms, read_clock, ClockError};

verus! {

/// How many executions had been done, and how much time had passed, when the mutator was
/// last started. The list of mutation names stays empty.
#[derive(Debug)]
pub struct MutationLog {
    pub names: Vec<Cow<'static, str>>,
    pub execs: u64,
    pub elapsed_ms: u64,
}

impl MutationLog {
    /// This log was taken at `execs` executions, `elapsed_ms` milliseconds into the run.
    pub open spec fn taken_at(self, execs: u64, elapsed_ms: u64) -> bool {
        &&& self.names@ == Seq::<Cow<'static, str>>::empty()
        &&& self.execs == execs
        &&& self.elapsed_ms == elapsed_ms
    }

    /// This log belongs to the round of mutation that is under way when `execs` executions
    /// have been done: the only execution since it was taken is that of the mutated input.
    ///
    /// With more executions the round that it was taken in is over. Where there has been
    /// none, the mutated input has not been run, so no entry can be its child.
    pub open spec fn is_current(self, execs: u64) -> bool {
        self.execs + 1 == execs
    }

    /// Whether this log belongs to the round that is under way at `execs` executions.
    pub fn current(&self, execs: u64) -> (r: bool)
        ensures
            r == self.is_current(execs),
            r <==> execs == self.execs + 1,
    {
        execs > 0 && self.execs == execs - 1
    }

    /// Puts a fresh snapshot in the place of whatever log there was.
    pub fn record(log: &mut Option<MutationLog>, execs: u64, elapsed_ms: u64)
        ensures
            *final(log) matches Some(taken) && taken.taken_at(execs, elapsed_ms),
            *final(log) matches Some(taken) && taken.names@.len() == 0 && taken.execs == execs
                && taken.elapsed_ms == elapsed_ms,
    {
        match log {
            Some(taken) => {
                taken.names.clear();
                taken.execs = execs;
                taken.elapsed_ms = elapsed_ms;
            },
            None => {
                *log = Some(MutationLog { names: Vec::new(), execs, elapsed_ms });
            },
        }
    }
}

impl Default for MutationLog {
    fn default() -> (r: Self)
        ensures
            r.taken_at(0, 0),
            r.names@.len() == 0,
            r.execs == 0,
            r.elapsed_ms == 0,
    {
        MutationLog { names: Vec::new(), execs: 0, elapsed_ms: 0 }
    }
}

/// What is stored with a corpus entry: the entry it was mutated from, the file of that
/// entry, and how far the run had come.
#[derive(Debug)]
pub struct ParentInfo {
    pub parent_id: Option<u64>,
    pub parent_file: Option<String>,
    pub execs: u64,
    pub elapsed_ms: u64,
}

impl Default for ParentInfo {
    fn default() -> (r: Self)
        ensures
            r == (ParentInfo { parent_id: None, parent_file: None, execs: 0, elapsed_ms: 0 }),
    {
        ParentInfo { parent_id: None, parent_file: None, execs: 0, elapsed_ms: 0 }
    }
}

/// A mutator that leaves a [`MutationLog`] behind each time it is started.
pub struct LineageMutatorWrap<M> {
    name: Cow<'static, str>,
    inner: M,
}

/// The name of a wrapper around a mutator called `inner`.
pub open spec fn wrapped_name(inner: Seq<char>) -> Seq<char> {
    "LineageMutatorWrap["@ + inner + "]"@
}

impl<M> LineageMutatorWrap<M> {
    /// The name of this wrapper.
    pub closed spec fn named(self) -> Seq<char> {
        self.name@
    }

    /// The mutator inside.
    pub closed spec fn inner(self) -> M {
        self.inner
    }

    /// Wraps `inner`, a mutator that goes by `inner_name`.
    pub fn new(inner: M, inner_name: &str) -> (r: Self)
        ensures
            r.inner() == inner,
            r.named() == wrapped_name(inner_name@),
            r.named() == "LineageMutatorWrap["@ + inner_name@ + "]"@,
    {
        let mut name: String = "LineageMutatorWrap[".to_owned();
        name.append(inner_name);
        name.append("]");
        LineageMutatorWrap { name: Cow::Owned(name), inner }
    }

    /// The name of this wrapper.
    pub fn name(&self) -> (r: &Cow<'static, str>)
        ensures
            r@ == self.named(),
    {
        &self.name
    }

    /// The mutator inside, to hand a call on to it.
    pub fn inner_mut(&mut self) -> (r: &mut M)
        ensures
            *r == old(self).inner(),
            final(self).inner() == *final(r),
            final(self).named() == old(self).named(),
    {
        &mut self.inner
    }

    /// Starts a mutation when the clock shows `now`: takes the snapshot, then gives out
    /// the inner mutator, which is to do the mutation itself.
    ///
    /// Nothing is touched where the clock is behind the start of the run.
    pub fn mutate_at(
        &mut self,
        log: &mut Option<MutationLog>,
        execs: u64,
        start: u128,
        now: u128,
    ) -> (r: Result<&mut M, ClockError>)
        ensures
            start <= now <==> r is Ok,
            r matches Ok(inner) ==> {
                &&& *inner == old(self).inner()
                &&& final(self).inner() == *final(inner)
                &&& final(self).named() == old(self).named()
                &&& *final(log) matches Some(taken)
                &&& taken.taken_at(execs, crate::clock::elapsed_ms_spec(start, now)->Ok_0)
                &&& taken.names@.len() == 0
                &&& taken.execs == execs
                &&& taken.elapsed_ms == ((now - start) / 1_000_000) % 0x1_0000_0000_0000_0000
            },
            r is Err ==> *final(self) == *old(self) && *final(log) == *old(log),
    {
        match elapsed_ms(start, now) {
            Ok(elapsed) => {
                MutationLog::record(log, execs, elapsed);
                Ok(&mut self.inner)
            },
            Err(e) => Err(e),
        }
    }

    /// Starts a mutation now: [`Self::mutate_at`] with the reading of the clock.
    ///
    /// The snapshot tells the time from `start` to that reading, and the call fails exactly
    /// where the reading is behind `start`.
    pub fn mutate(&mut self, log: &mut Option<MutationLog>, execs: u64, start: u128) -> (r: Result<
        &mut M,
        ClockError,
    >)
        ensures
            r matches Ok(inner) ==> {
                &&& *inner == old(self).inner()
                &&& final(self).inner() == *final(inner)
                &&& final(self).named() == old(self).named()
                &&& *final(log) matches Some(taken)
                &&& exists|now: u128| start <= now && #[trigger] taken.taken_at(
                    execs,
                    crate::clock::elapsed_ms_spec(start, now)->Ok_0,
                )
            },
            r is Err ==> start > 0 && *final(self) == *old(self) && *final(log) == *old(log),
            exists|now: u128| #[trigger]
                crate::clock::clock_shows(now) && (r is Ok <==> start <= now) && (r is Ok ==> {
                    &&& *final(log) matches Some(taken)
                    &&& taken.names@.len() == 0
                    &&& taken.execs == execs
                    &&& taken.elapsed_ms == ((now - start) / 1_000_000) % 0x1_0000_0000_0000_0000
                }),
    {
        let now: u128 = read_clock();
        self.mutate_at(log, execs, start, now)
    }
}

/// What a lookup that may fail, and may find nothing, settles on.
pub open spec fn found<T, E>(lookup: Result<Option<T>, E>) -> Option<T> {
    match lookup {
        Ok(Some(value)) => Some(value),
        _ => None,
    }
}

/// What is attached to a new entry when the clock shows `now`.
///
/// `log` is the snapshot that the mutator left, if there is one. Where it is missing, or
/// left over from an earlier round, the live values stand in: `execs` executions, and the
/// time since `start`.
pub open spec fn lineage_at(
    parent: Option<usize>,
    file: Option<String>,
    log: Option<&MutationLog>,
    execs: u64,
    start: u128,
    now: u128,
) -> Result<Option<ParentInfo>, ClockError> {
    match (parent, log) {
        (None, _) => Ok(None),
        (Some(id), Some(taken)) if taken.is_current(execs) => Ok(
            Some(
                ParentInfo {
                    parent_id: Some(id as u64),
                    parent_file: file,
                    execs: taken.execs,
                    elapsed_ms: taken.elapsed_ms,
                },
            ),
        ),
        (Some(id), _) => match crate::clock::elapsed_ms_spec(start, now) {
            Ok(elapsed_ms) => Ok(
                Some(
                    ParentInfo { parent_id: Some(id as u64), parent_file: file, execs, elapsed_ms },
                ),
            ),
            Err(e) => Err(e),
        },
    }
}

/// Attaches a [`ParentInfo`] to each entry before it is stored. It never calls an input
/// interesting by itself.
pub struct LineageFeedback {
    name: Cow<'static, str>,
}

impl LineageFeedback {
    /// The name of this feedback.
    pub closed spec fn named(self) -> Seq<char> {
        self.name@
    }

    pub fn new() -> (r: Self)
        ensures
            r.named() == "LineageFeedback"@,
    {
        LineageFeedback { name: Cow::Borrowed("LineageFeedback") }
    }

    /// The name of this feedback.
    pub fn name(&self) -> (r: &Cow<'static, str>)
        ensures
            r@ == self.named(),
    {
        &self.name
    }

    /// Whether this feedback asks for an input to be kept: it never does.
    pub fn is_interesting(&self) -> (r: bool)
        ensures
            !r,
    {
        false
    }

    /// The entry that is being mutated, going by the answer to the question for it.
    pub fn parent<E>(&self, current: Result<Option<usize>, E>) -> (r: Option<usize>)
        ensures
            r == found(current),
            current matches Ok(Some(id)) ==> r == Some(id),
            current is Err || current->Ok_0 is None ==> r is None,
    {
        match current {
            Ok(id) => id,
            Err(_) => None,
        }
    }

    /// What to attach to a new entry when the clock shows `now`: the values of the snapshot
    /// of this round, or the live ones where there is none.
    ///
    /// `file` is the answer to the question for the file of `parent`. Without a parent
    /// there is nothing to attach.
    pub fn append_metadata_at<E>(
        &self,
        parent: Option<usize>,
        file: Result<Option<String>, E>,
        log: Option<&MutationLog>,
        execs: u64,
        start: u128,
        now: u128,
    ) -> (r: Result<Option<ParentInfo>, ClockError>)
        ensures
            r == lineage_at(parent, found(file), log, execs, start, now),
            parent is None ==> r == Ok::<Option<ParentInfo>, ClockError>(None),
            parent is Some && (log matches Some(taken) && taken.execs + 1 == execs) ==> {
                &&& r matches Ok(Some(info))
                &&& info.execs == log->0.execs
                &&& info.elapsed_ms == log->0.elapsed_ms
            },
            parent is Some && !(log matches Some(taken) && taken.execs + 1 == execs) ==> {
                &&& r is Ok <==> start <= now
                &&& r matches Ok(attached) ==> {
                    &&& attached matches Some(info)
                    &&& info.execs == execs
                    &&& info.elapsed_ms == ((now - start) / 1_000_000) % 0x1_0000_0000_0000_0000
                }
            },
            r matches Ok(Some(info)) ==> {
                &&& info.parent_id == Some(parent->0 as u64)
                &&& file matches Ok(Some(name)) ==> info.parent_file == Some(name)
                &&& file is Err || file->Ok_0 is None ==> info.parent_file is None
            },
    {
        let id: usize = match parent {
            Some(id) => id,
            None => return Ok(None),
        };
        let parent_file = match file {
            Ok(file) => file,
            Err(_) => None,
        };
        let (execs, elapsed_ms): (u64, u64) = match log {
            Some(taken) if taken.current(execs) => (taken.execs, taken.elapsed_ms),
            _ => match elapsed_ms(start, now) {
                Ok(elapsed) => (execs, elapsed),
                Err(e) => return Err(e),
            },
        };
        Ok(Some(ParentInfo { parent_id: Some(id as u64), parent_file, execs, elapsed_ms }))
    }

    /// What to attach to a new entry: [`Self::append_metadata_at`] with the reading of the
    /// clock, which is read only where the live time is asked for. That time is the one from
    /// `start` to the reading, and the call fails exactly where the reading is behind `start`.
    pub fn append_metadata<E>(
        &self,
        parent: Option<usize>,
        file: Result<Option<String>, E>,
        log: Option<&MutationLog>,
        execs: u64,
        start: u128,
    ) -> (r: Result<Option<ParentInfo>, ClockError>)
        ensures
            exists|now: u128|
                r == #[trigger] lineage_at(parent, found(file), log, execs, start, now),
            start == 0 || parent is None || (log matches Some(taken) && taken.is_current(execs))
                ==> r is Ok,
            parent is None ==> r == Ok::<Option<ParentInfo>, ClockError>(None),
            parent is Some && (log matches Some(taken) && taken.execs + 1 == execs) ==> {
                &&& r matches Ok(Some(info))
                &&& info.execs == log->0.execs
                &&& info.elapsed_ms == log->0.elapsed_ms
            },
            parent is Some && !(log matches Some(taken) && taken.execs + 1 == execs) ==> exists|
                now: u128,
            | #[trigger]
                crate::clock::clock_shows(now) && (r is Ok <==> start <= now) && (r is Ok ==> {
                    &&& r matches Ok(Some(info))
                    &&& info.execs == execs
                    &&& info.elapsed_ms == ((now - start) / 1_000_000) % 0x1_0000_0000_0000_0000
                }),
            r matches Ok(Some(info)) ==> {
                &&& info.parent_id == Some(parent->0 as u64)
                &&& file matches Ok(Some(name)) ==> info.parent_file == Some(name)
                &&& file is Err || file->Ok_0 is None ==> info.parent_file is None
            },
    {
        let has_snapshot = match log {
            Some(taken) => taken.current(execs),
            None => false,
        };
        let now: u128 = if parent.is_some() && !has_snapshot {
            read_clock()
        } else {
            start
        };
        self.append_metadata_at(parent, file, log, execs, start, now)
    }
}

/// What a mutator recorded is what its child carries: once the mutated input has been
/// executed, the entry's lineage has the executions and the time of the start of the
/// mutation, however late it is by then.
pub proof fn lemma_child_carries_the_snapshot(
    taken: MutationLog,
    at_execs: u64,
    at_ms: u64,
    id: usize,
    file: Option<String>,
    execs: u64,
    start: u128,
    now: u128,
)
    requires
        taken.taken_at(at_execs, at_ms),
        at_execs + 1 == execs,
    ensures
        lineage_at(Some(id), file, Some(&taken), execs, start, now) == Ok::<
            Option<ParentInfo>,
            ClockError,
        >(
            Some(
                ParentInfo {
                    parent_id: Some(id as u64),
                    parent_file: file,
                    execs: at_execs,
                    elapsed_ms: at_ms,
                },
            ),
        ),
{
}

/// A snapshot of a round that is over makes no difference: the entry carries what it would
/// carry if there were none, the live executions and the live time.
pub proof fn lemma_stale_snapshot_is_passed_over(
    taken: MutationLog,
    id: usize,
    file: Option<String>,
    execs: u64,
    start: u128,
    now: u128,
)
    requires
        !taken.is_current(execs),
    ensures
        lineage_at(Some(id), file, Some(&taken), execs, start, now) == lineage_at(
            Some(id),
            file,
            None,
            execs,
            start,
            now,
        ),
        start <= now ==> lineage_at(Some(id), file, Some(&taken), execs, start, now) == Ok::<
            Option<ParentInfo>,
            ClockError,
        >(
            Some(
                ParentInfo {
                    parent_id: Some(id as u64),
                    parent_file: file,
                    execs,
                    elapsed_ms: crate::clock::elapsed_ms_spec(start, now)->Ok_0,
                },
            ),
        ),
{
}

/// An entry gets a lineage exactly when it has a parent and a time can be told for it, and
/// a lineage always names that parent.
pub proof fn lemma_lineage_names_the_parent(
    parent: Option<usize>,
    file: Option<String>,
    log: Option<&MutationLog>,
    execs: u64,
    start: u128,
    now: u128,
)
    ensures
        ({
            let r = lineage_at(parent, file, log, execs, start, now);
            let has_snapshot = log matches Some(taken) && taken.is_current(execs);
            &&& r is Err <==> parent is Some && !has_snapshot && now < start
            &&& r == Ok::<Option<ParentInfo>, ClockError>(None) <==> parent is None
            &&& r matches Ok(Some(info)) ==> {
                &&& parent is Some
                &&& info.parent_id == Some(parent->0 as u64)
                &&& info.parent_id->0 == parent->0
                &&& info.parent_file == file
            }
        }),
{
}

/// What comes back from [`LineageFeedback::append_metadata`] tells the time of the run and
/// not of the day. Where no snapshot of this round is there, a reading of the clock bounds
/// it from both sides: the milliseconds told, and not one more, lie between the start of
/// the run and the reading. The call fails only where the reading lies before the start.
pub proof fn lemma_live_time_is_told_from_the_start<E>(
    feedback: &LineageFeedback,
    parent: usize,
    file: Result<Option<String>, E>,
    log: Option<&MutationLog>,
    execs: u64,
    start: u128,
    r: Result<Option<ParentInfo>, ClockError>,
)
    requires
        call_ensures(
            LineageFeedback::append_metadata::<E>,
            (feedback, Some(parent), file, log, execs, start),
            r,
        ),
        log matches Some(taken) ==> taken.execs + 1 != execs,
    ensures
        exists|now: u128| #[trigger]
            crate::clock::clock_shows(now) && match r {
                Ok(Some(info)) => {
                    &&& start <= now
                    &&& info.execs == execs
                    &&& info.parent_id == Some(parent as u64)
                    &&& file matches Ok(Some(name)) ==> info.parent_file == Some(name)
                    &&& now - start < 1_000_000 * 0x1_0000_0000_0000_0000 ==> info.elapsed_ms
                        * 1_000_000 <= now - start < (info.elapsed_ms + 1) * 1_000_000
                },
                Ok(None) => false,
                Err(_) => now < start,
            },
{
}

/// A child carries its round's snapshot as it is, whatever the clock shows when it is
/// stored: two entries that are stored at different times carry the same.
pub proof fn lemma_a_snapshot_does_not_age<E>(
    feedback: &LineageFeedback,
    parent: usize,
    file: Result<Option<String>, E>,
    taken: &MutationLog,
    execs: u64,
    start: u128,
    other_start: u128,
    r: Result<Option<ParentInfo>, ClockError>,
    other: Result<Option<ParentInfo>, ClockError>,
)
    requires
        taken.execs + 1 == execs,
        call_ensures(
            LineageFeedback::append_metadata::<E>,
            (feedback, Some(parent), file, Some(taken), execs, start),
            r,
        ),
        call_ensures(
            LineageFeedback::append_metadata::<E>,
            (feedback, Some(parent), file, Some(taken), execs, other_start),
            other,
        ),
    ensures
        r is Ok && r->Ok_0 is Some,
        r->Ok_0->0.execs == taken.execs,
        r->Ok_0->0.elapsed_ms == taken.elapsed_ms,
        r->Ok_0->0.parent_id == Some(parent as u64),
        r == other,
{
}

/// The snapshot that [`LineageMutatorWrap::mutate`] takes tells the time of the run and not
/// of the day: the milliseconds told, and not one more, lie between the start of the run and
/// a reading of the clock. The call fails only where the reading lies before the start.
pub proof fn lemma_snapshot_time_is_told_from_the_start<'a, M>(
    wrap: &'a mut LineageMutatorWrap<M>,
    log: &mut Option<MutationLog>,
    execs: u64,
    start: u128,
    r: Result<&'a mut M, ClockError>,
)
    requires
        call_ensures(LineageMutatorWrap::<M>::mutate, (wrap, log, execs, start), r),
    ensures
        exists|now: u128| #[trigger]
            crate::clock::clock_shows(now) && match r {
                Ok(_) => {
                    &&& start <= now
                    &&& *final(log) matches Some(taken)
                    &&& taken.execs == execs
                    &&& now - start < 1_000_000 * 0x1_0000_0000_0000_0000 ==> taken.elapsed_ms
                        * 1_000_000 <= now - start < (taken.elapsed_ms + 1) * 1_000_000
                },
                Err(_) => now < start && *final(log) == *old(log),
            },
{
}

/// From the mutation to the entry: once the mutated input has been executed, what is attached
/// to it are the executions and the time at which [`LineageMutatorWrap::mutate`] was called,
/// together with the parent that was found and its file.
pub proof fn lemma_an_entry_tells_of_its_mutation<'a, M, E>(
    wrap: &'a mut LineageMutatorWrap<M>,
    log: &mut Option<MutationLog>,
    execs: u64,
    start: u128,
    mutated: Result<&'a mut M, ClockError>,
    feedback: &LineageFeedback,
    parent: usize,
    asked: Option<usize>,
    file: Result<Option<String>, E>,
    taken: &MutationLog,
    r: Result<Option<ParentInfo>, ClockError>,
)
    requires
        execs < u64::MAX,
        call_ensures(LineageMutatorWrap::<M>::mutate, (wrap, log, execs, start), mutated),
        mutated is Ok,
        *final(log) == Some(*taken),
        call_ensures(
            LineageFeedback::parent::<E>,
            (feedback, Ok::<Option<usize>, E>(Some(parent))),
            asked,
        ),
        call_ensures(
            LineageFeedback::append_metadata::<E>,
            (feedback, asked, file, Some(taken), (execs + 1) as u64, start),
            r,
        ),
    ensures
        r matches Ok(Some(info)) && {
            &&& info.parent_id == Some(parent as u64)
            &&& file matches Ok(Some(name)) ==> info.parent_file == Some(name)
            &&& info.execs == execs
            &&& exists|now: u128| #[trigger]
                crate::clock::clock_shows(now) && start <= now && info.elapsed_ms == ((now - start)
                    / 1_000_000) % 0x1_0000_0000_0000_0000
        },
{
}

/// A lookup that fails counts as one that finds nothing, for the parent as for its file: it
/// never keeps an entry from being stored, and never makes up a name.
pub proof fn lemma_failed_lookups_find_nothing<E>(
    feedback: &LineageFeedback,
    e: E,
    parent: Option<usize>,
    log: Option<&MutationLog>,
    execs: u64,
    start: u128,
    now: u128,
    asked: Option<usize>,
    r: Result<Option<ParentInfo>, ClockError>,
    s: Result<Option<ParentInfo>, ClockError>,
)
    requires
        call_ensures(LineageFeedback::parent::<E>, (feedback, Err::<Option<usize>, E>(e)), asked),
        call_ensures(
            LineageFeedback::append_metadata_at::<E>,
            (feedback, parent, Err::<Option<String>, E>(e), log, execs, start, now),
            r,
        ),
        call_ensures(
            LineageFeedback::append_metadata_at::<E>,
            (feedback, parent, Ok::<Option<String>, E>(None), log, execs, start, now),
            s,
        ),
    ensures
        asked is None,
        r == s,
        r matches Ok(Some(info)) ==> info.parent_file is None,
{
}

/// A wrapper is called after the mutator inside: what it goes by has the inner name in
/// brackets, so two wrappers of the same name have inner mutators of the same name.
pub proof fn lemma_wrappers_are_told_apart_by_the_inner_name<'a, 'b, M>(
    inner: M,
    other: M,
    inner_name: &str,
    other_name: &str,
    r: LineageMutatorWrap<M>,
    s: LineageMutatorWrap<M>,
    shown: &'a Cow<'static, str>,
    other_shown: &'b Cow<'static, str>,
)
    requires
        call_ensures(LineageMutatorWrap::<M>::new, (inner, inner_name), r),
        call_ensures(LineageMutatorWrap::<M>::new, (other, other_name), s),
        call_ensures(LineageMutatorWrap::<M>::name, (&r,), shown),
        call_ensures(LineageMutatorWrap::<M>::name, (&s,), other_shown),
    ensures
        shown@ == "LineageMutatorWrap["@ + inner_name@ + "]"@,
        shown@ == other_shown@ <==> inner_name@ == other_name@,
{
    let front = "LineageMutatorWrap["@.len() as int;
    assert(shown@.len() == front + inner_name@.len() + "]"@.len());
    assert(other_shown@.len() == front + other_name@.len() + "]"@.len());
    if shown@ == other_shown@ {
        assert forall|i: int|
            0 <= i < inner_name@.len() implies inner_name@[i] == other_name@[i] by {
            assert(shown@[front + i] == inner_name@[i]);
            assert(other_shown@[front + i] == other_name@[i]);
        }
        assert(inner_name@ == other_name@);
    }
}

} // verus!
