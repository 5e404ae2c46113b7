//! Wall-clock readings and the time that has passed between two of them.
use vstd::prelude::*;

verus! {

/// The number of nanoseconds in a millisecond.
pub const NANOS_PER_MILLI: u128 = 1_000_000;

/// The clock reads earlier than the moment that time is counted from.
#[derive(Debug, Clone, Copy, PartialEq, Eq)]
pub struct ClockError;

/// Whole milliseconds from `start` to `now`, both in nanoseconds since the epoch, as a
/// 64-bit counter holds them.
pub open spec fn elapsed_ms_between(start: int, now: int) -> int
    recommends
        start <= now,
{
    ((now - start) / NANOS_PER_MILLI as int) % 0x1_0000_0000_0000_0000
}

/// What a clock that shows `now` says of the time since `start`.
pub open spec fn elapsed_ms_spec(start: u128, now: u128) -> Result<u64, ClockError> {
    if start <= now {
        Ok(elapsed_ms_between(start as int, now as int) as u64)
    } else {
        Err(ClockError)
    }
}

/// The whole milliseconds that lie between `start` and `now`, cut to 64 bits.
///
/// A clock that shows less than `start` gives an error: no time can be told then.
pub fn elapsed_ms(start: u128, now: u128) -> (r: Result<u64, ClockError>)
    ensures
        start <= now <==> r is Ok,
        r matches Ok(ms) ==> ms == elapsed_ms_between(start as int, now as int),
        r matches Ok(ms) ==> ms == ((now - start) / 1_000_000) % 0x1_0000_0000_0000_0000,
        r == elapsed_ms_spec(start, now),
{
    if now < start {
        return Err(ClockError);
    }
    let whole: u128 = (now - start) / NANOS_PER_MILLI;
    assert(whole as u64 == whole % 0x1_0000_0000_0000_0000u128) by (bit_vector);
    #[verifier::truncate]
    let cut: u64 = whole as u64;
    Ok(cut)
}

/// Reads the wall clock: nanoseconds since the Unix epoch.
///
/// Calls `libafl_bolts::current_time`. Nothing is claimed of the reading: it depends on
/// the machine, and two readings need not be in order. The call panics on a machine whose
/// clock is set before the epoch, and nowhere else.
#[verifier::external_body]
pub(crate) fn now_nanos() -> (now: u128) {
    libafl_bolts::current_time().as_nanos()
}

/// `now` is what a call of [`now_nanos`] gave: a reading of the clock, and nothing that was
/// made out of one.
pub closed spec fn clock_shows(now: u128) -> bool {
    call_ensures(now_nanos, (), now)
}

/// What a call of `read` gave.
fn given_by<F: Fn() -> u128>(read: F) -> (now: u128)
    requires
        call_requires(read, ()),
    ensures
        call_ensures(read, (), now),
{
    read()
}

/// Reads the wall clock: nanoseconds since the Unix epoch.
pub(crate) fn read_clock() -> (now: u128)
    ensures
        clock_shows(now),
{
    given_by(now_nanos)
}

/// Less than `NANOS_PER_MILLI` nanoseconds are not yet a millisecond, and no time at all
/// has passed at the start itself.
pub proof fn lemma_elapsed_starts_at_zero(start: u128, now: u128)
    requires
        start <= now < start + NANOS_PER_MILLI,
    ensures
        elapsed_ms_spec(start, now) == Ok::<u64, ClockError>(0),
{
}

/// While the counter has not run over, a later reading never gives a smaller time.
pub proof fn lemma_elapsed_is_monotone(start: u128, earlier: u128, later: u128)
    requires
        start <= earlier <= later,
        (later - start) / NANOS_PER_MILLI as int <= u64::MAX,
    ensures
        elapsed_ms_spec(start, earlier) is Ok,
        elapsed_ms_spec(start, later) is Ok,
        elapsed_ms_spec(start, earlier)->Ok_0 <= elapsed_ms_spec(start, later)->Ok_0,
        elapsed_ms_spec(start, later)->Ok_0 == (later - start) / NANOS_PER_MILLI as int,
{
}

/// A time is told exactly when the clock is not behind, and it is the number of milliseconds
/// that fit between the start and the reading: one more would not.
pub proof fn lemma_elapsed_is_the_span_in_whole_milliseconds(start: u128, now: u128)
    ensures
        elapsed_ms_spec(start, now) is Ok <==> start <= now,
        start <= now && now - start < 1_000_000 * 0x1_0000_0000_0000_0000 ==> {
            let ms = elapsed_ms_spec(start, now)->Ok_0;
            ms * 1_000_000 <= now - start < (ms + 1) * 1_000_000
        },
{
}

/// Time is counted from the start of the run: a run that starts later by some time, and
/// whose clock is read later by the same time, is told the same.
pub proof fn lemma_elapsed_counts_from_the_start(start: u128, now: u128, later: u128)
    requires
        start + later <= u128::MAX,
        now + later <= u128::MAX,
    ensures
        elapsed_ms_spec((start + later) as u128, (now + later) as u128) == elapsed_ms_spec(
            start,
            now,
        ),
{
}

/// The counter runs over after as many milliseconds as 64 bits can tell apart, and then goes
/// on as from the start.
pub proof fn lemma_elapsed_runs_over(start: u128, now: u128)
    requires
        start <= now,
        now + 1_000_000 * 0x1_0000_0000_0000_0000 <= u128::MAX,
    ensures
        elapsed_ms_spec(start, (now + 1_000_000 * 0x1_0000_0000_0000_0000) as u128)
            == elapsed_ms_spec(start, now),
{
    let span = now - start;
    let round = 0x1_0000_0000_0000_0000int;
    assert((span + 1_000_000 * round) / 1_000_000 == span / 1_000_000 + round);
    assert((span / 1_000_000 + round) % round == (span / 1_000_000) % round);
}

/// A reading of the clock is what a call of [`now_nanos`] gave, and nothing else is one.
pub(crate) proof fn lemma_a_reading_is_what_the_clock_gave(now: u128)
    ensures
        clock_shows(now) <==> call_ensures(now_nanos, (), now),
{
}

/// Two readings of one run: the times told differ by the time between the readings, to within
/// a millisecond.
pub proof fn lemma_elapsed_grows_with_the_clock(
    start: u128,
    earlier: u128,
    later: u128,
    r: Result<u64, ClockError>,
    s: Result<u64, ClockError>,
)
    requires
        start <= earlier <= later,
        later - start < 1_000_000 * 0x1_0000_0000_0000_0000,
        call_ensures(elapsed_ms, (start, earlier), r),
        call_ensures(elapsed_ms, (start, later), s),
    ensures
        r is Ok && s is Ok,
        (s->Ok_0 - r->Ok_0 - 1) * 1_000_000 < later - earlier < (s->Ok_0 - r->Ok_0 + 1) * 1_000_000,
{
}

} // verus!
