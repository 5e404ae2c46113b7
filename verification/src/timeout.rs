//! How long the target may run on one input.
use vstd::prelude::*;

verus! {

/// A span of time in whole milliseconds, kept as seconds and what is over.
#[derive(Debug, Clone, Copy, PartialEq, Eq)]
pub struct Timeout {
    pub secs: u64,
    pub subsec_millis: u32,
}

impl Timeout {
    /// What is over is less than a second.
    pub open spec fn well_formed(self) -> bool {
        self.subsec_millis < 1000
    }

    /// The milliseconds in this span.
    pub open spec fn millis(self) -> int {
        self.secs * 1000 + self.subsec_millis
    }

    /// The span of `millis` milliseconds.
    pub fn from_millis(millis: u64) -> (r: Timeout)
        ensures
            r.well_formed(),
            r.millis() == millis,
            r.secs == millis / 1000,
            r.subsec_millis == millis % 1000,
    {
        Timeout { secs: millis / 1000, subsec_millis: (millis % 1000) as u32 }
    }

    /// A span `factor` times as long, unless its seconds would not fit.
    pub fn times(self, factor: u32) -> (r: Option<Timeout>)
        ensures
            r is Some <==> self.millis() * factor <= u64::MAX * 1000 + 999,
            r matches Some(longer) ==> longer.well_formed() && longer.millis() == self.millis()
                * factor,
            r is Some <==> (self.secs * 1000 + self.subsec_millis) * factor <= u64::MAX * 1000
                + 999,
            r matches Some(longer) ==> {
                &&& longer.subsec_millis < 1000
                &&& longer.secs * 1000 + longer.subsec_millis == (self.secs * 1000
                    + self.subsec_millis) * factor
            },
    {
        let millis: u128 = self.secs as u128 * 1000 + self.subsec_millis as u128;
        assert(millis * factor <= 1001 * 0x1_0000_0000_0000_0000 * 0x1_0000_0000)
            by (nonlinear_arith)
            requires
                millis <= 1001 * 0x1_0000_0000_0000_0000,
                factor <= 0x1_0000_0000,
        ;
        let product: u128 = millis * factor as u128;
        let secs: u128 = product / 1000;
        if secs > u64::MAX as u128 {
            None
        } else {
            Some(Timeout { secs: secs as u64, subsec_millis: (product % 1000) as u32 })
        }
    }
}

/// The character is a decimal digit.
pub open spec fn is_digit(c: char) -> bool {
    '0' <= c <= '9'
}

/// There is nothing but digits in the text.
pub open spec fn all_digits(text: Seq<char>) -> bool {
    forall|i: int| 0 <= i < text.len() ==> is_digit(#[trigger] text[i])
}

/// The number that a string of digits stands for.
pub open spec fn decimal(digits: Seq<char>) -> nat
    decreases digits.len(),
{
    if digits.len() == 0 {
        0
    } else {
        decimal(digits.drop_last()) * 10 + (digits.last() as nat - '0' as nat) as nat
    }
}

/// The text without a plus sign in front.
pub open spec fn unsigned_part(text: Seq<char>) -> Seq<char> {
    if text.len() > 0 && text[0] == '+' {
        text.subrange(1, text.len() as int)
    } else {
        text
    }
}

/// The number of milliseconds that a text stands for: decimal digits, at least one, with or
/// without a plus sign in front, and no more than fits.
pub open spec fn millis_written(text: Seq<char>) -> Option<u64> {
    let digits = unsigned_part(text);
    if digits.len() > 0 && all_digits(digits) && decimal(digits) <= u64::MAX {
        Some(decimal(digits) as u64)
    } else {
        None
    }
}

/// A longer string of digits never stands for a smaller number.
proof fn lemma_decimal_grows(digits: Seq<char>, n: int)
    requires
        0 <= n <= digits.len(),
    ensures
        decimal(digits.subrange(0, n)) <= decimal(digits),
    decreases digits.len() - n,
{
    if n < digits.len() {
        lemma_decimal_grows(digits, n + 1);
        assert(digits.subrange(0, n + 1).drop_last() == digits.subrange(0, n));
    } else {
        assert(digits.subrange(0, n) == digits);
    }
}

/// Reads a number of milliseconds.
pub fn parse_millis(text: &str) -> (r: Option<u64>)
    ensures
        r == millis_written(text@),
{
    let len: usize = text.unicode_len();
    let ghost digits = unsigned_part(text@);
    let first: usize = if len > 0 && text.get_char(0) == '+' {
        1
    } else {
        0
    };
    if first == len {
        return None;
    }
    let mut value: u64 = 0;
    let mut i: usize = first;
    assert(digits.subrange(0, 0) == Seq::<char>::empty());
    while i < len
        invariant
            len == text@.len(),
            first <= i <= len,
            digits == unsigned_part(text@),
            digits.len() == len - first,
            forall|k: int| 0 <= k < digits.len() ==> digits[k] == text@[k + first],
            forall|k: int| 0 <= k < i - first ==> is_digit(#[trigger] digits[k]),
            value == decimal(digits.subrange(0, i - first)),
        decreases len - i,
    {
        let c: char = text.get_char(i);
        assert(digits[i - first] == c);
        if c < '0' || c > '9' {
            assert(!is_digit(digits[i - first]));
            return None;
        }
        let digit: u64 = (c as u32 - '0' as u32) as u64;
        proof {
            let longer = digits.subrange(0, i - first + 1);
            assert(longer.drop_last() == digits.subrange(0, i - first));
            assert(longer.last() == c);
            assert(decimal(longer) == value * 10 + digit);
            lemma_decimal_grows(digits, i - first + 1);
        }
        if value > (u64::MAX - digit) / 10 {
            return None;
        }
        value = value * 10 + digit;
        i += 1;
    }
    assert(digits.subrange(0, digits.len() as int) == digits);
    Some(value)
}

/// A digit at the end makes ten times as much of the number that was read before, and its own
/// value more; where that no longer fits, and where no number could be read before, none is.
pub proof fn lemma_a_digit_at_the_end(
    text: &str,
    longer: &str,
    c: char,
    r: Option<u64>,
    s: Option<u64>,
)
    requires
        call_ensures(parse_millis, (text,), r),
        call_ensures(parse_millis, (longer,), s),
        longer@ == text@.push(c),
        '0' <= c <= '9',
        text@.len() > 1 || (text@.len() == 1 && text@[0] != '+'),
    ensures
        r matches Some(v) ==> {
            &&& s is Some <==> v * 10 + (c as int - '0' as int) <= u64::MAX
            &&& s is Some ==> s->0 == v * 10 + (c as int - '0' as int)
        },
        r is None ==> s is None,
{
    let digits = unsigned_part(text@);
    let more = unsigned_part(longer@);
    assert(longer@[0] == text@[0]);
    assert(more == digits.push(c));
    assert(more.drop_last() == digits);
    assert(more[digits.len() as int] == c);
    assert(all_digits(more) <==> all_digits(digits)) by {
        if all_digits(more) {
            assert forall|i: int| 0 <= i < digits.len() implies is_digit(#[trigger] digits[i]) by {
                assert(more[i] == digits[i]);
            }
        }
    }
}

/// The shortest texts: a digit stands for its value, with a plus sign in front or without;
/// nothing else of one character is a number, and neither is the empty text.
pub proof fn lemma_a_single_digit(text: &str, r: Option<u64>)
    requires
        call_ensures(parse_millis, (text,), r),
    ensures
        text@.len() == 0 ==> r is None,
        text@.len() == 1 ==> {
            &&& r is Some <==> '0' <= text@[0] <= '9'
            &&& r is Some ==> r->0 == text@[0] as int - '0' as int
        },
        text@.len() == 2 && text@[0] == '+' ==> {
            &&& r is Some <==> '0' <= text@[1] <= '9'
            &&& r is Some ==> r->0 == text@[1] as int - '0' as int
        },
{
    reveal_with_fuel(decimal, 3);
    let digits = unsigned_part(text@);
    if digits.len() == 1 {
        assert(digits.drop_last() == Seq::<char>::empty());
        assert(all_digits(digits) <==> is_digit(digits[0]));
    }
}

/// A text with anything but digits in it is no number. The one exception is a plus sign, and
/// that only in front.
pub proof fn lemma_numbers_are_digits(text: &str, r: Option<u64>, i: int)
    requires
        call_ensures(parse_millis, (text,), r),
        0 <= i < text@.len(),
        !('0' <= text@[i] <= '9'),
        i > 0 || text@[i] != '+',
    ensures
        r is None,
{
    let digits = unsigned_part(text@);
    if text@[0] == '+' {
        assert(digits[i - 1] == text@[i]);
        assert(!is_digit(digits[i - 1]));
    } else {
        assert(!is_digit(digits[i]));
    }
}

/// One plus sign in front makes no difference.
pub proof fn lemma_plus_makes_no_difference(
    text: &str,
    signed: &str,
    r: Option<u64>,
    s: Option<u64>,
)
    requires
        call_ensures(parse_millis, (text,), r),
        call_ensures(parse_millis, (signed,), s),
        signed@ == seq!['+'] + text@,
        text@.len() > 0 ==> text@[0] != '+',
    ensures
        r == s,
{
    assert(unsigned_part(signed@) == text@);
}

/// A zero in front of digits does not change the number that they stand for.
proof fn lemma_decimal_with_zero_in_front(digits: Seq<char>)
    ensures
        decimal(seq!['0'] + digits) == decimal(digits),
    decreases digits.len(),
{
    let all = seq!['0'] + digits;
    if digits.len() == 0 {
        assert(all.drop_last() == Seq::<char>::empty());
        reveal_with_fuel(decimal, 2);
    } else {
        lemma_decimal_with_zero_in_front(digits.drop_last());
        assert(all.drop_last() == seq!['0'] + digits.drop_last());
    }
}

/// A zero in front makes no difference to a number.
pub proof fn lemma_zero_in_front_makes_no_difference(
    text: &str,
    padded: &str,
    r: Option<u64>,
    s: Option<u64>,
)
    requires
        call_ensures(parse_millis, (text,), r),
        call_ensures(parse_millis, (padded,), s),
        padded@ == seq!['0'] + text@,
        text@.len() > 0,
        text@[0] != '+',
    ensures
        r == s,
{
    lemma_decimal_with_zero_in_front(text@);
    assert(unsigned_part(padded@) == padded@);
    assert forall|i: int| 0 <= i < text@.len() implies text@[i] == #[trigger] padded@[i + 1] by {}
    assert(all_digits(padded@) <==> all_digits(text@)) by {
        if all_digits(padded@) {
            assert forall|i: int| 0 <= i < text@.len() implies is_digit(#[trigger] text@[i]) by {
                assert(is_digit(padded@[i + 1]));
            }
        }
    }
}

/// However long a span is and however often it is taken, it comes to the same as so many
/// milliseconds taken as often.
pub proof fn lemma_spans_multiply_as_milliseconds(
    millis: u64,
    factor: u32,
    one: Timeout,
    r: Option<Timeout>,
)
    requires
        call_ensures(Timeout::from_millis, (millis,), one),
        call_ensures(Timeout::times, (one, factor), r),
    ensures
        r matches Some(longer) ==> {
            &&& longer.subsec_millis < 1000
            &&& longer.secs * 1000 + longer.subsec_millis == millis * factor
        },
        factor <= 1000 ==> r is Some,
{
    assert(one.secs * 1000 + one.subsec_millis == millis);
    assert(factor <= 1000 ==> millis * factor <= u64::MAX * 1000) by (nonlinear_arith);
}

} // verus!
