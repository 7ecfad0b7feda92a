//! The time windows that can be cycled through, and the window that a
//! keyword of the command line names.

use vstd::prelude::*;

verus! {

/// A time window: its label and its length in seconds.
#[derive(Debug)]
pub struct Interval {
    pub label: String,
    pub secs: u64,
}

/// The seconds of an hour.
pub const HOUR: u64 = 3600;

/// The time windows of the program, in hours: a day, two days, three days,
/// a week and a month of thirty days.
pub open spec fn window_hours() -> Seq<u64> {
    seq![24, 48, 72, 168, 720]
}

/// The time windows of the program, from the shortest to the longest.
pub fn default_intervals() -> (intervals: Vec<Interval>)
    ensures
        intervals@.len() == 5,
        forall|i: int|
            0 <= i < 5 ==> (#[trigger] intervals@[i]).secs == window_hours()[i] * HOUR,
        intervals@[0].label@ == "24h"@,
        intervals@[1].label@ == "48h"@,
        intervals@[2].label@ == "72h"@,
        intervals@[3].label@ == "1 week"@,
        intervals@[4].label@ == "1 month"@,
{
    let mut intervals: Vec<Interval> = Vec::new();
    intervals.push(Interval { label: "24h".to_owned(), secs: 24 * HOUR });
    intervals.push(Interval { label: "48h".to_owned(), secs: 48 * HOUR });
    intervals.push(Interval { label: "72h".to_owned(), secs: 72 * HOUR });
    intervals.push(Interval { label: "1 week".to_owned(), secs: 168 * HOUR });
    intervals.push(Interval { label: "1 month".to_owned(), secs: 720 * HOUR });
    intervals
}

/// Whether a character is a decimal digit.
pub open spec fn is_digit(c: char) -> bool {
    '0' <= c <= '9'
}

/// The value of a decimal digit.
pub open spec fn digit_value(c: char) -> nat {
    (c as u32 - '0' as u32) as nat
}

/// The number that a sequence of decimal digits writes.
pub open spec fn digits_value(s: Seq<char>) -> nat
    decreases s.len(),
{
    if s.len() == 0 {
        0
    } else {
        digits_value(s.drop_last()) * 10 + digit_value(s.last())
    }
}

/// The digits of a number as it is written: what follows a plus sign at the
/// start, or all of it.
pub open spec fn unsigned_digits(s: Seq<char>) -> Seq<char> {
    if s.len() > 0 && s[0] == '+' {
        s.drop_first()
    } else {
        s
    }
}

/// The number that a text writes, if it writes one that a `u64` can hold:
/// decimal digits, at least one, after at most one plus sign.
pub open spec fn unsigned_of(s: Seq<char>) -> Option<u64> {
    let digits = unsigned_digits(s);
    if digits.len() > 0 && (forall|i: int| 0 <= i < digits.len() ==> is_digit(#[trigger] digits[i]))
        && digits_value(digits) <= u64::MAX {
        Some(digits_value(digits) as u64)
    } else {
        None
    }
}

/// Reads a number.
pub fn parse_unsigned(text: &str) -> (number: Option<u64>)
    ensures
        number == unsigned_of(text@),
{
    let len = text.unicode_len();
    let mut value: u64 = 0;
    let mut overflow = false;
    let mut signed = false;
    let mut count: usize = 0;
    let ghost digits = unsigned_digits(text@);
    for c in it: text.chars()
        invariant
            it.seq() == text@,
            len == text@.len(),
            digits == unsigned_digits(text@),
            signed == (text@.len() > 0 && text@[0] == '+' && it.index() > 0),
            count == it.index() - if signed {
                1int
            } else {
                0int
            },
            it.index() == 0 ==> count == 0,
            forall|k: int| 0 <= k < count ==> is_digit(#[trigger] digits[k]),
            !overflow ==> value == digits_value(digits.take(count as int)),
            overflow ==> digits_value(digits.take(count as int)) > u64::MAX,
    {
        let ghost i = it.index() as int;
        if c == '+' && count == 0 && !signed {
            signed = true;
            assert(digits.take(0) =~= Seq::<char>::empty());
        } else {
            proof {
                assert(digits[count as int] == c);
                assert(digits.take(count as int + 1).drop_last() == digits.take(count as int));
                assert(digits.take(count as int + 1).last() == c);
            }
            if !(c >= '0' && c <= '9') {
                return None;
            }
            let d: u64 = (c as u32 - '0' as u32) as u64;
            if !overflow {
                match value.checked_mul(10) {
                    Some(scaled) => match scaled.checked_add(d) {
                        Some(sum) => {
                            value = sum;
                        },
                        None => {
                            overflow = true;
                        },
                    },
                    None => {
                        overflow = true;
                    },
                }
            }
            count = count + 1;
        }
    }
    proof {
        assert(digits.take(count as int) == digits);
    }
    if count == 0 || overflow {
        None
    } else {
        Some(value)
    }
}

/// Whether two texts are the same.
pub fn same_text(a: &str, b: &str) -> (same: bool)
    ensures
        same == (a@ == b@),
{
    a.to_owned() == b.to_owned()
}

/// The hours of the time window that a keyword names. A day is `24` or
/// `today`, two days `48` or `yesterday`, three days `72`; `week` and
/// `month` name seven and thirty days. Any other keyword is read as a
/// number of hours, and stands for a day where it is none.
pub open spec fn hours_of(keyword: Seq<char>) -> u64 {
    if keyword == "24"@ || keyword == "today"@ {
        24
    } else if keyword == "48"@ || keyword == "yesterday"@ {
        48
    } else if keyword == "72"@ {
        72
    } else if keyword == "week"@ {
        168
    } else if keyword == "month"@ {
        720
    } else {
        match unsigned_of(keyword) {
            Some(hours) => hours,
            None => 24,
        }
    }
}

/// The hours of the time window that a keyword names.
pub fn timeframe_hours(keyword: &str) -> (hours: u64)
    ensures
        hours == hours_of(keyword@),
{
    if same_text(keyword, "24") || same_text(keyword, "today") {
        24
    } else if same_text(keyword, "48") || same_text(keyword, "yesterday") {
        48
    } else if same_text(keyword, "72") {
        72
    } else if same_text(keyword, "week") {
        168
    } else if same_text(keyword, "month") {
        720
    } else {
        match parse_unsigned(keyword) {
            Some(hours) => hours,
            None => 24,
        }
    }
}

/// The first of the windows from position `from` on that lasts `secs`
/// seconds, or the number of windows where none does.
pub open spec fn window_from(intervals: Seq<Interval>, secs: int, from: int) -> int
    decreases intervals.len() - from,
{
    if from < 0 || from >= intervals.len() {
        intervals.len() as int
    } else if intervals[from].secs == secs {
        from
    } else {
        window_from(intervals, secs, from + 1)
    }
}

/// The window to start with for a time frame of `hours` hours: the first
/// window of that length, or the first window of all where none has that
/// length.
pub fn initial_interval(intervals: &Vec<Interval>, hours: u64) -> (index: usize)
    ensures
        index == if window_from(intervals@, hours * HOUR, 0) < intervals@.len() {
            window_from(intervals@, hours * HOUR, 0)
        } else {
            0
        },
{
    let mut i: usize = 0;
    while i < intervals.len()
        invariant
            i <= intervals.len(),
            window_from(intervals@, hours * HOUR, 0) == window_from(
                intervals@,
                hours * HOUR,
                i as int,
            ),
        decreases intervals.len() - i,
    {
        match hours.checked_mul(HOUR) {
            Some(secs) => {
                if intervals[i].secs == secs {
                    return i;
                }
            },
            None => {},
        }
        i = i + 1;
    }
    0
}

} // verus!
