//! Process ids as the daemon's pid file holds them.

use crate::text::{decimal_text, prefixed};
use vstd::prelude::*;
use vstd::string::*;

verus! {

/// Whether the character is white space.
pub open spec fn is_white(c: char) -> bool {
    ||| 0x9 <= c as u32 <= 0xd
    ||| c as u32 == 0x20
    ||| c as u32 == 0x85
    ||| c as u32 == 0xa0
    ||| c as u32 == 0x1680
    ||| 0x2000 <= c as u32 <= 0x200a
    ||| c as u32 == 0x2028
    ||| c as u32 == 0x2029
    ||| c as u32 == 0x202f
    ||| c as u32 == 0x205f
    ||| c as u32 == 0x3000
}

/// `text` without the white space at its start.
pub open spec fn trimmed_start(text: Seq<char>) -> Seq<char>
    decreases text.len(),
{
    if text.len() > 0 && is_white(text[0]) {
        trimmed_start(text.skip(1))
    } else {
        text
    }
}

/// `text` without the white space at its end.
pub open spec fn trimmed_end(text: Seq<char>) -> Seq<char>
    decreases text.len(),
{
    if text.len() > 0 && is_white(text.last()) {
        trimmed_end(text.drop_last())
    } else {
        text
    }
}

/// `text` without the white space at its start and at its end.
pub open spec fn trimmed(text: Seq<char>) -> Seq<char> {
    trimmed_end(trimmed_start(text))
}

/// Whether the character is a decimal digit.
pub open spec fn is_digit(c: char) -> bool {
    '0' as u32 <= c as u32 <= '9' as u32
}

/// The number that the digits write.
pub open spec fn digits_value(digits: Seq<char>) -> nat
    decreases digits.len(),
{
    if digits.len() == 0 {
        0
    } else {
        digits_value(digits.drop_last()) * 10 + (digits.last() as u32 - '0' as u32) as nat
    }
}

/// Whether `text` consists of digits.
pub open spec fn all_digits(text: Seq<char>) -> bool {
    text.len() > 0 && forall|k: int| 0 <= k < text.len() ==> is_digit(#[trigger] text[k])
}

/// The number that `text` writes: digits behind an optional sign.
pub open spec fn number(text: Seq<char>) -> Option<int> {
    if text.len() > 0 && text[0] == '-' && all_digits(text.skip(1)) {
        Some(-(digits_value(text.skip(1)) as int))
    } else if text.len() > 0 && text[0] == '+' && all_digits(text.skip(1)) {
        Some(digits_value(text.skip(1)) as int)
    } else if all_digits(text) {
        Some(digits_value(text) as int)
    } else {
        None
    }
}

/// The process id that `text` writes, with white space around it.
pub open spec fn pid_in(text: Seq<char>) -> Option<i32> {
    match number(trimmed(text)) {
        Some(n) if i32::MIN <= n <= i32::MAX => Some(n as i32),
        _ => None,
    }
}

/// Whether the character is white space.
fn white(c: char) -> (res: bool)
    ensures
        res == is_white(c),
{
    let code: u32 = c as u32;
    (0x9 <= code && code <= 0xd) || code == 0x20 || code == 0x85 || code == 0xa0 || code == 0x1680
        || (0x2000 <= code && code <= 0x200a) || code == 0x2028 || code == 0x2029 || code == 0x202f
        || code == 0x205f || code == 0x3000
}

proof fn lemma_prefix_value(digits: Seq<char>, count: int)
    requires
        0 <= count <= digits.len(),
    ensures
        digits_value(digits.take(count)) <= digits_value(digits),
    decreases digits.len(),
{
    if count == digits.len() {
        assert(digits.take(count) =~= digits);
    } else {
        lemma_prefix_value(digits.drop_last(), count);
        assert(digits.drop_last().take(count) =~= digits.take(count));
    }
}

/// The number that the characters from `start` to `end` write, where they are digits and
/// the number is at most 2^31.
fn parse_digits(text: &str, start: usize, end: usize) -> (res: Option<i64>)
    requires
        start <= end <= text@.len(),
    ensures
        ({
            let digits = text@.subrange(start as int, end as int);
            res == (if all_digits(digits) && digits_value(digits) <= 2147483648 {
                Some(digits_value(digits) as i64)
            } else {
                None
            })
        }),
{
    let ghost digits = text@.subrange(start as int, end as int);
    if start == end {
        return None;
    }
    let mut value: i64 = 0;
    let mut i: usize = start;
    assert(digits.take(0) =~= Seq::<char>::empty());
    while i < end
        invariant
            start <= i <= end <= text@.len(),
            digits == text@.subrange(start as int, end as int),
            value == digits_value(digits.take(i - start)),
            0 <= value <= 2147483648,
            forall|k: int| 0 <= k < i - start ==> is_digit(#[trigger] digits[k]),
        decreases end - i,
    {
        let c = text.get_char(i);
        assert(digits[i - start] == c);
        if !('0' <= c && c <= '9') {
            return None;
        }
        value = value * 10 + (c as u32 - '0' as u32) as i64;
        proof {
            let next = digits.take(i - start + 1);
            assert(next.drop_last() =~= digits.take(i - start));
            lemma_prefix_value(digits, i - start + 1);
        }
        if value > 2147483648 {
            return None;
        }
        i += 1;
    }
    assert(digits.take(end - start) =~= digits);
    Some(value)
}

/// The process id that the contents of a pid file write.
pub fn recorded_pid(text: &str) -> (res: Option<i32>)
    ensures
        res == pid_in(text@),
{
    let ghost whole = text@;
    let mut start: usize = 0;
    let mut end: usize = text.unicode_len();
    assert(whole.skip(0) =~= whole);
    while start < end && white(text.get_char(start))
        invariant
            start <= end == whole.len(),
            whole == text@,
            trimmed_start(whole.skip(start as int)) == trimmed_start(whole),
        decreases end - start,
    {
        assert(whole.skip(start as int).skip(1) =~= whole.skip(start + 1));
        start += 1;
    }
    let ghost tail = trimmed_start(whole);
    assert(tail =~= whole.subrange(start as int, end as int));
    while start < end && white(text.get_char(end - 1))
        invariant
            start <= end <= whole.len(),
            whole == text@,
            trimmed_end(whole.subrange(start as int, end as int)) == trimmed_end(tail),
        decreases end,
    {
        assert(whole.subrange(start as int, end as int).drop_last() =~= whole.subrange(
            start as int,
            end - 1,
        ));
        end -= 1;
    }
    let ghost body = whole.subrange(start as int, end as int);
    assert(body == trimmed(whole));
    if start == end {
        return None;
    }
    let first = text.get_char(start);
    assert(first == body[0]);
    assert(body.skip(1) =~= whole.subrange(start + 1, end as int));
    if first == '-' || first == '+' {
        assert(!is_digit(first));
        assert(!all_digits(body));
        match parse_digits(text, start + 1, end) {
            Some(value) => if first == '-' {
                Some((-value) as i32)
            } else if value <= 2147483647 {
                Some(value as i32)
            } else {
                None
            },
            None => None,
        }
    } else {
        match parse_digits(text, start, end) {
            Some(value) => if value <= 2147483647 {
                Some(value as i32)
            } else {
                None
            },
            None => None,
        }
    }
}

/// The process id as text.
pub open spec fn pid_text(pid: int) -> Seq<char> {
    if pid < 0 {
        "-"@ + crate::text::decimal((-pid) as nat)
    } else {
        crate::text::decimal(pid as nat)
    }
}

/// What is said where a daemon runs already.
pub fn already_running(pid: i32) -> (res: String)
    ensures
        res@ == "fff-daemon already running (pid "@ + pid_text(pid as int) + ")"@,
{
    let number = if pid < 0 {
        let digits = decimal_text((-(pid as i64)) as u64);
        prefixed("-", digits.as_str())
    } else {
        decimal_text(pid as u64)
    };
    prefixed("fff-daemon already running (pid ", number.as_str()).concat(")")
}

/// What the pid file holds.
pub fn pid_file_text(pid: u32) -> (res: String)
    ensures
        res@ == pid_text(pid as int),
{
    decimal_text(pid as u64)
}

proof fn lemma_decimal(n: nat)
    ensures
        all_digits(crate::text::decimal(n)),
        digits_value(crate::text::decimal(n)) == n,
    decreases n,
{
    let text = crate::text::decimal(n);
    if n >= 10 {
        lemma_decimal(n / 10);
        let front = crate::text::decimal(n / 10);
        assert(text.drop_last() =~= front);
        assert(text.last() == crate::text::digit_char((n % 10) as int));
        assert forall|k: int| 0 <= k < text.len() implies is_digit(#[trigger] text[k]) by {
            if k < front.len() {
                assert(is_digit(front[k]));
            }
        }
    } else {
        assert(text.drop_last() =~= Seq::<char>::empty());
        assert(digits_value(text.drop_last()) == 0);
    }
}

/// The process id that is read from a pid file is the one that was written, where it fits.
pub proof fn pid_file_round_trip(pid: u32)
    requires
        pid <= i32::MAX,
    ensures
        pid_in(pid_text(pid as int)) == Some(pid as i32),
{
    let text = crate::text::decimal(pid as nat);
    lemma_decimal(pid as nat);
    assert(is_digit(text[0]));
    assert(is_digit(text[text.len() - 1]));
    assert(trimmed(text) == text);
}

} // verus!
