//! Text handling: stripping the blanks around a resolver's reply and reading
//! a decimal number of seconds.

use vstd::prelude::*;
use vstd::string::*;

verus! {

/// The characters that count as blank around an address: space, tab, line
/// feed, form feed and carriage return.
pub open spec fn is_blank(c: char) -> bool {
    c == ' ' || c == '\t' || c == '\n' || c == '\x0c' || c == '\r'
}

/// `s` without the blanks it starts with.
pub open spec fn trim_start(s: Seq<char>) -> Seq<char>
    decreases s.len(),
{
    if s.len() > 0 && is_blank(s.first()) {
        trim_start(s.drop_first())
    } else {
        s
    }
}

/// `s` without the blanks it ends with.
pub open spec fn trim_end(s: Seq<char>) -> Seq<char>
    decreases s.len(),
{
    if s.len() > 0 && is_blank(s.last()) {
        trim_end(s.drop_last())
    } else {
        s
    }
}

/// `s` without the blanks on either side; blanks inside stay.
pub open spec fn trimmed(s: Seq<char>) -> Seq<char> {
    trim_end(trim_start(s))
}

/// Dropping `from` leading blanks up to a non-blank (or the end) is `trim_start`.
proof fn lemma_trim_start_is_suffix(s: Seq<char>, from: int)
    requires
        0 <= from <= s.len(),
        forall|i: int| 0 <= i < from ==> is_blank(s[i]),
        from < s.len() ==> !is_blank(s[from]),
    ensures
        trim_start(s) == s.subrange(from, s.len() as int),
    decreases from,
{
    if from == 0 {
        assert(s.subrange(0, s.len() as int) =~= s);
    } else {
        let rest = s.drop_first();
        assert forall|i: int| 0 <= i < from - 1 implies is_blank(rest[i]) by {
            assert(rest[i] == s[i + 1]);
        }
        lemma_trim_start_is_suffix(rest, from - 1);
        assert(rest.subrange(from - 1, rest.len() as int) =~= s.subrange(from, s.len() as int));
    }
}

/// Dropping the trailing blanks down to a non-blank (or the start) is `trim_end`.
proof fn lemma_trim_end_is_prefix(s: Seq<char>, to: int)
    requires
        0 <= to <= s.len(),
        forall|i: int| to <= i < s.len() ==> is_blank(s[i]),
        to > 0 ==> !is_blank(s[to - 1]),
    ensures
        trim_end(s) == s.subrange(0, to),
    decreases s.len() - to,
{
    if to == s.len() {
        assert(s.subrange(0, to) =~= s);
    } else {
        let rest = s.drop_last();
        lemma_trim_end_is_prefix(rest, to);
        assert(rest.subrange(0, to) =~= s.subrange(0, to));
    }
}

/// Trimming leaves no blank at either end, and trimming twice changes nothing.
pub proof fn lemma_trimmed_has_no_blank_ends(s: Seq<char>)
    ensures
        trimmed(s).len() > 0 ==> !is_blank(trimmed(s).first()) && !is_blank(trimmed(s).last()),
        trimmed(trimmed(s)) == trimmed(s),
{
    lemma_trim_start_shape(s);
    lemma_trim_end_shape(trim_start(s));
    let t = trimmed(s);
    if t.len() > 0 {
        lemma_trim_end_keeps_first(trim_start(s));
    }
    lemma_trim_start_shape(t);
    lemma_trim_end_shape(t);
}

/// `trim_start` yields a sequence that is empty or starts with a non-blank,
/// and returns such a sequence unchanged.
proof fn lemma_trim_start_shape(s: Seq<char>)
    ensures
        trim_start(s).len() > 0 ==> !is_blank(trim_start(s).first()),
        (s.len() > 0 ==> !is_blank(s.first())) ==> trim_start(s) == s,
    decreases s.len(),
{
    if s.len() > 0 && is_blank(s.first()) {
        lemma_trim_start_shape(s.drop_first());
    }
}

/// `trim_end` yields a sequence that is empty or ends with a non-blank, and
/// returns such a sequence unchanged.
proof fn lemma_trim_end_shape(s: Seq<char>)
    ensures
        trim_end(s).len() > 0 ==> !is_blank(trim_end(s).last()),
        (s.len() > 0 ==> !is_blank(s.last())) ==> trim_end(s) == s,
    decreases s.len(),
{
    if s.len() > 0 && is_blank(s.last()) {
        lemma_trim_end_shape(s.drop_last());
    }
}

/// `trim_end` keeps the first character of whatever it leaves.
proof fn lemma_trim_end_keeps_first(s: Seq<char>)
    ensures
        trim_end(s).len() > 0 ==> trim_end(s).first() == s.first(),
    decreases s.len(),
{
    if s.len() > 0 && is_blank(s.last()) {
        lemma_trim_end_keeps_first(s.drop_last());
    }
}

/// Whether `c` is one of the blanks that `normalize_ip` strips.
pub fn blank(c: char) -> (r: bool)
    ensures
        r == is_blank(c),
{
    c == ' ' || c == '\t' || c == '\n' || c == '\x0c' || c == '\r'
}

/// The address in a resolver's reply: the reply without the blanks around it
/// (such a reply ends with a line feed).
pub fn normalize_ip(body: &str) -> (ip: String)
    ensures
        ip@ == trimmed(body@),
{
    let len: usize = body.unicode_len();
    let mut from: usize = 0;
    while from < len && blank(body.get_char(from))
        invariant
            len == body@.len(),
            from <= len,
            forall|i: int| 0 <= i < from ==> is_blank(body@[i]),
        decreases len - from,
    {
        from = from + 1;
    }
    let mut to: usize = len;
    while to > from && blank(body.get_char(to - 1))
        invariant
            len == body@.len(),
            from <= to <= len,
            forall|i: int| to <= i < len ==> is_blank(body@[i]),
        decreases to,
    {
        to = to - 1;
    }
    proof {
        let rest = body@.subrange(from as int, len as int);
        lemma_trim_start_is_suffix(body@, from as int);
        assert forall|i: int| to - from <= i < rest.len() implies is_blank(rest[i]) by {
            assert(rest[i] == body@[i + from]);
        }
        lemma_trim_end_is_prefix(rest, to - from);
        assert(rest.subrange(0, to - from) =~= body@.subrange(from as int, to as int));
    }
    body.substring_char(from, to).to_owned()
}

/// Whether `c` is a decimal digit.
pub open spec fn is_digit(c: char) -> bool {
    '0' <= c && c <= '9'
}

/// The number that the decimal digits `s` write, the first digit weighing
/// most.
pub open spec fn decimal_value(s: Seq<char>) -> nat
    decreases s.len(),
{
    if s.len() == 0 {
        0
    } else {
        (decimal_value(s.drop_last()) * 10 + (s.last() as nat - '0' as nat)) as nat
    }
}

/// The digits of a numeral: the text after one leading `+`, if there is one.
pub open spec fn digits_of(s: Seq<char>) -> Seq<char> {
    if s.len() > 0 && s[0] == '+' {
        s.drop_first()
    } else {
        s
    }
}

/// Whether `s` is a numeral: at most one leading `+`, then one decimal digit
/// or more, and nothing else.
pub open spec fn is_numeral(s: Seq<char>) -> bool {
    &&& digits_of(s).len() > 0
    &&& forall|i: int| 0 <= i < digits_of(s).len() ==> is_digit(#[trigger] digits_of(s)[i])
}

/// The number of seconds that `s` states: the value of the numeral `s` where
/// it fits 64 bits, and nothing where `s` is no numeral or states more.
pub open spec fn seconds_stated(s: Seq<char>) -> Option<u64> {
    if is_numeral(s) && decimal_value(digits_of(s)) <= u64::MAX {
        Some(decimal_value(digits_of(s)) as u64)
    } else {
        None
    }
}

/// A longer run of digits never writes a smaller number than its prefix.
proof fn lemma_decimal_value_grows(s: Seq<char>, n: int)
    requires
        0 <= n <= s.len(),
        forall|i: int| 0 <= i < s.len() ==> is_digit(#[trigger] s[i]),
    ensures
        decimal_value(s.subrange(0, n)) <= decimal_value(s),
    decreases s.len() - n,
{
    if n == s.len() {
        assert(s.subrange(0, n) =~= s);
    } else {
        let shorter = s.drop_last();
        assert forall|i: int| 0 <= i < shorter.len() implies is_digit(#[trigger] shorter[i]) by {
            assert(shorter[i] == s[i]);
        }
        lemma_decimal_value_grows(shorter, n);
        assert(shorter.subrange(0, n) =~= s.subrange(0, n));
        assert(is_digit(s[s.len() - 1]));
    }
}

/// Whether `c` is a decimal digit.
pub fn digit(c: char) -> (r: bool)
    ensures
        r == is_digit(c),
{
    '0' <= c && c <= '9'
}

/// Reads a number of seconds: at most one leading `+`, then decimal digits
/// only. Returns `None` for any other text and for a number over `u64::MAX`.
pub fn parse_seconds(text: &str) -> (r: Option<u64>)
    ensures
        r == seconds_stated(text@),
{
    let len: usize = text.unicode_len();
    let start: usize = if len > 0 && text.get_char(0) == '+' { 1 } else { 0 };
    if start == len {
        return None;
    }
    let ghost digits = digits_of(text@);
    assert(digits =~= text@.subrange(start as int, len as int));
    let mut value: u64 = 0;
    let mut at: usize = start;
    while at < len
        invariant
            len == text@.len(),
            start <= at <= len,
            digits == digits_of(text@),
            digits == text@.subrange(start as int, len as int),
            forall|i: int| 0 <= i < at - start ==> is_digit(#[trigger] digits[i]),
            value == decimal_value(digits.subrange(0, at - start)),
        decreases len - at,
    {
        let c = text.get_char(at);
        assert(digits[at - start] == c);
        if !digit(c) {
            return None;
        }
        let d: u64 = c as u64 - '0' as u64;
        proof {
            let upto = digits.subrange(0, at - start + 1);
            assert(upto.drop_last() =~= digits.subrange(0, at - start));
            assert(upto.last() == c);
            assert(decimal_value(upto) == value * 10 + d);
            if value * 10 + d > u64::MAX {
                if is_numeral(text@) {
                    lemma_decimal_value_grows(digits, at - start + 1);
                }
            }
        }
        if value > (u64::MAX - d) / 10 {
            return None;
        }
        value = value * 10 + d;
        at = at + 1;
    }
    assert(digits.subrange(0, len - start) =~= digits);
    Some(value)
}

} // verus!
