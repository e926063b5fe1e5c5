//! Text as sequences of characters: conversion, search, splitting and decimal numbers.

use vstd::prelude::*;

verus! {

/// `String::push` appends one character to the end of the string.
pub assume_specification[ String::push ](s: &mut String, ch: char)
    ensures
        final(s)@ == old(s)@.push(ch),
;

/// The text without the white space at its two ends, as `str::trim` gives it.
pub uninterp spec fn trimmed(text: Seq<char>) -> Seq<char>;

/// `str::trim` returns the slice of the text that is left once leading and trailing
/// white space is removed; which characters count as white space is Unicode's matter.
pub assume_specification[ str::trim ](text: &str) -> (r: &str)
    ensures
        r@ == trimmed(text@),
;

/// The text in lower case, as `str::to_lowercase` gives it.
pub uninterp spec fn lowercased(text: Seq<char>) -> Seq<char>;

/// `str::to_lowercase` returns the lower-case equivalent of the text as a new string;
/// which characters have one is Unicode's matter.
pub assume_specification[ str::to_lowercase ](text: &str) -> (r: String)
    ensures
        r@ == lowercased(text@),
;

/// The characters of a text, in order.
pub fn chars_of(s: &str) -> (v: Vec<char>)
    ensures
        v@ == s@,
{
    let mut v: Vec<char> = Vec::new();
    for c in it: s.chars()
        invariant
            it.seq() == s@,
            v@ == it.seq().take(it.index() as int),
    {
        v.push(c);
    }
    v
}

/// The text made of the given characters.
pub fn string_of(chars: &Vec<char>) -> (s: String)
    ensures
        s@ == chars@,
{
    let mut s = String::new();
    let mut i: usize = 0;
    while i < chars.len()
        invariant
            i <= chars.len(),
            s@ == chars@.take(i as int),
        decreases chars.len() - i,
    {
        s.push(chars[i]);
        i += 1;
    }
    s
}

/// The character of a decimal digit.
pub open spec fn digit_char(d: int) -> char {
    (48 + d) as char
}

/// The decimal digits of a natural number, most significant first, without padding.
pub open spec fn digits_of(n: nat) -> Seq<char>
    decreases n,
{
    if n < 10 {
        seq![digit_char(n as int)]
    } else {
        digits_of(n / 10).push(digit_char((n % 10) as int))
    }
}

/// The decimal text of an integer: a minus sign before a negative number, no sign otherwise.
pub open spec fn decimal_text(n: int) -> Seq<char> {
    if n < 0 {
        seq!['-'] + digits_of((-n) as nat)
    } else {
        digits_of(n as nat)
    }
}

pub(crate) fn digit(d: u8) -> (c: char)
    requires
        d < 10,
    ensures
        c == digit_char(d as int),
{
    (48u8 + d) as char
}

/// Appends the decimal digits of a number.
pub fn push_digits(out: &mut Vec<char>, n: u64)
    ensures
        final(out)@ == old(out)@ + digits_of(n as nat),
    decreases n,
{
    if n >= 10 {
        push_digits(out, n / 10);
    }
    out.push(digit((n % 10) as u8));
}

/// The text of a signed count: a plus sign before a positive number, a minus sign
/// before a negative one, and a bare zero.
pub open spec fn signed_text(n: int) -> Seq<char> {
    if n > 0 {
        seq!['+'] + digits_of(n as nat)
    } else {
        decimal_text(n)
    }
}

/// The characters of a signed count.
pub fn signed_chars(n: i64) -> (v: Vec<char>)
    ensures
        v@ == signed_text(n as int),
{
    let mut v: Vec<char> = Vec::new();
    if n > 0 {
        v.push('+');
    } else if n < 0 {
        v.push('-');
    }
    push_digits(&mut v, magnitude(n));
    v
}

/// How far an integer lies from zero.
pub fn magnitude(n: i64) -> (m: u64)
    ensures
        n >= 0 ==> m == n,
        n < 0 ==> m == -n,
{
    if n >= 0 {
        n as u64
    } else {
        (-(n + 1)) as u64 + 1
    }
}

/// The text, or the fallback where the text is absent.
pub open spec fn or_text(text: Option<Seq<char>>, fallback: Seq<char>) -> Seq<char> {
    match text {
        Some(s) => s,
        None => fallback,
    }
}

/// A copy of the text, or of the fallback where the text is absent.
pub fn text_or(text: &Option<String>, fallback: &str) -> (r: String)
    ensures
        r@ == or_text(text.deep_view(), fallback@),
{
    match text {
        Some(s) => s.clone(),
        None => String::from_str(fallback),
    }
}

/// Whether two texts hold the same characters.
pub fn same_text(a: &str, b: &str) -> (r: bool)
    ensures
        r == (a@ == b@),
{
    String::from_str(a) == String::from_str(b)
}

/// The index of the first occurrence of a character at or after `from`, or the
/// length of the text where there is none.
pub open spec fn find_from(s: Seq<char>, c: char, from: int) -> int
    decreases s.len() - from,
{
    if from < 0 || from >= s.len() {
        s.len() as int
    } else if s[from] == c {
        from
    } else {
        find_from(s, c, from + 1)
    }
}

/// The fields that a separator divides the text from `start` into. A text without
/// the separator is one field; a separator at the end leaves an empty last field.
pub open spec fn split_from(s: Seq<char>, separator: char, start: int) -> Seq<Seq<char>>
    decreases s.len() - start,
    via split_from_terminates
{
    let end = find_from(s, separator, start);
    if end >= s.len() {
        seq![s.subrange(start, s.len() as int)]
    } else {
        seq![s.subrange(start, end)] + split_from(s, separator, end + 1)
    }
}

#[via_fn]
proof fn split_from_terminates(s: Seq<char>, separator: char, start: int) {
    if 0 <= start <= s.len() {
        lemma_find_from(s, separator, start);
    }
}

/// The fields that a separator divides a text into.
pub open spec fn split_spec(s: Seq<char>, separator: char) -> Seq<Seq<char>> {
    split_from(s, separator, 0)
}

/// A line without the carriage return that ends it, if one does.
pub open spec fn without_cr(line: Seq<char>) -> Seq<char> {
    if line.len() > 0 && line.last() == '\r' {
        line.drop_last()
    } else {
        line
    }
}

/// The lines of the text from `start`. A line ends at a line feed, or at a carriage
/// return followed by one; the last line needs no ending, and an ending at the very
/// end of the text starts no further line.
pub open spec fn lines_from(s: Seq<char>, start: int) -> Seq<Seq<char>>
    decreases s.len() - start,
    via lines_from_terminates
{
    let end = find_from(s, '\n', start);
    if start < 0 || start >= s.len() {
        Seq::<Seq<char>>::empty()
    } else if end >= s.len() {
        seq![s.subrange(start, s.len() as int)]
    } else {
        seq![without_cr(s.subrange(start, end))] + lines_from(s, end + 1)
    }
}

#[via_fn]
proof fn lines_from_terminates(s: Seq<char>, start: int) {
    if 0 <= start <= s.len() {
        lemma_find_from(s, '\n', start);
    }
}

/// The lines of a text.
pub open spec fn lines_spec(s: Seq<char>) -> Seq<Seq<char>> {
    lines_from(s, 0)
}

/// The scan for a character finds its first occurrence at or after the start.
pub proof fn lemma_find_from(s: Seq<char>, c: char, from: int)
    requires
        0 <= from <= s.len(),
    ensures
        from <= find_from(s, c, from) <= s.len(),
        find_from(s, c, from) < s.len() ==> s[find_from(s, c, from)] == c,
        forall|j: int| from <= j < find_from(s, c, from) ==> #[trigger] s[j] != c,
    decreases s.len() - from,
{
    if from < s.len() && s[from] != c {
        lemma_find_from(s, c, from + 1);
    }
}

/// The first occurrence of a character at or after `from`, or the length of the text.
pub(crate) fn find_char(s: &Vec<char>, c: char, from: usize) -> (i: usize)
    requires
        from <= s.len(),
    ensures
        i == find_from(s@, c, from as int),
        from <= i <= s.len(),
{
    let mut i = from;
    while i < s.len()
        invariant
            from <= i <= s.len(),
            find_from(s@, c, from as int) == find_from(s@, c, i as int),
        decreases s.len() - i,
    {
        if s[i] == c {
            return i;
        }
        i += 1;
    }
    i
}

/// The text of the characters from `start` up to `end`.
pub(crate) fn slice_text(s: &Vec<char>, start: usize, end: usize) -> (r: String)
    requires
        start <= end <= s.len(),
    ensures
        r@ == s@.subrange(start as int, end as int),
{
    let mut r = String::new();
    let mut i = start;
    while i < end
        invariant
            start <= i <= end <= s.len(),
            r@ == s@.subrange(start as int, i as int),
        decreases end - i,
    {
        r.push(s[i]);
        i += 1;
    }
    r
}

/// Divides a text into the fields between the occurrences of a separator.
pub fn split_chars(s: &Vec<char>, separator: char) -> (fields: Vec<String>)
    ensures
        fields.deep_view() == split_spec(s@, separator),
        fields.len() >= 1,
{
    let mut fields: Vec<String> = Vec::new();
    let mut start: usize = 0;
    loop
        invariant_except_break
            start <= s.len(),
            fields.deep_view() + split_from(s@, separator, start as int) == split_spec(s@, separator),
        ensures
            fields.deep_view() == split_spec(s@, separator),
            fields.len() >= 1,
        decreases s.len() - start,
    {
        let end = find_char(s, separator, start);
        let field = slice_text(s, start, end);
        fields.push(field);
        if end >= s.len() {
            break;
        }
        start = end + 1;
    }
    fields
}

/// Divides a text into its lines.
pub fn split_lines(s: &Vec<char>) -> (lines: Vec<String>)
    ensures
        lines.deep_view() == lines_spec(s@),
{
    let mut lines: Vec<String> = Vec::new();
    let mut start: usize = 0;
    while start < s.len()
        invariant
            start <= s.len(),
            lines.deep_view() + lines_from(s@, start as int) == lines_spec(s@),
        decreases s.len() - start,
    {
        let end = find_char(s, '\n', start);
        if end >= s.len() {
            let line = slice_text(s, start, end);
            lines.push(line);
            start = s.len();
        } else {
            let stop = if end > start && s[end - 1] == '\r' {
                end - 1
            } else {
                end
            };
            let line = slice_text(s, start, stop);
            assert(line@ =~= without_cr(s@.subrange(start as int, end as int)));
            lines.push(line);
            start = end + 1;
        }
    }
    lines
}

/// Whether the needle occurs in the text at the index.
pub open spec fn occurs_at(text: Seq<char>, needle: Seq<char>, at: int) -> bool {
    0 <= at && at + needle.len() <= text.len() && text.subrange(at, at + needle.len()) == needle
}

/// Whether the needle occurs anywhere in the text.
pub open spec fn contains_spec(text: Seq<char>, needle: Seq<char>) -> bool {
    exists|at: int| occurs_at(text, needle, at)
}

fn matches_at(text: &Vec<char>, needle: &Vec<char>, at: usize) -> (r: bool)
    requires
        at + needle.len() <= text.len(),
    ensures
        r == occurs_at(text@, needle@, at as int),
{
    let mut k: usize = 0;
    while k < needle.len()
        invariant
            k <= needle.len(),
            at + needle.len() <= text.len(),
            text@.subrange(at as int, at + k) == needle@.take(k as int),
        decreases needle.len() - k,
    {
        if text[at + k] != needle[k] {
            return false;
        }
        k += 1;
    }
    assert(needle@.take(k as int) =~= needle@);
    true
}

/// Whether the needle occurs anywhere in the text.
pub fn contains_chars(text: &Vec<char>, needle: &Vec<char>) -> (r: bool)
    ensures
        r == contains_spec(text@, needle@),
{
    if needle.len() > text.len() {
        return false;
    }
    let last = text.len() - needle.len();
    let mut at: usize = 0;
    while at <= last
        invariant
            last == text.len() - needle.len(),
            at <= last + 1,
            forall|j: int| 0 <= j < at ==> !occurs_at(text@, needle@, j),
        decreases last + 1 - at,
    {
        if matches_at(text, needle, at) {
            return true;
        }
        if at == last {
            return false;
        }
        at += 1;
    }
    false
}

/// The value of a decimal digit; a character that is no digit counts as nothing.
pub open spec fn digit_value(c: char) -> nat {
    if '0' <= c <= '9' {
        (c as int - 48) as nat
    } else {
        0
    }
}

/// Every character is a decimal digit.
pub open spec fn all_digits(s: Seq<char>) -> bool {
    forall|i: int| 0 <= i < s.len() ==> '0' <= #[trigger] s[i] <= '9'
}

/// The number that a run of decimal digits writes.
pub open spec fn digits_value(s: Seq<char>) -> nat
    decreases s.len(),
{
    if s.len() == 0 {
        0
    } else {
        digits_value(s.drop_last()) * 10 + digit_value(s.last())
    }
}

/// The digits of a number that may be written with a plus sign before it.
pub open spec fn number_body(s: Seq<char>) -> Seq<char> {
    if s.len() > 0 && s[0] == '+' {
        s.skip(1)
    } else {
        s
    }
}

/// The number up to a limit that a text writes: at least one decimal digit and no
/// other character, but for a plus sign that may stand first.
pub open spec fn parse_number_spec(s: Seq<char>, limit: nat) -> Option<nat> {
    let body = number_body(s);
    if body.len() > 0 && all_digits(body) && digits_value(body) <= limit {
        Some(digits_value(body))
    } else {
        None
    }
}

/// A run of digits writes no smaller a number than any of its beginnings.
proof fn lemma_digits_value_grows(s: Seq<char>, k: int)
    requires
        0 <= k <= s.len(),
    ensures
        digits_value(s.take(k)) <= digits_value(s),
    decreases s.len() - k,
{
    if k < s.len() {
        lemma_digits_value_grows(s, k + 1);
        assert(s.take(k + 1).drop_last() =~= s.take(k));
    } else {
        assert(s.take(k) =~= s);
    }
}

/// Reads a number up to a limit from its decimal text.
pub fn parse_number(s: &Vec<char>, limit: u64) -> (r: Option<u64>)
    ensures
        match r {
            Some(v) => parse_number_spec(s@, limit as nat) == Some(v as nat),
            None => parse_number_spec(s@, limit as nat) is None,
        },
{
    let start: usize = if s.len() > 0 && s[0] == '+' {
        1
    } else {
        0
    };
    let ghost body = number_body(s@);
    if start == s.len() {
        return None;
    }
    let mut value: u64 = 0;
    let mut i: usize = start;
    while i < s.len()
        invariant
            start <= i <= s.len(),
            body == s@.skip(start as int),
            body == number_body(s@),
            all_digits(body.take(i - start)),
            value == digits_value(body.take(i - start)),
            value <= limit,
        decreases s.len() - i,
    {
        let c = s[i];
        assert(body.take(i - start + 1).drop_last() =~= body.take(i - start));
        if c < '0' || c > '9' {
            assert(!all_digits(body)) by {
                assert(!('0' <= body[i - start] <= '9'));
            }
            return None;
        }
        let d: u64 = (c as u32 - 48) as u64;
        let next: u128 = value as u128 * 10 + d as u128;
        if next > limit as u128 {
            proof {
                lemma_digits_value_grows(body, i - start + 1);
            }
            return None;
        }
        value = next as u64;
        i += 1;
    }
    assert(body.take(i - start) =~= body);
    Some(value)
}

/// The lines of a text.
pub fn lines_of(text: &str) -> (lines: Vec<String>)
    ensures
        lines.deep_view() == lines_spec(text@),
{
    let chars = chars_of(text);
    split_lines(&chars)
}

/// The fields that a separator divides a text into.
pub fn fields_of(text: &str, separator: char) -> (fields: Vec<String>)
    ensures
        fields.deep_view() == split_spec(text@, separator),
        fields.len() >= 1,
{
    let chars = chars_of(text);
    split_chars(&chars, separator)
}

/// Whether one of the names occurs in the text.
pub open spec fn mentions_any(text: Seq<char>, names: Seq<Seq<char>>) -> bool {
    exists|k: int| 0 <= k < names.len() && contains_spec(text, #[trigger] names[k])
}

/// Whether one of the names occurs in the text.
pub fn mentions_one_of(text: &str, names: &Vec<String>) -> (r: bool)
    ensures
        r == mentions_any(text@, names.deep_view()),
{
    let chars = chars_of(text);
    let mut k: usize = 0;
    while k < names.len()
        invariant
            k <= names.len(),
            chars@ == text@,
            forall|j: int| 0 <= j < k ==> !contains_spec(text@, #[trigger] names.deep_view()[j]),
        decreases names.len() - k,
    {
        assert(names.deep_view()[k as int] == names[k as int]@);
        let name = chars_of(names[k].as_str());
        if contains_chars(&chars, &name) {
            return true;
        }
        k += 1;
    }
    false
}

} // verus!
