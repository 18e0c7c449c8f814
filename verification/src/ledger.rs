//! The request identifier ledger: a single counter kept as decimal text.
//!
//! The counter is the deduplication key of the meeting-creation call. It is
//! read once at the start of a run and replaced by its successor only after
//! the creation has been confirmed. This module is the text format: reading
//! a counter out of the file's contents and writing its successor.

use crate::text::characters;
use vstd::prelude::*;
use vstd::string::*;

verus! {

/// Why the ledger's contents are not a request identifier.
#[derive(Debug, Clone, Copy, PartialEq, Eq)]
pub enum LedgerError {
    /// Nothing is left once the surrounding white space is removed.
    Empty,
    /// A character other than a decimal digit, or a sign without digits.
    InvalidDigit,
    /// Only digits, but the number does not fit in 64 bits.
    Overflow,
}

/// Characters with the Unicode property `White_Space`.
pub open spec fn is_whitespace(c: char) -> bool {
    let code = c as u32;
    ||| 0x09 <= code <= 0x0D
    ||| code == 0x20
    ||| code == 0x85
    ||| code == 0xA0
    ||| code == 0x1680
    ||| 0x2000 <= code <= 0x200A
    ||| code == 0x2028
    ||| code == 0x2029
    ||| code == 0x202F
    ||| code == 0x205F
    ||| code == 0x3000
}

/// The index of the first character at or after `from` that is not white
/// space, or the length of `s` if there is none.
pub open spec fn skip_whitespace(s: Seq<char>, from: int) -> int
    decreases s.len() - from,
{
    if 0 <= from < s.len() && is_whitespace(s[from]) {
        skip_whitespace(s, from + 1)
    } else {
        from
    }
}

/// The end of the text that remains of `s[low..high]` once trailing white
/// space is removed.
pub open spec fn skip_whitespace_back(s: Seq<char>, low: int, high: int) -> int
    decreases high - low,
{
    if low < high <= s.len() && is_whitespace(s[high - 1]) {
        skip_whitespace_back(s, low, high - 1)
    } else {
        high
    }
}

/// `s` without leading and trailing white space.
pub open spec fn trim(s: Seq<char>) -> Seq<char> {
    let start = skip_whitespace(s, 0);
    let end = skip_whitespace_back(s, start, s.len() as int);
    s.subrange(start, end)
}

pub open spec fn is_digit(c: char) -> bool {
    '0' <= c <= '9'
}

/// The number that a decimal digit stands for.
pub open spec fn digit_value(c: char) -> nat
    recommends
        is_digit(c),
{
    (c as u32 - '0' as u32) as nat
}

pub open spec fn all_digits(s: Seq<char>) -> bool {
    forall|i: int| 0 <= i < s.len() ==> is_digit(#[trigger] s[i])
}

/// The number that a sequence of decimal digits stands for, most significant
/// digit first. The empty sequence stands for zero.
pub open spec fn digits_value(s: Seq<char>) -> nat
    decreases s.len(),
{
    if s.len() == 0 {
        0
    } else {
        10 * digits_value(s.drop_last()) + digit_value(s.last())
    }
}

/// The digits of trimmed text: what follows an optional leading `+`.
pub open spec fn unsigned_part(t: Seq<char>) -> Seq<char> {
    if t.len() > 0 && t[0] == '+' {
        t.drop_first()
    } else {
        t
    }
}

/// The request identifier that the ledger's contents stand for.
///
/// White space around the number is ignored. The number is a non-empty
/// sequence of decimal digits, optionally preceded by `+`, and at most
/// `u64::MAX`.
pub open spec fn parse_request_id_spec(text: Seq<char>) -> Result<u64, LedgerError> {
    let t = trim(text);
    let digits = unsigned_part(t);
    if t.len() == 0 {
        Err(LedgerError::Empty)
    } else if digits.len() == 0 || !all_digits(digits) {
        Err(LedgerError::InvalidDigit)
    } else if digits_value(digits) > u64::MAX {
        Err(LedgerError::Overflow)
    } else {
        Ok(digits_value(digits) as u64)
    }
}

/// The decimal digit for a number below ten.
pub open spec fn digit_char(d: nat) -> char
    recommends
        d < 10,
{
    ('0' as u32 + d) as char
}

/// The decimal text of `n`: no sign, no leading zero except for zero itself.
pub open spec fn decimal_text(n: nat) -> Seq<char>
    decreases n,
{
    if n < 10 {
        seq![digit_char(n)]
    } else {
        decimal_text(n / 10).push(digit_char(n % 10))
    }
}

pub fn char_is_whitespace(c: char) -> (b: bool)
    ensures
        b == is_whitespace(c),
{
    let code: u32 = c as u32;
    (0x09 <= code && code <= 0x0D) || code == 0x20 || code == 0x85 || code == 0xA0 || code
        == 0x1680 || (0x2000 <= code && code <= 0x200A) || code == 0x2028 || code == 0x2029 || code
        == 0x202F || code == 0x205F || code == 0x3000
}

/// Reads one decimal digit.
pub fn read_digit(c: char) -> (r: Option<u8>)
    ensures
        r is Some <==> is_digit(c),
        r matches Some(d) ==> d as nat == digit_value(c) && d < 10,
{
    if '0' <= c && c <= '9' {
        let code: u32 = c as u32;
        Some((code - 48) as u8)
    } else {
        None
    }
}

/// A prefix of a digit sequence stands for no more than the whole.
pub proof fn lemma_digits_value_prefix(s: Seq<char>, i: int)
    requires
        0 <= i <= s.len(),
    ensures
        digits_value(s.take(i)) <= digits_value(s),
    decreases s.len(),
{
    if i == s.len() {
        assert(s.take(i) =~= s);
    } else {
        lemma_digits_value_prefix(s.drop_last(), i);
        assert(s.drop_last().take(i) =~= s.take(i));
    }
}

/// Reads the request identifier out of the ledger's contents.
pub fn parse_request_id(text: &str) -> (r: Result<u64, LedgerError>)
    ensures
        r == parse_request_id_spec(text@),
{
    let chars = characters(text);
    let len = chars.len();
    let mut start: usize = 0;
    while start < len && char_is_whitespace(chars[start])
        invariant
            len == chars@.len(),
            0 <= start <= len,
            skip_whitespace(chars@, start as int) == skip_whitespace(chars@, 0),
        decreases len - start,
    {
        start += 1;
    }
    let mut end: usize = len;
    while start < end && char_is_whitespace(chars[end - 1])
        invariant
            len == chars@.len(),
            start <= end <= len,
            skip_whitespace_back(chars@, start as int, end as int) == skip_whitespace_back(
                chars@,
                start as int,
                len as int,
            ),
        decreases end - start,
    {
        end -= 1;
    }
    let ghost trimmed = trim(chars@);
    assert(trimmed == chars@.subrange(start as int, end as int));
    if start == end {
        return Err(LedgerError::Empty);
    }
    let first = if chars[start] == '+' {
        start + 1
    } else {
        start
    };
    let ghost digits = unsigned_part(trimmed);
    assert(digits =~= chars@.subrange(first as int, end as int));
    if first == end {
        return Err(LedgerError::InvalidDigit);
    }
    let mut i: usize = first;
    while i < end
        invariant
            len == chars@.len(),
            first <= i <= end <= len,
            first < end,
            chars@ == text@,
            trim(chars@).len() > 0,
            digits == unsigned_part(trim(chars@)),
            digits == chars@.subrange(first as int, end as int),
            forall|k: int| 0 <= k < i - first ==> is_digit(#[trigger] digits[k]),
        decreases end - i,
    {
        if read_digit(chars[i]).is_none() {
            assert(!is_digit(digits[i - first]));
            return Err(LedgerError::InvalidDigit);
        }
        i += 1;
    }
    assert(all_digits(digits));
    let mut value: u64 = 0;
    let mut j: usize = first;
    while j < end
        invariant
            len == chars@.len(),
            first <= j <= end <= len,
            first < end,
            chars@ == text@,
            trim(chars@).len() > 0,
            digits == unsigned_part(trim(chars@)),
            digits == chars@.subrange(first as int, end as int),
            all_digits(digits),
            value as nat == digits_value(digits.take(j - first)),
        decreases end - j,
    {
        let ghost prefix = digits.take(j - first + 1);
        proof {
            assert(prefix.drop_last() =~= digits.take(j - first));
            assert(prefix.last() == digits[j - first]);
            lemma_digits_value_prefix(digits, j - first + 1);
        }
        let digit = match read_digit(chars[j]) {
            Some(d) => d,
            None => { return Err(LedgerError::InvalidDigit); },
        };
        let scaled = match value.checked_mul(10) {
            Some(v) => v,
            None => { return Err(LedgerError::Overflow); },
        };
        value = match scaled.checked_add(digit as u64) {
            Some(v) => v,
            None => { return Err(LedgerError::Overflow); },
        };
        j += 1;
    }
    assert(digits.take(end - first) =~= digits);
    Ok(value)
}

/// The text of one decimal digit.
fn digit_text(d: u8) -> (r: &'static str)
    requires
        d < 10,
    ensures
        r@ == seq![digit_char(d as nat)],
{
    proof {
        reveal_strlit("0");
        reveal_strlit("1");
        reveal_strlit("2");
        reveal_strlit("3");
        reveal_strlit("4");
        reveal_strlit("5");
        reveal_strlit("6");
        reveal_strlit("7");
        reveal_strlit("8");
        reveal_strlit("9");
    }
    let r = match d {
        0 => "0",
        1 => "1",
        2 => "2",
        3 => "3",
        4 => "4",
        5 => "5",
        6 => "6",
        7 => "7",
        8 => "8",
        _ => "9",
    };
    assert(r@ =~= seq![digit_char(d as nat)]);
    r
}

/// Writes `n` in decimal.
pub fn render_decimal(n: u128) -> (s: String)
    ensures
        s@ == decimal_text(n as nat),
    decreases n,
{
    if n < 10 {
        String::from_str(digit_text(n as u8))
    } else {
        let mut s = render_decimal(n / 10);
        s.append(digit_text((n % 10) as u8));
        assert(s@ =~= decimal_text((n / 10) as nat).push(digit_char((n % 10) as nat)));
        s
    }
}

/// The contents that the ledger gets once the creation that used `current`
/// has been confirmed: the decimal text of `current + 1`.
///
/// The successor of `u64::MAX` is written out like any other. It is no
/// request identifier, so the next read reports `LedgerError::Overflow`.
pub fn next_ledger_text(current: u64) -> (s: String)
    ensures
        s@ == decimal_text((current + 1) as nat),
{
    let next: u128 = current as u128 + 1;
    render_decimal(next)
}

/// Decimal text is made of digits only, and of at least one.
pub proof fn lemma_decimal_text_digits(n: nat)
    ensures
        decimal_text(n).len() > 0,
        all_digits(decimal_text(n)),
    decreases n,
{
    if n >= 10 {
        lemma_decimal_text_digits(n / 10);
    }
}

/// Decimal text stands for the number it was written from.
pub proof fn lemma_decimal_text_value(n: nat)
    ensures
        digits_value(decimal_text(n)) == n,
    decreases n,
{
    let text = decimal_text(n);
    if n < 10 {
        assert(text.drop_last() =~= Seq::<char>::empty());
        assert(digits_value(text.drop_last()) == 0);
    } else {
        lemma_decimal_text_value(n / 10);
        assert(text.drop_last() =~= decimal_text(n / 10));
    }
}

/// Text that neither starts nor ends with white space is its own trimming.
pub proof fn lemma_trim_identity(s: Seq<char>)
    requires
        s.len() > 0 ==> !is_whitespace(s[0]) && !is_whitespace(s.last()),
    ensures
        trim(s) == s,
{
    assert(s.subrange(0, s.len() as int) =~= s);
}

/// What the ledger is given to hold is read back as the same number, as
/// long as that number is a request identifier.
pub proof fn lemma_render_then_parse(n: nat)
    requires
        n <= u64::MAX,
    ensures
        parse_request_id_spec(decimal_text(n)) == Ok::<u64, LedgerError>(n as u64),
{
    let text = decimal_text(n);
    lemma_decimal_text_digits(n);
    lemma_decimal_text_value(n);
    assert(is_digit(text[0]));
    assert(is_digit(text[text.len() - 1]));
    lemma_trim_identity(text);
}

/// The successor of the largest request identifier is written, but not read
/// back: the ledger is then exhausted.
pub proof fn lemma_successor_of_max_overflows()
    ensures
        parse_request_id_spec(decimal_text((u64::MAX + 1) as nat)) == Err::<u64, LedgerError>(
            LedgerError::Overflow,
        ),
{
    let n = (u64::MAX + 1) as nat;
    let text = decimal_text(n);
    lemma_decimal_text_digits(n);
    lemma_decimal_text_value(n);
    assert(is_digit(text[0]));
    assert(is_digit(text[text.len() - 1]));
    lemma_trim_identity(text);
}

pub open spec fn all_whitespace(s: Seq<char>) -> bool {
    forall|i: int| 0 <= i < s.len() ==> is_whitespace(#[trigger] s[i])
}

proof fn lemma_skip_whitespace_run(s: Seq<char>, from: int, to: int)
    requires
        0 <= from <= to <= s.len(),
        forall|k: int| from <= k < to ==> is_whitespace(#[trigger] s[k]),
    ensures
        skip_whitespace(s, from) == skip_whitespace(s, to),
    decreases to - from,
{
    if from < to {
        lemma_skip_whitespace_run(s, from + 1, to);
    }
}

proof fn lemma_skip_whitespace_stops(s: Seq<char>, from: int)
    requires
        0 <= from <= s.len(),
    ensures
        from <= skip_whitespace(s, from) <= s.len(),
        forall|k: int| from <= k < skip_whitespace(s, from) ==> is_whitespace(#[trigger] s[k]),
        skip_whitespace(s, from) < s.len() ==> !is_whitespace(s[skip_whitespace(s, from)]),
    decreases s.len() - from,
{
    if from < s.len() && is_whitespace(s[from]) {
        lemma_skip_whitespace_stops(s, from + 1);
    }
}

proof fn lemma_skip_whitespace_back_run(s: Seq<char>, low: int, to: int, high: int)
    requires
        0 <= low <= to <= high <= s.len(),
        forall|k: int| to <= k < high ==> is_whitespace(#[trigger] s[k]),
    ensures
        skip_whitespace_back(s, low, high) == skip_whitespace_back(s, low, to),
    decreases high - to,
{
    if to < high {
        lemma_skip_whitespace_back_run(s, low, to, high - 1);
    }
}

proof fn lemma_skip_whitespace_back_stops(s: Seq<char>, low: int, high: int)
    requires
        0 <= low <= high <= s.len(),
    ensures
        low <= skip_whitespace_back(s, low, high) <= high,
        forall|k: int|
            skip_whitespace_back(s, low, high) <= k < high ==> is_whitespace(#[trigger] s[k]),
        low < skip_whitespace_back(s, low, high) ==> !is_whitespace(
            s[skip_whitespace_back(s, low, high) - 1],
        ),
    decreases high - low,
{
    if low < high && is_whitespace(s[high - 1]) {
        lemma_skip_whitespace_back_stops(s, low, high - 1);
    }
}

/// What trimming removes in front of the text.
pub open spec fn trimmed_lead(s: Seq<char>) -> Seq<char> {
    s.subrange(0, skip_whitespace(s, 0))
}

/// What trimming removes behind the text.
pub open spec fn trimmed_trail(s: Seq<char>) -> Seq<char> {
    s.subrange(
        skip_whitespace_back(s, skip_whitespace(s, 0), s.len() as int),
        s.len() as int,
    )
}

/// Trimmed text neither starts nor ends with white space, and only white
/// space was removed to get it.
pub proof fn lemma_trim_removes_surrounding_whitespace(s: Seq<char>)
    ensures
        trim(s).len() > 0 ==> !is_whitespace(trim(s)[0]) && !is_whitespace(trim(s).last()),
        all_whitespace(trimmed_lead(s)),
        all_whitespace(trimmed_trail(s)),
        s == trimmed_lead(s) + trim(s) + trimmed_trail(s),
{
    let start = skip_whitespace(s, 0);
    lemma_skip_whitespace_stops(s, 0);
    lemma_skip_whitespace_back_stops(s, start, s.len() as int);
    assert(s =~= trimmed_lead(s) + trim(s) + trimmed_trail(s));
}

/// White space before and after a text does not change its trimming.
pub proof fn lemma_trim_ignores_surrounding_whitespace(
    lead: Seq<char>,
    s: Seq<char>,
    trail: Seq<char>,
)
    requires
        all_whitespace(lead),
        all_whitespace(trail),
    ensures
        trim(lead + s + trail) == trim(s),
{
    let whole = lead + s + trail;
    let shift = lead.len() as int;
    let start = skip_whitespace(s, 0);
    lemma_skip_whitespace_stops(s, 0);
    assert forall|k: int| 0 <= k < shift + start implies is_whitespace(#[trigger] whole[k]) by {
        if k >= shift {
            assert(whole[k] == s[k - shift]);
        } else {
            assert(whole[k] == lead[k]);
        }
    }
    if start == s.len() {
        assert forall|k: int| 0 <= k < whole.len() implies is_whitespace(#[trigger] whole[k]) by {
            if k >= shift + start {
                assert(whole[k] == trail[k - shift - start]);
            }
        }
        lemma_skip_whitespace_run(whole, 0, whole.len() as int);
        assert(trim(whole) =~= trim(s));
    } else {
        assert(whole[shift + start] == s[start]);
        lemma_skip_whitespace_run(whole, 0, shift + start);
        let end = skip_whitespace_back(s, start, s.len() as int);
        lemma_skip_whitespace_back_stops(s, start, s.len() as int);
        assert(start < end) by {
            if end == start {
                assert(is_whitespace(s[start]));
            }
        }
        assert forall|k: int| shift + end <= k < whole.len() implies is_whitespace(
            #[trigger] whole[k],
        ) by {
            if k < shift + s.len() {
                assert(whole[k] == s[k - shift]);
            } else {
                assert(whole[k] == trail[k - shift - s.len()]);
            }
        }
        lemma_skip_whitespace_back_run(whole, shift + start, shift + end, whole.len() as int);
        assert(whole[shift + end - 1] == s[end - 1]);
        assert(trim(whole) =~= trim(s));
    }
}

/// White space before and after the number is ignored.
pub proof fn lemma_parse_ignores_surrounding_whitespace(
    lead: Seq<char>,
    text: Seq<char>,
    trail: Seq<char>,
)
    requires
        all_whitespace(lead),
        all_whitespace(trail),
    ensures
        parse_request_id_spec(lead + text + trail) == parse_request_id_spec(text),
{
    lemma_trim_ignores_surrounding_whitespace(lead, text, trail);
}

} // verus!
