//! Verified text helpers: whitespace trimming, decimal numerals and
//! searching for a separator.

use vstd::prelude::*;

verus! {

/// Whether a character is whitespace for the purpose of trimming input:
/// the characters with the Unicode `White_Space` property.
pub open spec fn spec_is_space(c: char) -> bool {
    c == '\t' || c == '\n' || c == '\u{B}' || c == '\u{C}' || c == '\r' || c == ' ' || c == '\u{85}'
        || c == '\u{A0}' || c == '\u{1680}' || ('\u{2000}' <= c && c <= '\u{200A}') || c
        == '\u{2028}' || c == '\u{2029}' || c == '\u{202F}' || c == '\u{205F}' || c == '\u{3000}'
}

/// Whether a character is an ASCII decimal digit.
pub open spec fn spec_is_digit(c: char) -> bool {
    '0' <= c && c <= '9'
}

/// The numeric value of a digit character.
pub open spec fn spec_digit_value(c: char) -> int {
    c as int - '0' as int
}

/// Whether a string is entirely ASCII decimal digits.
pub open spec fn spec_all_digits(s: Seq<char>) -> bool {
    forall|i: int| 0 <= i < s.len() ==> spec_is_digit(#[trigger] s[i])
}

/// The numeric value of a digit string, most significant digit first.
pub open spec fn spec_decimal_value(s: Seq<char>) -> int
    decreases s.len(),
{
    if s.len() == 0 {
        0
    } else {
        spec_decimal_value(s.drop_last()) * 10 + spec_digit_value(s.last())
    }
}

/// The digit character for a value below ten.
pub open spec fn spec_digit_char(d: int) -> char {
    if d == 0 {
        '0'
    } else if d == 1 {
        '1'
    } else if d == 2 {
        '2'
    } else if d == 3 {
        '3'
    } else if d == 4 {
        '4'
    } else if d == 5 {
        '5'
    } else if d == 6 {
        '6'
    } else if d == 7 {
        '7'
    } else if d == 8 {
        '8'
    } else {
        '9'
    }
}

/// The decimal numeral of a non-negative value, most significant digit
/// first and without leading zeros (zero itself is the single digit `0`).
pub open spec fn spec_decimal_digits(n: int) -> Seq<char>
    decreases n,
{
    if n < 10 {
        seq![spec_digit_char(n)]
    } else {
        spec_decimal_digits(n / 10).push(spec_digit_char(n % 10))
    }
}

/// The first index at or after `from` holding `needle`, or the length of
/// `s` if no later index does.
pub open spec fn spec_find_from(s: Seq<char>, needle: char, from: int) -> int
    decreases s.len() - from,
{
    if from >= s.len() {
        s.len() as int
    } else if s[from] == needle {
        from
    } else {
        spec_find_from(s, needle, from + 1)
    }
}

/// The index of the first non-whitespace character at or after `from`, or
/// the length of `s` if all later characters are whitespace.
pub open spec fn spec_first_non_space(s: Seq<char>, from: int) -> int
    decreases s.len() - from,
{
    if from >= s.len() {
        s.len() as int
    } else if spec_is_space(s[from]) {
        spec_first_non_space(s, from + 1)
    } else {
        from
    }
}

/// The length of `s` once trailing whitespace is dropped.
pub open spec fn spec_trimmed_end(s: Seq<char>) -> int
    decreases s.len(),
{
    if s.len() == 0 {
        0
    } else if spec_is_space(s.last()) {
        spec_trimmed_end(s.drop_last())
    } else {
        s.len() as int
    }
}

/// `s` with leading and trailing whitespace removed.
pub open spec fn spec_trim(s: Seq<char>) -> Seq<char> {
    let start = spec_first_non_space(s, 0);
    let end = spec_trimmed_end(s);
    if start <= end {
        s.subrange(start, end)
    } else {
        Seq::empty()
    }
}

/// Everything before the first non-whitespace character is whitespace,
/// and the first non-whitespace index lies within the string.
proof fn lemma_first_non_space_range(s: Seq<char>, from: int)
    requires
        0 <= from <= s.len(),
    ensures
        from <= spec_first_non_space(s, from) <= s.len(),
        forall|k: int|
            from <= k < spec_first_non_space(s, from) ==> spec_is_space(#[trigger] s[k]),
    decreases s.len() - from,
{
    if from < s.len() && spec_is_space(s[from]) {
        lemma_first_non_space_range(s, from + 1);
    }
}

/// The length after trimming trailing whitespace never exceeds the
/// string's length.
proof fn lemma_trimmed_end_bounds(s: Seq<char>)
    ensures
        0 <= spec_trimmed_end(s) <= s.len(),
    decreases s.len(),
{
    if s.len() > 0 && spec_is_space(s.last()) {
        lemma_trimmed_end_bounds(s.drop_last());
    }
}

/// Whether `c` is whitespace, as [`spec_is_space`] defines it.
pub fn is_space(c: char) -> (r: bool)
    ensures
        r == spec_is_space(c),
{
    c == '\t' || c == '\n' || c == '\u{B}' || c == '\u{C}' || c == '\r' || c == ' ' || c == '\u{85}'
        || c == '\u{A0}' || c == '\u{1680}' || ('\u{2000}' <= c && c <= '\u{200A}') || c
        == '\u{2028}' || c == '\u{2029}' || c == '\u{202F}' || c == '\u{205F}' || c == '\u{3000}'
}

/// Returns `s` with leading and trailing whitespace removed.
pub fn trim(s: &str) -> (r: &str)
    ensures
        r@ == spec_trim(s@),
{
    let len = s.unicode_len();
    let mut start: usize = 0;
    while start < len && is_space(s.get_char(start))
        invariant
            0 <= start <= len,
            len == s@.len(),
            spec_first_non_space(s@, 0) == spec_first_non_space(s@, start as int),
        decreases len - start,
    {
        start = start + 1;
    }
    proof {
        assert(s@.take(len as int) =~= s@);
    }
    let mut end: usize = len;
    while end > start && is_space(s.get_char(end - 1))
        invariant
            start <= end <= len,
            len == s@.len(),
            start == spec_first_non_space(s@, 0),
            start < len ==> !spec_is_space(s@[start as int]),
            start < len ==> end > start,
            spec_trimmed_end(s@) == spec_trimmed_end(s@.take(end as int)),
        decreases end,
    {
        proof {
            assert(s@.take(end as int).last() == s@[end as int - 1]);
            assert(s@.take(end as int).drop_last() =~= s@.take(end as int - 1));
        }
        end = end - 1;
    }
    proof {
        lemma_first_non_space_range(s@, 0);
        lemma_trimmed_end_bounds(s@);
        if end > start {
            // The loop stopped at a non-whitespace character, so the
            // trimmed end is exactly `end`.
            assert(s@.take(end as int).last() == s@[end as int - 1]);
            assert(spec_trimmed_end(s@.take(end as int)) == end);
        } else {
            // The loop only reaches `start` when the whole string is
            // whitespace; both sides trim to the empty string.
            assert(end == start && start == len);
            if len > 0 {
                assert(spec_is_space(s@.last()));
                lemma_trimmed_end_bounds(s@.drop_last());
                assert(spec_trimmed_end(s@) < len);
                assert(s@.subrange(start as int, end as int) =~= Seq::<char>::empty());
            }
        }
        assert(s@.subrange(start as int, end as int) =~= spec_trim(s@));
    }
    s.substring_char(start, end)
}

/// Returns the index of the first `needle` at or after `from`, or the
/// string's length if there is none.
pub fn find_char_from(s: &str, needle: char, from: usize) -> (r: usize)
    requires
        from <= s@.len(),
    ensures
        r == spec_find_from(s@, needle, from as int),
        from <= r <= s@.len(),
{
    let len = s.unicode_len();
    let mut i: usize = from;
    while i < len && s.get_char(i) != needle
        invariant
            from <= i <= len,
            len == s@.len(),
            spec_find_from(s@, needle, from as int) == spec_find_from(s@, needle, i as int),
        decreases len - i,
    {
        i = i + 1;
    }
    i
}

/// Dropping digits from the end of an all-digit string never increases its
/// value.
proof fn lemma_decimal_value_monotone(s: Seq<char>, i: int, j: int)
    requires
        0 <= i <= j <= s.len(),
        spec_all_digits(s),
    ensures
        spec_decimal_value(s.take(i)) <= spec_decimal_value(s.take(j)),
    decreases j - i,
{
    if i < j {
        lemma_decimal_value_monotone(s, i, j - 1);
        assert(s.take(j).drop_last() =~= s.take(j - 1));
        assert(spec_decimal_value(s.take(j)) == spec_decimal_value(s.take(j - 1)) * 10
            + spec_digit_value(s[j - 1]));
        assert(spec_is_digit(s[j - 1]));
        assert(spec_decimal_value(s.take(j - 1)) >= 0) by {
            lemma_decimal_value_non_negative(s.take(j - 1));
        }
    }
}

/// An all-digit string's value is non-negative.
proof fn lemma_decimal_value_non_negative(s: Seq<char>)
    requires
        forall|i: int| 0 <= i < s.len() ==> spec_is_digit(#[trigger] s[i]),
    ensures
        spec_decimal_value(s) >= 0,
    decreases s.len(),
{
    if s.len() > 0 {
        lemma_decimal_value_non_negative(s.drop_last());
    }
}

/// Parses a string of ASCII decimal digits into a `u64`.
///
/// Returns the string's value exactly when the string is non-empty, all
/// digits, and its value fits in 64 bits; returns `None` otherwise.
pub fn parse_decimal(s: &str) -> (r: Option<u64>)
    ensures
        (s@.len() > 0 && spec_all_digits(s@) && spec_decimal_value(s@) <= u64::MAX) ==> (
        0 <= spec_decimal_value(s@) && r == Some(spec_decimal_value(s@) as u64)),
        !(s@.len() > 0 && spec_all_digits(s@) && spec_decimal_value(s@) <= u64::MAX) ==> r is None,
{
    let len = s.unicode_len();
    if len == 0 {
        return None;
    }
    let mut acc: u64 = 0;
    let mut i: usize = 0;
    while i < len
        invariant
            0 <= i <= len,
            len == s@.len(),
            spec_all_digits(s@.take(i as int)),
            acc == spec_decimal_value(s@.take(i as int)),
        decreases len - i,
    {
        let c = s.get_char(i);
        let u = c as u32;
        if u < 48 || u > 57 {
            proof {
                assert(!spec_is_digit(s@[i as int]));
            }
            return None;
        }
        let d = (u - 48) as u64;
        proof {
            assert(spec_is_digit(s@[i as int]));
            assert(d == spec_digit_value(s@[i as int]));
            assert(s@.take(i as int + 1).drop_last() =~= s@.take(i as int));
            assert(s@.take(i as int + 1).last() == s@[i as int]);
        }
        if acc > 0x1999_9999_9999_9999 || (acc == 0x1999_9999_9999_9999 && d > 5) {
            // The value of the digits seen so far no longer fits in 64
            // bits, and further digits only grow it.
            proof {
                if spec_all_digits(s@) {
                    lemma_decimal_value_monotone(s@, i as int + 1, len as int);
                    assert(s@.take(len as int) =~= s@);
                }
            }
            return None;
        }
        acc = acc * 10 + d;
        i = i + 1;
    }
    proof {
        assert(s@.take(len as int) =~= s@);
    }
    Some(acc)
}

/// The single-character string for a digit's character.
fn digit_to_str(d: u64) -> (r: &'static str)
    requires
        d < 10,
    ensures
        r@ =~= seq![spec_digit_char(d as int)],
{
    proof {
        reveal_strlit("0");
        reveal_strlit("1");
        reveal_strlit("2");
        reveal_strlit("3");
        reveal_strlit("4");
        reveal_strlit("5");
        reveal_strlit("6");
        reveal_strlit("7");
        reveal_strlit("8");
        reveal_strlit("9");
    }
    let r: &'static str = if d == 0 {
        "0"
    } else if d == 1 {
        "1"
    } else if d == 2 {
        "2"
    } else if d == 3 {
        "3"
    } else if d == 4 {
        "4"
    } else if d == 5 {
        "5"
    } else if d == 6 {
        "6"
    } else if d == 7 {
        "7"
    } else if d == 8 {
        "8"
    } else {
        "9"
    };
    proof {
        assert(r@ =~= seq![spec_digit_char(d as int)]);
    }
    r
}

/// Renders a value as its decimal numeral.
pub fn u64_to_decimal(v: u64) -> (r: String)
    ensures
        r@ == spec_decimal_digits(v as int),
    decreases v,
{
    if v < 10 {
        String::from_str(digit_to_str(v))
    } else {
        let mut front = u64_to_decimal(v / 10);
        front.append(digit_to_str(v % 10));
        proof {
            assert(front@ =~= spec_decimal_digits(v as int));
        }
        front
    }
}

} // verus!
