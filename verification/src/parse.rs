//! The input reader's parsing half: the raw text read from the input
//! device becomes a count, with anything malformed mapped to zero so the
//! loop never stops over bad input.

use vstd::prelude::*;

verus! {

/// Blank characters stripped from both ends of the input text.
pub open spec fn is_space_char(c: char) -> bool {
    c == ' ' || c == '\t' || c == '\n' || c == '\r' || c == '\u{b}' || c == '\u{c}'
}

/// Decimal digit characters.
pub open spec fn is_digit_char(c: char) -> bool {
    c == '0' || c == '1' || c == '2' || c == '3' || c == '4' || c == '5' || c == '6' || c == '7'
        || c == '8' || c == '9'
}

/// The numeric value of a digit character (zero for anything else).
pub open spec fn spec_digit_val(c: char) -> nat {
    if c == '1' {
        1
    } else if c == '2' {
        2
    } else if c == '3' {
        3
    } else if c == '4' {
        4
    } else if c == '5' {
        5
    } else if c == '6' {
        6
    } else if c == '7' {
        7
    } else if c == '8' {
        8
    } else if c == '9' {
        9
    } else {
        0
    }
}

/// The text with leading blanks removed.
pub open spec fn trim_front(s: Seq<char>) -> Seq<char>
    decreases s.len(),
{
    if s.len() > 0 && is_space_char(s[0]) {
        trim_front(s.skip(1))
    } else {
        s
    }
}

/// The text with trailing blanks removed.
pub open spec fn trim_back(s: Seq<char>) -> Seq<char>
    decreases s.len(),
{
    if s.len() > 0 && is_space_char(s.last()) {
        trim_back(s.drop_last())
    } else {
        s
    }
}

/// The text with blanks removed from both ends.
pub open spec fn trimmed(s: Seq<char>) -> Seq<char> {
    trim_back(trim_front(s))
}

/// Whether every character is a decimal digit.
pub open spec fn all_digits(s: Seq<char>) -> bool {
    forall|i: int| 0 <= i < s.len() ==> is_digit_char(#[trigger] s[i])
}

/// The value of a digit string, most significant digit first.
pub open spec fn digits_val(s: Seq<char>) -> nat
    decreases s.len(),
{
    if s.len() == 0 {
        0
    } else {
        digits_val(s.drop_last()) * 10 + spec_digit_val(s.last())
    }
}

/// What the input text parses to: the trimmed text read as an unsigned
/// decimal number, or zero when it is empty, non-numeric, or too large
/// for a `u32`.
pub open spec fn spec_parse_count(s: Seq<char>) -> u32 {
    let t = trimmed(s);
    if t.len() > 0 && all_digits(t) && digits_val(t) <= u32::MAX {
        digits_val(t) as u32
    } else {
        0u32
    }
}

/// A digit string is worth at least as much as any of its prefixes.
proof fn lemma_digits_val_prefix(s: Seq<char>, k: int)
    requires
        0 <= k <= s.len(),
    ensures
        digits_val(s) >= digits_val(s.take(k)),
    decreases s.len() - k,
{
    if k == s.len() {
        assert(s.take(k) =~= s);
    } else {
        lemma_digits_val_prefix(s, k + 1);
        assert(s.take(k + 1).drop_last() =~= s.take(k));
        assert(digits_val(s.take(k + 1)) == digits_val(s.take(k)) * 10 + spec_digit_val(
            s.take(k + 1).last(),
        ));
    }
}

fn is_space(c: char) -> (b: bool)
    ensures
        b == is_space_char(c),
{
    c == ' ' || c == '\t' || c == '\n' || c == '\r' || c == '\u{b}' || c == '\u{c}'
}

fn is_digit(c: char) -> (b: bool)
    ensures
        b == is_digit_char(c),
{
    c == '0' || c == '1' || c == '2' || c == '3' || c == '4' || c == '5' || c == '6' || c == '7'
        || c == '8' || c == '9'
}

fn digit_val(c: char) -> (v: u32)
    requires
        is_digit_char(c),
    ensures
        v == spec_digit_val(c),
        v < 10,
{
    match c {
        '0' => 0,
        '1' => 1,
        '2' => 2,
        '3' => 3,
        '4' => 4,
        '5' => 5,
        '6' => 6,
        '7' => 7,
        '8' => 8,
        _ => 9,
    }
}

/// Parse the input text as a count.
///
/// The text is trimmed of blanks at both ends and read as an unsigned
/// decimal number; empty, non-numeric or overflowing text gives zero
/// rather than an error, so a misbehaving input never stops the loop.
pub fn parse_count(s: &str) -> (count: u32)
    ensures
        count == spec_parse_count(s@),
{
    let n: usize = s.unicode_len();
    let mut start: usize = 0;
    proof {
        assert(s@.skip(0) =~= s@);
    }
    while start < n && is_space(s.get_char(start))
        invariant
            start <= n,
            n == s@.len(),
            trim_front(s@) == trim_front(s@.skip(start as int)),
        decreases n - start,
    {
        proof {
            assert(s@.skip(start as int)[0] == s@[start as int]);
            assert(s@.skip(start as int).skip(1) =~= s@.skip(start as int + 1));
        }
        start = start + 1;
    }
    proof {
        if start == n {
            assert(s@.skip(start as int) =~= Seq::<char>::empty());
        }
        assert(trim_front(s@) == s@.skip(start as int));
    }
    let mut end: usize = n;
    while end > start && is_space(s.get_char(end - 1))
        invariant
            start <= end <= n,
            n == s@.len(),
            trimmed(s@) == trim_back(s@.subrange(start as int, end as int)),
        decreases end,
    {
        proof {
            let u = s@.subrange(start as int, end as int);
            assert(u.last() == s@[end - 1]);
            assert(u.drop_last() =~= s@.subrange(start as int, end as int - 1));
        }
        end = end - 1;
    }
    proof {
        assert(s@.subrange(start as int, n as int) =~= s@.skip(start as int));
        if end == start {
            assert(s@.subrange(start as int, end as int) =~= Seq::<char>::empty());
        }
        assert(trimmed(s@) == s@.subrange(start as int, end as int));
    }
    let ghost t: Seq<char> = s@.subrange(start as int, end as int);
    if start == end {
        return 0;
    }
    let mut acc: u64 = 0;
    let mut i: usize = start;
    while i < end
        invariant
            start <= i <= end <= n,
            n == s@.len(),
            start < end,
            t == s@.subrange(start as int, end as int),
            t == trimmed(s@),
            all_digits(t.take(i - start)),
            acc == digits_val(t.take(i - start)),
            acc <= u32::MAX,
        decreases end - i,
    {
        let c: char = s.get_char(i);
        proof {
            assert(t[i - start] == s@[i as int]);
        }
        if !is_digit(c) {
            return 0;
        }
        let d: u32 = digit_val(c);
        let acc2: u64 = acc * 10 + d as u64;
        proof {
            let k = i - start;
            assert(t.take(k + 1).drop_last() =~= t.take(k));
            assert(t.take(k + 1).last() == t[k]);
            assert(digits_val(t.take(k + 1)) == digits_val(t.take(k)) * 10 + spec_digit_val(t[k]));
            assert forall|j: int| 0 <= j < k + 1 implies is_digit_char(
                #[trigger] t.take(k + 1)[j],
            ) by {
                if j < k {
                    assert(t.take(k + 1)[j] == t.take(k)[j]);
                } else {
                    assert(t.take(k + 1)[j] == t[k]);
                }
            }
        }
        if acc2 > u32::MAX as u64 {
            proof {
                if all_digits(t) {
                    lemma_digits_val_prefix(t, i - start + 1);
                }
            }
            return 0;
        }
        acc = acc2;
        i = i + 1;
    }
    proof {
        assert(t.take(end - start) =~= t);
    }
    acc as u32
}

} // verus!
