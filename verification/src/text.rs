//! Decimal rendering: every value the loop writes out goes through the
//! device or sysfs as decimal text, so the text itself is specified here,
//! digit by digit.

use vstd::prelude::*;

verus! {

/// The character for one decimal digit.
pub open spec fn digit_char(d: int) -> char {
    if d == 0 {
        '0'
    } else if d == 1 {
        '1'
    } else if d == 2 {
        '2'
    } else if d == 3 {
        '3'
    } else if d == 4 {
        '4'
    } else if d == 5 {
        '5'
    } else if d == 6 {
        '6'
    } else if d == 7 {
        '7'
    } else if d == 8 {
        '8'
    } else {
        '9'
    }
}

/// The decimal digits of `n`, most significant first, with no leading
/// zeros (except for `n == 0`, which is the single digit `0`).
pub open spec fn dec_digits(n: nat) -> Seq<char>
    decreases n,
{
    if n < 10 {
        seq![digit_char(n as int)]
    } else {
        dec_digits(n / 10).push(digit_char((n % 10) as int))
    }
}

/// The one-character string for a decimal digit.
fn digit_to_str(d: u32) -> (s: &'static str)
    requires
        d < 10,
    ensures
        s@ == seq![digit_char(d as int)],
{
    let s: &'static str = match d {
        0 => "0",
        1 => "1",
        2 => "2",
        3 => "3",
        4 => "4",
        5 => "5",
        6 => "6",
        7 => "7",
        8 => "8",
        _ => "9",
    };
    proof {
        reveal_strlit("0");
        reveal_strlit("1");
        reveal_strlit("2");
        reveal_strlit("3");
        reveal_strlit("4");
        reveal_strlit("5");
        reveal_strlit("6");
        reveal_strlit("7");
        reveal_strlit("8");
        reveal_strlit("9");
        assert(s@ =~= seq![digit_char(d as int)]);
    }
    s
}

/// The digit characters of `v`, read from its last element to its first.
spec fn rev_digit_chars(v: Seq<u32>) -> Seq<char>
    decreases v.len(),
{
    if v.len() == 0 {
        Seq::empty()
    } else {
        seq![digit_char(v.last() as int)] + rev_digit_chars(v.drop_last())
    }
}

/// Render `n` as decimal text, most significant digit first.
pub fn u32_to_decimal(n: u32) -> (s: String)
    ensures
        s@ == dec_digits(n as nat),
{
    let mut low: Vec<u32> = Vec::new();
    let mut m: u32 = n;
    while m >= 10
        invariant
            dec_digits(n as nat) == dec_digits(m as nat) + rev_digit_chars(low@),
            forall|j: int| 0 <= j < low@.len() ==> low@[j] < 10,
        decreases m,
    {
        let d: u32 = m % 10;
        let prev: u32 = m;
        let ghost low_before: Seq<u32> = low@;
        low.push(d);
        m = m / 10;
        proof {
            assert(low@.drop_last() =~= low_before);
            assert(dec_digits(prev as nat) == dec_digits(m as nat).push(digit_char(d as int)));
            assert(rev_digit_chars(low@) == seq![digit_char(d as int)] + rev_digit_chars(
                low@.drop_last(),
            ));
            assert(dec_digits(m as nat) + rev_digit_chars(low@) =~= (dec_digits(m as nat).push(
                digit_char(d as int),
            )) + rev_digit_chars(low@.drop_last()));
        }
    }
    let mut s: String = String::from_str(digit_to_str(m));
    proof {
        assert(s@ == dec_digits(m as nat));
    }
    let mut i: usize = low.len();
    proof {
        assert(low@.take(i as int) =~= low@);
    }
    while i > 0
        invariant
            i <= low@.len(),
            forall|j: int| 0 <= j < low@.len() ==> low@[j] < 10,
            s@ + rev_digit_chars(low@.take(i as int)) == dec_digits(n as nat),
        decreases i,
    {
        i = i - 1;
        let ghost before: Seq<char> = s@;
        s.append(digit_to_str(low[i]));
        proof {
            let t = low@.take(i + 1);
            assert(t.last() == low@[i as int]);
            assert(t.drop_last() =~= low@.take(i as int));
            assert(rev_digit_chars(t) == seq![digit_char(low@[i as int] as int)]
                + rev_digit_chars(low@.take(i as int)));
            assert(s@ + rev_digit_chars(low@.take(i as int)) =~= before + rev_digit_chars(t));
        }
    }
    proof {
        assert(low@.take(0) =~= Seq::<u32>::empty());
        assert(s@ + rev_digit_chars(low@.take(0)) =~= s@);
    }
    s
}

} // verus!
