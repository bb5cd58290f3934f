//! Numbers as decimal text, written and read.

use vstd::prelude::*;
use vstd::string::*;
use crate::text::{chars_of, copy_range};

verus! {

/// The decimal digit for `d`.
pub open spec fn digit(d: nat) -> char {
    if d == 0 {
        '0'
    } else if d == 1 {
        '1'
    } else if d == 2 {
        '2'
    } else if d == 3 {
        '3'
    } else if d == 4 {
        '4'
    } else if d == 5 {
        '5'
    } else if d == 6 {
        '6'
    } else if d == 7 {
        '7'
    } else if d == 8 {
        '8'
    } else {
        '9'
    }
}

/// `n` in decimal, without leading zeros.
pub open spec fn decimal(n: nat) -> Seq<char>
    decreases n,
{
    if n < 10 {
        seq![digit(n)]
    } else {
        decimal(n / 10).push(digit(n % 10))
    }
}

/// An ASCII decimal digit.
pub open spec fn is_digit(c: char) -> bool {
    48 <= c as u32 <= 57
}

/// The value of a decimal digit.
pub open spec fn digit_value(c: char) -> nat {
    (c as u32 - 48) as nat
}

/// The number that a run of decimal digits denotes. An empty run denotes
/// none, nor does one that holds anything but digits.
pub open spec fn digits_value(s: Seq<char>) -> Option<nat>
    decreases s.len(),
{
    if s.len() == 0 || !is_digit(s.last()) {
        None
    } else if s.len() == 1 {
        Some(digit_value(s.last()))
    } else {
        match digits_value(s.drop_last()) {
            Some(v) => Some(v * 10 + digit_value(s.last())),
            None => None,
        }
    }
}

/// The number that a text denotes: decimal digits, which a single `+` may
/// precede. Nothing else may stand in it: no blank, no `-`, no underscore.
pub open spec fn unsigned_decimal(s: Seq<char>) -> Option<nat> {
    if s.len() > 0 && s[0] == '+' {
        digits_value(s.drop_first())
    } else {
        digits_value(s)
    }
}

/// The number that a text denotes, where it is `max` at most.
pub open spec fn bounded_decimal(s: Seq<char>, max: u32) -> Option<u32> {
    match unsigned_decimal(s) {
        Some(v) => if v <= max {
            Some(v as u32)
        } else {
            None
        },
        None => None,
    }
}

/// A run that holds something other than a digit denotes no number.
pub proof fn lemma_other_than_digit(s: Seq<char>, i: int)
    requires
        0 <= i < s.len(),
        !is_digit(s[i]),
    ensures
        digits_value(s) is None,
    decreases s.len(),
{
    if i < s.len() - 1 {
        lemma_other_than_digit(s.drop_last(), i);
    }
}

/// A run denotes no less than any of its non-empty prefixes does.
pub proof fn lemma_prefix_value(s: Seq<char>, k: int)
    requires
        0 < k <= s.len(),
        digits_value(s.subrange(0, k)) is Some,
    ensures
        digits_value(s) matches Some(v) ==> v >= digits_value(s.subrange(0, k))->0,
    decreases s.len() - k,
{
    if k == s.len() {
        assert(s.subrange(0, k) =~= s);
    } else {
        assert(s.drop_last().subrange(0, k) =~= s.subrange(0, k));
        lemma_prefix_value(s.drop_last(), k);
    }
}

fn digit_text(d: usize) -> (r: &'static str)
    requires
        d < 10,
    ensures
        r@ == seq![digit(d as nat)],
{
    proof {
        reveal_strlit("0");
        reveal_strlit("1");
        reveal_strlit("2");
        reveal_strlit("3");
        reveal_strlit("4");
        reveal_strlit("5");
        reveal_strlit("6");
        reveal_strlit("7");
        reveal_strlit("8");
        reveal_strlit("9");
    }
    let r = if d == 0 {
        "0"
    } else if d == 1 {
        "1"
    } else if d == 2 {
        "2"
    } else if d == 3 {
        "3"
    } else if d == 4 {
        "4"
    } else if d == 5 {
        "5"
    } else if d == 6 {
        "6"
    } else if d == 7 {
        "7"
    } else if d == 8 {
        "8"
    } else {
        "9"
    };
    assert(r@ =~= seq![digit(d as nat)]);
    r
}

/// `n` in decimal, without leading zeros.
pub fn decimal_text(n: usize) -> (r: String)
    ensures
        r@ == decimal(n as nat),
    decreases n,
{
    if n < 10 {
        String::from_str(digit_text(n))
    } else {
        let mut r = decimal_text(n / 10);
        r.append(digit_text(n % 10));
        assert(r@ =~= decimal((n / 10) as nat).push(digit((n % 10) as nat)));
        r
    }
}

/// Text written by `decimal` reads back as the number it was written from.
pub proof fn law_decimal_reads_back(n: nat)
    ensures
        decimal(n).len() > 0,
        is_digit(decimal(n)[0]),
        digits_value(decimal(n)) == Some(n),
        unsigned_decimal(decimal(n)) == Some(n),
    decreases n,
{
    if n >= 10 {
        law_decimal_reads_back(n / 10);
        let s = decimal(n);
        assert(s.drop_last() =~= decimal(n / 10));
        assert(s.last() == digit(n % 10));
        assert(s[0] == decimal(n / 10)[0]);
    }
}

/// Reads a number of at most `max` from decimal text. The text may begin
/// with one `+`; a text that holds anything else but digits, holds no
/// digit, or denotes more than `max` gives `None`.
pub fn parse_unsigned(s: &str, max: u32) -> (r: Option<u32>)
    ensures
        r == bounded_decimal(s@, max),
{
    let chars = chars_of(s);
    let start: usize = if chars.len() > 0 && chars[0] == '+' {
        1
    } else {
        0
    };
    let body = copy_range(&chars, start, chars.len());
    assert(start == 1 ==> body@ =~= s@.drop_first());
    assert(start == 0 ==> body@ =~= s@);
    assert(unsigned_decimal(s@) == digits_value(body@));
    if body.len() == 0 {
        return None;
    }
    let mut acc: u64 = 0;
    let mut i: usize = 0;
    while i < body.len()
        invariant
            i <= body.len(),
            acc <= max,
            unsigned_decimal(s@) == digits_value(body@),
            i == 0 ==> acc == 0,
            i > 0 ==> digits_value(body@.subrange(0, i as int)) == Some(acc as nat),
        decreases body.len() - i,
    {
        let c: char = body[i];
        let n: u32 = c as u32;
        if n < 48 || n > 57 {
            proof {
                assert(!is_digit(body@[i as int]));
                lemma_other_than_digit(body@, i as int);
            }
            return None;
        }
        let next: u64 = acc * 10 + (n - 48) as u64;
        proof {
            let upto = body@.subrange(0, i + 1);
            assert(upto.drop_last() =~= body@.subrange(0, i as int));
            assert(upto.last() == body@[i as int]);
            assert(digits_value(upto) == Some(next as nat));
        }
        if next > max as u64 {
            proof {
                lemma_prefix_value(body@, i + 1);
            }
            return None;
        }
        acc = next;
        i += 1;
    }
    assert(body@.subrange(0, i as int) =~= body@);
    Some(acc as u32)
}

} // verus!
