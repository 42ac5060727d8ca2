//! Currency display: an integer amount of yen rendered with a `¥` prefix and
//! a thousands separator every three digits, counted from the least
//! significant end.

use vstd::prelude::*;
use crate::strutil::{digit, digit_char, push_char};

verus! {

/// The decimal digits of `n`, most significant first, with no leading zero
/// except for `n == 0` itself.
pub open spec fn spec_digits(n: nat) -> Seq<char>
    decreases n,
{
    if n < 10 {
        seq![digit_char(n as int)]
    } else {
        spec_digits(n / 10).push(digit_char((n % 10) as int))
    }
}

/// `s` with a comma inserted after every group of three characters, counted
/// from the end.
pub open spec fn group_digits(s: Seq<char>) -> Seq<char>
    decreases s.len(),
{
    if s.len() <= 3 {
        s
    } else {
        group_digits(s.take(s.len() - 3)) + seq![','] + s.skip(s.len() - 3)
    }
}

/// The full rendering: the yen sign, a minus sign for negative amounts, then
/// the grouped decimal digits of the magnitude.
pub open spec fn spec_format_currency(n: int) -> Seq<char> {
    if n < 0 {
        seq!['\u{a5}', '-'] + group_digits(spec_digits((-n) as nat))
    } else {
        seq!['\u{a5}'] + group_digits(spec_digits(n as nat))
    }
}

/// Pushes the decimal digits of `n` onto `out`, most significant first.
fn push_digits(n: u64, out: &mut Vec<char>)
    ensures
        final(out)@ == old(out)@ + spec_digits(n as nat),
    decreases n,
{
    if n < 10 {
        out.push(digit(n as u8));
    } else {
        push_digits(n / 10, out);
        let d = (n % 10) as u8;
        out.push(digit(d));
        proof {
            assert(old(out)@ + spec_digits(n as nat) =~= (old(out)@ + spec_digits(
                (n / 10) as nat,
            )).push(digit_char((n % 10) as int)));
        }
    }
}

/// Pushes the first `k` characters of `d` onto `out`, with a comma after
/// every three characters counted from position `k`.
fn push_grouped(d: &Vec<char>, k: usize, out: &mut String)
    requires
        1 <= k <= d@.len(),
    ensures
        final(out)@ == old(out)@ + group_digits(d@.take(k as int)),
    decreases k,
{
    if k <= 3 {
        push_char(out, d[0]);
        if k >= 2 {
            push_char(out, d[1]);
        }
        if k >= 3 {
            push_char(out, d[2]);
        }
        proof {
            assert(out@ =~= old(out)@ + d@.take(k as int));
        }
    } else {
        push_grouped(d, k - 3, out);
        push_char(out, ',');
        push_char(out, d[k - 3]);
        push_char(out, d[k - 2]);
        push_char(out, d[k - 1]);
        proof {
            let t = d@.take(k as int);
            assert(t.take(t.len() - 3) =~= d@.take(k - 3 as int));
            assert(out@ =~= old(out)@ + (group_digits(d@.take(k - 3 as int)) + seq![','] + t.skip(
                t.len() - 3,
            )));
        }
    }
}

/// Renders an integer amount with the yen sign, a minus sign when negative,
/// and a comma between every group of three digits.
pub fn format_currency(amount: i32) -> (r: String)
    ensures
        r@ == spec_format_currency(amount as int),
{
    let mut out = String::new();
    push_char(&mut out, '\u{a5}');
    let mag: u64;
    if amount < 0 {
        push_char(&mut out, '-');
        mag = (-(amount as i64)) as u64;
    } else {
        mag = amount as u64;
    }
    let mut digits: Vec<char> = Vec::new();
    push_digits(mag, &mut digits);
    proof {
        assert(digits@.len() >= 1) by {
            lemma_spec_digits_len(mag as nat);
        }
        assert(digits@.take(digits@.len() as int) =~= digits@);
    }
    push_grouped(&digits, digits.len(), &mut out);
    proof {
        assert(out@ =~= spec_format_currency(amount as int));
    }
    out
}

/// The digit string of any value has at least one character.
proof fn lemma_spec_digits_len(n: nat)
    ensures
        spec_digits(n).len() >= 1,
    decreases n,
{
    if n >= 10 {
        lemma_spec_digits_len(n / 10);
    }
}

} // verus!
