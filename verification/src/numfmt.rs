//! Decimal rendering of product ids, verified against a spec-level
//! decimal representation, for building file names and cache paths.

use vstd::prelude::*;
use vstd::string::StringExecFns;

verus! {

/// The character for one decimal digit.
pub open spec fn digit_char(d: int) -> char {
    if d == 0 {
        '0'
    } else if d == 1 {
        '1'
    } else if d == 2 {
        '2'
    } else if d == 3 {
        '3'
    } else if d == 4 {
        '4'
    } else if d == 5 {
        '5'
    } else if d == 6 {
        '6'
    } else if d == 7 {
        '7'
    } else if d == 8 {
        '8'
    } else {
        '9'
    }
}

/// The usual decimal writing of a non-negative integer: no leading
/// zeros, except that zero itself is "0".
pub open spec fn dec_rep(n: int) -> Seq<char>
    decreases n,
{
    if n < 10 {
        seq![digit_char(n)]
    } else {
        dec_rep(n / 10).push(digit_char(n % 10))
    }
}

/// One digit as a string slice.
fn digit_str(d: u32) -> (s: &'static str)
    requires
        d < 10,
    ensures
        s@ == seq![digit_char(d as int)],
{
    proof {
        reveal_strlit("0");
        reveal_strlit("1");
        reveal_strlit("2");
        reveal_strlit("3");
        reveal_strlit("4");
        reveal_strlit("5");
        reveal_strlit("6");
        reveal_strlit("7");
        reveal_strlit("8");
        reveal_strlit("9");
    }
    match d {
        0 => "0",
        1 => "1",
        2 => "2",
        3 => "3",
        4 => "4",
        5 => "5",
        6 => "6",
        7 => "7",
        8 => "8",
        _ => "9",
    }
}

/// The low-order-first digit list `ds`, read back in display order.
pub open spec fn rev_chars(ds: Seq<u32>) -> Seq<char>
    decreases ds.len(),
{
    if ds.len() == 0 {
        Seq::empty()
    } else {
        seq![digit_char(ds.last() as int)] + rev_chars(ds.drop_last())
    }
}

/// Render a product id in decimal.
pub fn u32_to_string(n: u32) -> (s: String)
    ensures
        s@ == dec_rep(n as int),
{
    let mut digits: Vec<u32> = Vec::new();
    let mut m: u32 = n;
    while m >= 10
        invariant
            dec_rep(n as int) == dec_rep(m as int) + rev_chars(digits@),
            forall|k: int| 0 <= k < digits@.len() ==> digits@[k] < 10,
        decreases m,
    {
        let d = m % 10;
        let ghost old_digits = digits@;
        let ghost old_m = m as int;
        digits.push(d);
        m = m / 10;
        proof {
            assert(digits@.last() == d);
            assert(digits@.drop_last() =~= old_digits);
            assert(rev_chars(digits@) == seq![digit_char(d as int)] + rev_chars(old_digits));
            assert(dec_rep(old_m) == dec_rep(old_m / 10).push(digit_char(old_m % 10)));
            assert(dec_rep(old_m / 10).push(digit_char(old_m % 10)) =~= dec_rep(old_m / 10)
                + seq![digit_char(old_m % 10)]);
            assert(dec_rep(m as int) + rev_chars(digits@) =~= (dec_rep(m as int) + seq![
                digit_char(d as int)
            ]) + rev_chars(old_digits));
            assert(dec_rep(n as int) == dec_rep(m as int) + rev_chars(digits@));
        }
    }
    let mut s = String::new();
    s.append(digit_str(m));
    proof {
        assert(dec_rep(m as int) == seq![digit_char(m as int)]);
        assert(s@ =~= dec_rep(m as int));
    }
    let mut i = digits.len();
    proof {
        assert(digits@.subrange(0, i as int) =~= digits@);
        assert(s@ + rev_chars(digits@) == dec_rep(n as int));
    }
    while i > 0
        invariant
            i <= digits@.len(),
            forall|k: int| 0 <= k < digits@.len() ==> digits@[k] < 10,
            s@ + rev_chars(digits@.subrange(0, i as int)) == dec_rep(n as int),
        decreases i,
    {
        let ghost old_s = s@;
        let ghost prefix = digits@.subrange(0, i as int);
        i = i - 1;
        s.append(digit_str(digits[i]));
        proof {
            assert(prefix.last() == digits@[i as int]);
            assert(prefix.drop_last() =~= digits@.subrange(0, i as int));
            assert(rev_chars(prefix) == seq![digit_char(digits@[i as int] as int)] + rev_chars(
                digits@.subrange(0, i as int),
            ));
            assert(s@ + rev_chars(digits@.subrange(0, i as int)) =~= old_s + rev_chars(prefix));
        }
    }
    proof {
        assert(digits@.subrange(0, 0) =~= Seq::<u32>::empty());
        assert(rev_chars(Seq::<u32>::empty()) == Seq::<char>::empty());
        assert(s@ =~= s@ + Seq::<char>::empty());
    }
    s
}

} // verus!
