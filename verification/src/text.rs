//! Verified decimal rendering of counters for the human-readable summary.

use vstd::prelude::*;
use vstd::string::StringExecFns;

verus! {

/// The character for one decimal digit value.
pub open spec fn spec_digit(d: int) -> char {
    if d == 0 {
        '0'
    } else if d == 1 {
        '1'
    } else if d == 2 {
        '2'
    } else if d == 3 {
        '3'
    } else if d == 4 {
        '4'
    } else if d == 5 {
        '5'
    } else if d == 6 {
        '6'
    } else if d == 7 {
        '7'
    } else if d == 8 {
        '8'
    } else {
        '9'
    }
}

/// The decimal digits of a nonnegative number, most significant first,
/// without leading zeros (a single zero for zero itself).
pub open spec fn spec_dec(n: int) -> Seq<char>
    recommends
        n >= 0,
    decreases n,
{
    if n < 10 {
        seq![spec_digit(n)]
    } else {
        spec_dec(n / 10).push(spec_digit(n % 10))
    }
}

/// Low-order-first digit values, rendered as characters in reverse: the
/// order in which a division loop discovers digits, read back most
/// significant first.
pub open spec fn spec_digits_rev(ds: Seq<u8>) -> Seq<char>
    decreases ds.len(),
{
    if ds.len() == 0 {
        Seq::empty()
    } else {
        spec_digits_rev(ds.drop_first()) + seq![spec_digit(ds.first() as int)]
    }
}

/// Appending a digit to the low-order end prepends its character to the
/// rendering.
pub proof fn lemma_digits_rev_push(ds: Seq<u8>, d: u8)
    ensures
        spec_digits_rev(ds.push(d)) == seq![spec_digit(d as int)] + spec_digits_rev(ds),
    decreases ds.len(),
{
    if ds.len() == 0 {
        assert(ds =~= Seq::<u8>::empty());
        assert(ds.push(d).first() == d);
        assert(ds.push(d).drop_first() =~= Seq::<u8>::empty());
        assert(spec_digits_rev(Seq::<u8>::empty()) =~= Seq::<char>::empty());
        assert(spec_digits_rev(ds.push(d)) =~= seq![spec_digit(d as int)] + spec_digits_rev(ds));
    } else {
        assert(ds.push(d).drop_first() =~= ds.drop_first().push(d));
        assert(ds.push(d).first() == ds.first());
        lemma_digits_rev_push(ds.drop_first(), d);
        assert(spec_digits_rev(ds.push(d)) == spec_digits_rev(ds.drop_first().push(d)) + seq![
            spec_digit(ds.first() as int),
        ]);
        assert(spec_digits_rev(ds) == spec_digits_rev(ds.drop_first()) + seq![
            spec_digit(ds.first() as int),
        ]);
        assert(spec_digits_rev(ds.push(d)) =~= seq![spec_digit(d as int)] + spec_digits_rev(ds));
    }
}

/// The single-character string for one decimal digit value.
pub fn digit_str(d: u8) -> (r: &'static str)
    requires
        d < 10,
    ensures
        r@ == seq![spec_digit(d as int)],
{
    proof {
        reveal_strlit("0");
        reveal_strlit("1");
        reveal_strlit("2");
        reveal_strlit("3");
        reveal_strlit("4");
        reveal_strlit("5");
        reveal_strlit("6");
        reveal_strlit("7");
        reveal_strlit("8");
        reveal_strlit("9");
    }
    let r: &'static str = if d == 0 {
        "0"
    } else if d == 1 {
        "1"
    } else if d == 2 {
        "2"
    } else if d == 3 {
        "3"
    } else if d == 4 {
        "4"
    } else if d == 5 {
        "5"
    } else if d == 6 {
        "6"
    } else if d == 7 {
        "7"
    } else if d == 8 {
        "8"
    } else {
        "9"
    };
    proof {
        assert(r@ =~= seq![spec_digit(d as int)]);
    }
    r
}

/// Append the decimal rendering of `n` to `s`.
pub fn push_u64_decimal(s: &mut String, n: u64)
    ensures
        final(s)@ == old(s)@ + spec_dec(n as int),
{
    let ghost s0 = old(s)@;
    let mut digits: Vec<u8> = Vec::new();
    let mut m: u64 = n;
    proof {
        assert(spec_dec(n as int) =~= spec_dec(m as int) + spec_digits_rev(digits@));
    }
    while m >= 10
        invariant
            spec_dec(n as int) == spec_dec(m as int) + spec_digits_rev(digits@),
            forall|i: int| 0 <= i < digits@.len() ==> #[trigger] digits@[i] < 10,
        decreases m,
    {
        let ghost pre = digits@;
        let ghost m0 = m as int;
        let d: u8 = (m % 10) as u8;
        digits.push(d);
        m = m / 10;
        proof {
            lemma_digits_rev_push(pre, d);
            assert(spec_dec(m0) == spec_dec(m0 / 10).push(spec_digit(m0 % 10)));
            assert(spec_dec(m0 / 10).push(spec_digit(m0 % 10)) =~= spec_dec(m0 / 10) + seq![
                spec_digit(m0 % 10),
            ]);
            assert(spec_dec(m as int) + spec_digits_rev(digits@) =~= (spec_dec(m as int) + seq![
                spec_digit(d as int),
            ]) + spec_digits_rev(pre));
        }
    }
    s.append(digit_str(m as u8));
    proof {
        assert(spec_dec(m as int) =~= seq![spec_digit(m as int)]);
        assert(digits@.skip(digits@.len() as int) =~= Seq::<u8>::empty());
        assert(s@ =~= s0 + spec_dec(m as int) + spec_digits_rev(digits@.skip(
            digits@.len() as int,
        )));
    }
    let mut j: usize = 0;
    let end = digits.len();
    while j < end
        invariant
            end == digits@.len(),
            j <= end,
            forall|k: int| 0 <= k < digits@.len() ==> #[trigger] digits@[k] < 10,
            spec_dec(n as int) == spec_dec(m as int) + spec_digits_rev(digits@),
            s@ == s0 + spec_dec(m as int) + spec_digits_rev(digits@.skip(end - j)),
        decreases end - j,
    {
        let d = digits[end - 1 - j];
        s.append(digit_str(d));
        j = j + 1;
        proof {
            let tail = digits@.skip(end - j);
            assert(tail.first() == digits@[end - j]);
            assert(tail.drop_first() =~= digits@.skip(end - j + 1));
            assert(s@ =~= s0 + spec_dec(m as int) + spec_digits_rev(tail));
        }
    }
    proof {
        assert(digits@.skip(0) =~= digits@);
        assert(s@ =~= s0 + spec_dec(n as int));
    }
}

} // verus!
