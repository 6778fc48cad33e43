//! Verified rendering of unsigned integers as decimal text, the one
//! numeric notation the pipeline's reports use: list indices, page
//! numbers, star counts and trust scores are all printed through it.

use vstd::prelude::*;

verus! {

/// The decimal digit character standing for `d`, for `d` in `[0, 10)`.
pub open spec fn spec_digit_char(d: int) -> char
    recommends
        0 <= d < 10,
{
    if d == 0 {
        '0'
    } else if d == 1 {
        '1'
    } else if d == 2 {
        '2'
    } else if d == 3 {
        '3'
    } else if d == 4 {
        '4'
    } else if d == 5 {
        '5'
    } else if d == 6 {
        '6'
    } else if d == 7 {
        '7'
    } else if d == 8 {
        '8'
    } else {
        '9'
    }
}

/// The decimal rendering of a nonnegative integer, most significant
/// digit first, with no leading zero except for the number `0` itself.
pub open spec fn spec_dec(n: int) -> Seq<char>
    recommends
        n >= 0,
    decreases n,
{
    if n < 10 {
        seq![spec_digit_char(n)]
    } else {
        spec_dec(n / 10) + seq![spec_digit_char(n % 10)]
    }
}

/// Appends the digit character of `d` to `out`.
pub fn append_digit(out: &mut String, d: u64)
    requires
        d < 10,
    ensures
        final(out)@ == old(out)@ + seq![spec_digit_char(d as int)],
{
    proof {
        reveal_strlit("0");
        reveal_strlit("1");
        reveal_strlit("2");
        reveal_strlit("3");
        reveal_strlit("4");
        reveal_strlit("5");
        reveal_strlit("6");
        reveal_strlit("7");
        reveal_strlit("8");
        reveal_strlit("9");
    }
    if d == 0 {
        out.append("0");
        assert(out@ =~= old(out)@ + seq![spec_digit_char(d as int)]);
    } else if d == 1 {
        out.append("1");
        assert(out@ =~= old(out)@ + seq![spec_digit_char(d as int)]);
    } else if d == 2 {
        out.append("2");
        assert(out@ =~= old(out)@ + seq![spec_digit_char(d as int)]);
    } else if d == 3 {
        out.append("3");
        assert(out@ =~= old(out)@ + seq![spec_digit_char(d as int)]);
    } else if d == 4 {
        out.append("4");
        assert(out@ =~= old(out)@ + seq![spec_digit_char(d as int)]);
    } else if d == 5 {
        out.append("5");
        assert(out@ =~= old(out)@ + seq![spec_digit_char(d as int)]);
    } else if d == 6 {
        out.append("6");
        assert(out@ =~= old(out)@ + seq![spec_digit_char(d as int)]);
    } else if d == 7 {
        out.append("7");
        assert(out@ =~= old(out)@ + seq![spec_digit_char(d as int)]);
    } else if d == 8 {
        out.append("8");
        assert(out@ =~= old(out)@ + seq![spec_digit_char(d as int)]);
    } else {
        out.append("9");
        assert(out@ =~= old(out)@ + seq![spec_digit_char(d as int)]);
    }
}

/// Renders `n` in decimal.
pub fn u64_to_dec(n: u64) -> (s: String)
    ensures
        s@ == spec_dec(n as int),
    decreases n,
{
    if n < 10 {
        let mut s = String::new();
        append_digit(&mut s, n);
        assert(s@ =~= spec_dec(n as int));
        s
    } else {
        let q = n / 10;
        let r = n % 10;
        assert(q < n) by (nonlinear_arith)
            requires
                n >= 10,
                q == n / 10,
        ;
        let mut s = u64_to_dec(q);
        append_digit(&mut s, r);
        assert(s@ =~= spec_dec(n as int));
        s
    }
}

} // verus!
