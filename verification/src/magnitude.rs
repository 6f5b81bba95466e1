//! Compact magnitude formatting for non-negative counts.
//!
//! A count is reduced by factors of 1024 until it falls below 1200 (or
//! eight reductions have happened), and the reduced value is printed in
//! decimal followed by the unit suffix for the number of reductions.
//! Zero formats as the empty string, which the table uses as its
//! placeholder for "unknown".
use vstd::prelude::*;
use vstd::string::StringExecFns;
use vstd::arithmetic::div_mod::lemma_div_denominator;
use vstd::arithmetic::div_mod::lemma_fundamental_div_mod;

verus! {

/// The decimal digit character for `d` (meaningful for `0 <= d <= 9`).
pub open spec fn digit_char(d: int) -> char {
    if d == 0 { '0' }
    else if d == 1 { '1' }
    else if d == 2 { '2' }
    else if d == 3 { '3' }
    else if d == 4 { '4' }
    else if d == 5 { '5' }
    else if d == 6 { '6' }
    else if d == 7 { '7' }
    else if d == 8 { '8' }
    else { '9' }
}

/// The decimal digits of `v`, most significant first, with no sign,
/// separators or padding.
pub open spec fn dec_chars(v: nat) -> Seq<char>
    decreases v,
{
    if v < 10 {
        seq![digit_char(v as int)]
    } else {
        dec_chars(v / 10).push(digit_char((v % 10) as int))
    }
}

/// The unit suffix after `i` reductions by 1024 (meaningful for `0 <= i <= 8`).
pub open spec fn suffix_chars(i: int) -> Seq<char> {
    if i == 0 { Seq::empty() }
    else if i == 1 { "K"@ }
    else if i == 2 { "M"@ }
    else if i == 3 { "G"@ }
    else if i == 4 { "T"@ }
    else if i == 5 { "P"@ }
    else if i == 6 { "E"@ }
    else if i == 7 { "Z"@ }
    else { "Y"@ }
}

/// One reduction step: starting from value `v` with `i` reductions already
/// taken, divide by 1024 while the value is at least 1200 and fewer than
/// eight reductions have happened. Returns the final value and count.
pub open spec fn reduce(v: nat, i: nat) -> (nat, nat)
    decreases 8 - i,
{
    if v >= 1200 && i < 8 {
        reduce(v / 1024, i + 1)
    } else {
        (v, i)
    }
}

/// What `u64_to_str` returns: empty for zero, otherwise the reduced value
/// in decimal followed by the unit suffix.
pub open spec fn spec_u64_to_str(v: nat) -> Seq<char> {
    if v == 0 {
        Seq::empty()
    } else {
        dec_chars(reduce(v, 0).0) + suffix_chars(reduce(v, 0).1 as int)
    }
}

/// 1024 raised to the `k`-th power.
pub open spec fn pow1024(k: nat) -> nat
    decreases k,
{
    if k == 0 { 1 } else { 1024 * pow1024((k - 1) as nat) }
}

fn digit_str(d: u64) -> (r: &'static str)
    requires
        d < 10,
    ensures
        r@ == seq![digit_char(d as int)],
{
    proof {
        reveal_strlit("0");
        reveal_strlit("1");
        reveal_strlit("2");
        reveal_strlit("3");
        reveal_strlit("4");
        reveal_strlit("5");
        reveal_strlit("6");
        reveal_strlit("7");
        reveal_strlit("8");
        reveal_strlit("9");
    }
    let r: &'static str = if d == 0 { "0" }
    else if d == 1 { "1" }
    else if d == 2 { "2" }
    else if d == 3 { "3" }
    else if d == 4 { "4" }
    else if d == 5 { "5" }
    else if d == 6 { "6" }
    else if d == 7 { "7" }
    else if d == 8 { "8" }
    else { "9" };
    proof {
        assert(r@ =~= seq![digit_char(d as int)]);
    }
    r
}

/// The decimal digits of `v` as a string, most significant first.
pub fn u64_to_dec(v: u64) -> (r: String)
    ensures
        r@ == dec_chars(v as nat),
    decreases v,
{
    if v < 10 {
        let r = String::from_str(digit_str(v));
        proof {
            assert(r@ =~= dec_chars(v as nat));
        }
        r
    } else {
        let mut r = u64_to_dec(v / 10);
        r.append(digit_str(v % 10));
        proof {
            assert(r@ =~= dec_chars(v as nat));
        }
        r
    }
}

fn suffix_str(i: usize) -> (r: &'static str)
    requires
        i <= 8,
    ensures
        r@ == suffix_chars(i as int),
{
    proof {
        reveal_strlit("");
        reveal_strlit("K");
        reveal_strlit("M");
        reveal_strlit("G");
        reveal_strlit("T");
        reveal_strlit("P");
        reveal_strlit("E");
        reveal_strlit("Z");
        reveal_strlit("Y");
        assert(""@ =~= Seq::<char>::empty());
    }
    if i == 0 { "" }
    else if i == 1 { "K" }
    else if i == 2 { "M" }
    else if i == 3 { "G" }
    else if i == 4 { "T" }
    else if i == 5 { "P" }
    else if i == 6 { "E" }
    else if i == 7 { "Z" }
    else { "Y" }
}

/// Format a count as a compact string: empty for zero, otherwise the
/// count reduced by factors of 1024 while it is at least 1200 (at most
/// eight times), in decimal, followed by the matching unit suffix.
pub fn u64_to_str(v: u64) -> (r: String)
    ensures
        r@ == spec_u64_to_str(v as nat),
{
    if v == 0 {
        return String::new();
    }
    let ghost v0: nat = v as nat;
    let mut v = v;
    let mut i: usize = 0;
    while v >= 1200 && i < 8
        invariant
            i <= 8,
            reduce(v as nat, i as nat) == reduce(v0, 0),
        decreases 8 - i,
    {
        v = v / 1024;
        i = i + 1;
    }
    let mut r = u64_to_dec(v);
    r.append(suffix_str(i));
    r
}

proof fn lemma_reduce_from(v: nat, i: nat)
    requires
        i <= 8,
    ensures
        i <= reduce(v, i).1 <= 8,
        reduce(v, i).0 == v / pow1024((reduce(v, i).1 - i) as nat),
        reduce(v, i).0 < 1200 || reduce(v, i).1 == 8,
    decreases 8 - i,
{
    if v >= 1200 && i < 8 {
        lemma_reduce_from(v / 1024, i + 1);
        let k = reduce(v, i).1;
        assert(reduce(v, i) == reduce(v / 1024, i + 1));
        let m = (k - (i + 1)) as nat;
        assert(reduce(v / 1024, i + 1).0 == (v / 1024) / pow1024(m));
        lemma_pow1024_pos(m);
        lemma_div_denominator(v as int, 1024, pow1024(m) as int);
        assert((v / 1024) / pow1024(m) == v / (1024 * pow1024(m)));
        assert(pow1024((m + 1) as nat) == 1024 * pow1024(m));
        assert((k - i) as nat == m + 1);
    } else {
        assert(pow1024(0) == 1);
        assert(v / 1 == v) by (nonlinear_arith);
    }
}

/// The reduction behind the magnitude formatter is exact division: it
/// stops after at most eight steps, and the reduced value is the original
/// count divided by the matching power of 1024, so the original count
/// lies in the window `[r * 1024^k, (r + 1) * 1024^k)` around what is
/// printed.
pub proof fn lemma_magnitude_reduction(v: nat)
    ensures
        reduce(v, 0).1 <= 8,
        reduce(v, 0).0 == v / pow1024(reduce(v, 0).1),
        reduce(v, 0).0 * pow1024(reduce(v, 0).1) <= v,
        v < (reduce(v, 0).0 + 1) * pow1024(reduce(v, 0).1),
{
    lemma_reduce_from(v, 0);
    let r = reduce(v, 0).0;
    let k = reduce(v, 0).1;
    let p = pow1024(k);
    lemma_pow1024_pos(k);
    lemma_fundamental_div_mod(v as int, p as int);
    assert(v == p * (v / p) + v % p);
    assert(r * p <= v && v < (r + 1) * p) by (nonlinear_arith)
        requires
            v == p * r + v % p,
            0 <= v % p < p,
            p > 0,
    ;
}

proof fn lemma_pow1024_pos(k: nat)
    ensures
        pow1024(k) >= 1,
    decreases k,
{
    if k > 0 {
        lemma_pow1024_pos((k - 1) as nat);
    }
}

} // verus!
