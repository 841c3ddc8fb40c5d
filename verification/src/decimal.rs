//! Decimal rendering of the reload counter.
//!
//! Every staging path embeds the reload counter in ordinary decimal
//! notation. The conversion is verified against [`dec_rep`], and
//! [`lemma_dec_rep_injective`] shows that distinct counters always render
//! to distinct character sequences — the fact the whole staging scheme
//! rests on, since a path the loader has seen before may be served from
//! its cache instead of from the new bytes.

use vstd::arithmetic::div_mod::lemma_fundamental_div_mod;
use vstd::prelude::*;
use vstd::string::StringExecFns;

verus! {

/// The character for one decimal digit.
pub open spec fn digit_char(d: nat) -> char
    recommends
        d < 10,
{
    if d == 0 {
        '0'
    } else if d == 1 {
        '1'
    } else if d == 2 {
        '2'
    } else if d == 3 {
        '3'
    } else if d == 4 {
        '4'
    } else if d == 5 {
        '5'
    } else if d == 6 {
        '6'
    } else if d == 7 {
        '7'
    } else if d == 8 {
        '8'
    } else {
        '9'
    }
}

/// The ordinary decimal notation of `n`: most significant digit first,
/// no leading zeros (except for `n == 0` itself).
pub open spec fn dec_rep(n: nat) -> Seq<char>
    decreases n,
{
    if n < 10 {
        seq![digit_char(n)]
    } else {
        dec_rep(n / 10).push(digit_char(n % 10))
    }
}

/// The numeric value of one digit character; inverse of [`digit_char`].
pub open spec fn char_val(c: char) -> nat {
    if c == '0' {
        0
    } else if c == '1' {
        1
    } else if c == '2' {
        2
    } else if c == '3' {
        3
    } else if c == '4' {
        4
    } else if c == '5' {
        5
    } else if c == '6' {
        6
    } else if c == '7' {
        7
    } else if c == '8' {
        8
    } else {
        9
    }
}

/// The numeric value of a digit sequence read as decimal notation.
pub open spec fn seq_val(s: Seq<char>) -> nat
    decreases s.len(),
{
    if s.len() == 0 {
        0
    } else {
        seq_val(s.drop_last()) * 10 + char_val(s.last())
    }
}

/// Reading the decimal notation of `n` back yields `n`.
pub proof fn lemma_dec_rep_val(n: nat)
    ensures
        seq_val(dec_rep(n)) == n,
    decreases n,
{
    if n < 10 {
        let s = dec_rep(n);
        assert(s == seq![digit_char(n)]);
        assert(s.len() == 1);
        assert(s.drop_last() =~= Seq::<char>::empty());
        assert(seq_val(s.drop_last()) == 0);
        assert(s.last() == digit_char(n));
        assert(seq_val(s) == seq_val(s.drop_last()) * 10 + char_val(s.last()));
        assert(char_val(digit_char(n)) == n);
    } else {
        lemma_dec_rep_val(n / 10);
        let s = dec_rep(n);
        let q = dec_rep(n / 10);
        assert(s == q.push(digit_char(n % 10)));
        assert(s.len() == q.len() + 1);
        assert(s.drop_last() =~= q);
        assert(s.last() == digit_char(n % 10));
        assert(seq_val(s) == seq_val(s.drop_last()) * 10 + char_val(s.last()));
        assert(char_val(digit_char(n % 10)) == n % 10);
        lemma_fundamental_div_mod(n as int, 10);
        assert(seq_val(s) == (n / 10) * 10 + n % 10);
    }
}

/// Distinct numbers never share a decimal notation. This is what makes a
/// counter-derived staging path fresh on every executed reload.
pub proof fn lemma_dec_rep_injective(a: nat, b: nat)
    requires
        a != b,
    ensures
        dec_rep(a) != dec_rep(b),
{
    lemma_dec_rep_val(a);
    lemma_dec_rep_val(b);
}

/// The decimal digits of `n`, as a string whose view is exactly
/// [`dec_rep`]`(n)`.
pub fn u64_to_decimal(n: u64) -> (r: String)
    ensures
        r@ == dec_rep(n as nat),
    decreases n,
{
    if n < 10 {
        digit_string(n)
    } else {
        proof {
            lemma_fundamental_div_mod(n as int, 10);
        }
        let mut s = u64_to_decimal(n / 10);
        let d = digit_string(n % 10);
        s.append(d.as_str());
        proof {
            assert(s@ =~= dec_rep((n as nat) / 10).push(digit_char((n as nat) % 10)));
        }
        s
    }
}

/// A one-character string for a single decimal digit.
fn digit_string(d: u64) -> (r: String)
    requires
        d < 10,
    ensures
        r@ == seq![digit_char(d as nat)],
{
    let r = if d == 0 {
        String::from_str("0")
    } else if d == 1 {
        String::from_str("1")
    } else if d == 2 {
        String::from_str("2")
    } else if d == 3 {
        String::from_str("3")
    } else if d == 4 {
        String::from_str("4")
    } else if d == 5 {
        String::from_str("5")
    } else if d == 6 {
        String::from_str("6")
    } else if d == 7 {
        String::from_str("7")
    } else if d == 8 {
        String::from_str("8")
    } else {
        String::from_str("9")
    };
    proof {
        reveal_strlit("0");
        reveal_strlit("1");
        reveal_strlit("2");
        reveal_strlit("3");
        reveal_strlit("4");
        reveal_strlit("5");
        reveal_strlit("6");
        reveal_strlit("7");
        reveal_strlit("8");
        reveal_strlit("9");
        assert(r@ =~= seq![digit_char(d as nat)]);
    }
    r
}

} // verus!
