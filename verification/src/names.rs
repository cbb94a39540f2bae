//! Deterministic naming: decimal rendering of identifiers and generations,
//! and the crate, symbol and artifact naming conventions built from it.
//!
//! Every cache lookup, directory scan and toolchain invocation agrees on
//! these names, so they are specified exactly, down to the character.

use vstd::prelude::*;
use vstd::string::*;

verus! {

/// The decimal digit character for a single digit value.
pub open spec fn dec_digit(d: nat) -> char {
    if d == 0 {
        '0'
    } else if d == 1 {
        '1'
    } else if d == 2 {
        '2'
    } else if d == 3 {
        '3'
    } else if d == 4 {
        '4'
    } else if d == 5 {
        '5'
    } else if d == 6 {
        '6'
    } else if d == 7 {
        '7'
    } else if d == 8 {
        '8'
    } else {
        '9'
    }
}

/// The canonical decimal representation of `n`: no sign, no leading zeros
/// (except for `n == 0`, rendered as `"0"`).
pub open spec fn dec_rep(n: nat) -> Seq<char>
    decreases n,
{
    if n < 10 {
        seq![dec_digit(n)]
    } else {
        dec_rep(n / 10).push(dec_digit(n % 10))
    }
}

/// Whether `c` is a decimal digit character.
pub open spec fn is_dec_digit(c: char) -> bool {
    c == '0' || c == '1' || c == '2' || c == '3' || c == '4' || c == '5' || c == '6' || c == '7'
        || c == '8' || c == '9'
}

/// The value of a decimal digit character.
pub open spec fn digit_val(c: char) -> nat
    recommends
        is_dec_digit(c),
{
    if c == '0' {
        0
    } else if c == '1' {
        1
    } else if c == '2' {
        2
    } else if c == '3' {
        3
    } else if c == '4' {
        4
    } else if c == '5' {
        5
    } else if c == '6' {
        6
    } else if c == '7' {
        7
    } else if c == '8' {
        8
    } else {
        9
    }
}

/// The numeric value of a digit string, most significant digit first.
pub open spec fn digits_val(s: Seq<char>) -> nat
    decreases s.len(),
{
    if s.len() == 0 {
        0
    } else {
        digits_val(s.drop_last()) * 10 + digit_val(s.last())
    }
}

/// The canonical decimal representation is made of digits, is never empty,
/// and reading it back yields the rendered value.
pub proof fn lemma_dec_rep_digits(n: nat)
    ensures
        dec_rep(n).len() >= 1,
        forall|i: int| 0 <= i < dec_rep(n).len() ==> is_dec_digit(#[trigger] dec_rep(n)[i]),
        digits_val(dec_rep(n)) == n,
    decreases n,
{
    if n < 10 {
        assert(dec_rep(n) =~= seq![dec_digit(n)]);
        assert(is_dec_digit(dec_digit(n)));
        assert(dec_rep(n).drop_last() =~= Seq::<char>::empty());
        assert(digits_val(Seq::<char>::empty()) == 0);
        assert(digits_val(dec_rep(n)) == digit_val(dec_digit(n)));
    } else {
        lemma_dec_rep_digits(n / 10);
        let r = dec_rep(n / 10);
        let whole = r.push(dec_digit(n % 10));
        assert(dec_rep(n) == whole);
        assert(whole.drop_last() =~= r);
        assert(whole.last() == dec_digit(n % 10));
        assert(is_dec_digit(dec_digit(n % 10)));
        assert(digits_val(whole) == digits_val(r) * 10 + digit_val(dec_digit(n % 10)));
        assert(digit_val(dec_digit(n % 10)) == n % 10);
        assert(digits_val(whole) == (n / 10) * 10 + n % 10);
        assert(forall|i: int| 0 <= i < whole.len() - 1 ==> whole[i] == r[i]);
    }
}

/// One-character string for a single decimal digit.
fn digit_string(d: u64) -> (s: String)
    requires
        d < 10,
    ensures
        s@ =~= seq![dec_digit(d as nat)],
{
    proof {
        reveal_strlit("0");
        reveal_strlit("1");
        reveal_strlit("2");
        reveal_strlit("3");
        reveal_strlit("4");
        reveal_strlit("5");
        reveal_strlit("6");
        reveal_strlit("7");
        reveal_strlit("8");
        reveal_strlit("9");
    }
    let s = if d == 0 {
        String::from_str("0")
    } else if d == 1 {
        String::from_str("1")
    } else if d == 2 {
        String::from_str("2")
    } else if d == 3 {
        String::from_str("3")
    } else if d == 4 {
        String::from_str("4")
    } else if d == 5 {
        String::from_str("5")
    } else if d == 6 {
        String::from_str("6")
    } else if d == 7 {
        String::from_str("7")
    } else if d == 8 {
        String::from_str("8")
    } else {
        String::from_str("9")
    };
    proof {
        assert(s@ =~= seq![dec_digit(d as nat)]);
    }
    s
}

/// Renders `n` in decimal.
pub fn dec_string(n: u64) -> (s: String)
    ensures
        s@ == dec_rep(n as nat),
    decreases n,
{
    if n < 10 {
        digit_string(n)
    } else {
        let mut s = dec_string(n / 10);
        let d = digit_string(n % 10);
        s.append(d.as_str());
        proof {
            assert(s@ =~= dec_rep((n / 10) as nat).push(dec_digit((n % 10) as nat)));
        }
        s
    }
}

/// The crate name for a function identifier.
pub open spec fn crate_name_spec(fn_oid: u32) -> Seq<char> {
    "plrust_fn_oid_"@ + dec_rep(fn_oid as nat)
}

/// The exported entry-point symbol for a function identifier.
pub open spec fn symbol_name_spec(fn_oid: u32) -> Seq<char> {
    crate_name_spec(fn_oid) + "_wrapper"@
}

/// The artifact file name carrying a generation suffix.
pub open spec fn generation_name_spec(prefix: Seq<char>, g: nat, suffix: Seq<char>) -> Seq<char> {
    prefix + seq!['_'] + dec_rep(g) + suffix
}

/// The artifact file name on platforms where no generation suffix is needed.
pub open spec fn plain_name_spec(prefix: Seq<char>, suffix: Seq<char>) -> Seq<char> {
    prefix + suffix
}

/// Computes the crate name for a function identifier.
pub fn crate_name(fn_oid: u32) -> (s: String)
    ensures
        s@ == crate_name_spec(fn_oid),
{
    let mut s = String::from_str("plrust_fn_oid_");
    let digits = dec_string(fn_oid as u64);
    s.append(digits.as_str());
    s
}

/// Computes the exported entry-point symbol for a function identifier.
pub fn symbol_name(fn_oid: u32) -> (s: String)
    ensures
        s@ == symbol_name_spec(fn_oid),
{
    let mut s = crate_name(fn_oid);
    s.append("_wrapper");
    s
}

/// Renders `prefix` + `_` + decimal generation + `suffix`.
pub fn generation_name(prefix: &str, g: u64, suffix: &str) -> (s: String)
    ensures
        s@ == generation_name_spec(prefix@, g as nat, suffix@),
{
    let mut s = String::from_str(prefix);
    s.append("_");
    let digits = dec_string(g);
    s.append(digits.as_str());
    s.append(suffix);
    proof {
        reveal_strlit("_");
        assert(s@ =~= generation_name_spec(prefix@, g as nat, suffix@));
    }
    s
}

/// Renders `prefix` + `suffix`.
pub fn plain_name(prefix: &str, suffix: &str) -> (s: String)
    ensures
        s@ == plain_name_spec(prefix@, suffix@),
{
    let mut s = String::from_str(prefix);
    s.append(suffix);
    s
}

} // verus!
