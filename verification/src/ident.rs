//! Synthesis of placeholder parameter names for unnamed fields.
//!
//! An unnamed field is given the parameter name `__binding_<i>`, where `<i>`
//! is the field's zero-based position within its variant, written in decimal.
//! The name is a pure function of the position alone, so deriving the same
//! declaration twice yields identical names, and distinct positions within a
//! variant always yield distinct names.

use vstd::prelude::*;
use vstd::string::StringExecFns;
use vstd::arithmetic::div_mod::lemma_fundamental_div_mod;

verus! {

/// The decimal digit character for `d` (0 through 9).
pub open spec fn digit_char(d: nat) -> char {
    if d == 0 {
        '0'
    } else if d == 1 {
        '1'
    } else if d == 2 {
        '2'
    } else if d == 3 {
        '3'
    } else if d == 4 {
        '4'
    } else if d == 5 {
        '5'
    } else if d == 6 {
        '6'
    } else if d == 7 {
        '7'
    } else if d == 8 {
        '8'
    } else {
        '9'
    }
}

/// The decimal representation of `n`, most significant digit first, with no
/// leading zeros (zero itself is the single digit `0`).
pub open spec fn dec_rep(n: nat) -> Seq<char>
    decreases n,
{
    if n < 10 {
        seq![digit_char(n)]
    } else {
        dec_rep(n / 10).push(digit_char(n % 10))
    }
}

/// The placeholder name synthesized for the unnamed field at position `i`.
pub open spec fn placeholder(i: nat) -> Seq<char> {
    "__binding_"@ + dec_rep(i)
}

fn digit_str(d: usize) -> (r: &'static str)
    requires
        d < 10,
    ensures
        r@ == seq![digit_char(d as nat)],
{
    let r: &'static str = if d == 0 {
        "0"
    } else if d == 1 {
        "1"
    } else if d == 2 {
        "2"
    } else if d == 3 {
        "3"
    } else if d == 4 {
        "4"
    } else if d == 5 {
        "5"
    } else if d == 6 {
        "6"
    } else if d == 7 {
        "7"
    } else if d == 8 {
        "8"
    } else {
        "9"
    };
    proof {
        reveal_strlit("0");
        reveal_strlit("1");
        reveal_strlit("2");
        reveal_strlit("3");
        reveal_strlit("4");
        reveal_strlit("5");
        reveal_strlit("6");
        reveal_strlit("7");
        reveal_strlit("8");
        reveal_strlit("9");
        assert(r@ =~= seq![digit_char(d as nat)]);
    }
    r
}

fn push_dec_rep(n: usize, out: &mut String)
    ensures
        final(out)@ == old(out)@ + dec_rep(n as nat),
    decreases n,
{
    if n >= 10 {
        push_dec_rep(n / 10, out);
    }
    let d = digit_str(n % 10);
    out.append(d);
    proof {
        assert(out@ =~= old(out)@ + dec_rep(n as nat));
    }
}

/// The synthesized parameter name for the unnamed field at position `i`.
pub fn placeholder_name(i: usize) -> (r: String)
    ensures
        r@ == placeholder(i as nat),
{
    let mut r: String = "__binding_".to_owned();
    push_dec_rep(i, &mut r);
    r
}

proof fn lemma_dec_rep_len(n: nat)
    ensures
        dec_rep(n).len() >= 1,
    decreases n,
{
    if n >= 10 {
        lemma_dec_rep_len(n / 10);
    }
}

proof fn lemma_digit_char_injective(a: nat, b: nat)
    requires
        a < 10,
        b < 10,
        digit_char(a) == digit_char(b),
    ensures
        a == b,
{
}

proof fn lemma_dec_rep_injective(a: nat, b: nat)
    requires
        dec_rep(a) == dec_rep(b),
    ensures
        a == b,
    decreases a + b,
{
    if a < 10 && b < 10 {
        assert(dec_rep(a)[0] == digit_char(a));
        assert(dec_rep(b)[0] == digit_char(b));
        lemma_digit_char_injective(a, b);
    } else if a < 10 {
        lemma_dec_rep_len(b / 10);
        assert(dec_rep(b).len() == dec_rep(b / 10).len() + 1);
        assert(false);
    } else if b < 10 {
        lemma_dec_rep_len(a / 10);
        assert(dec_rep(a).len() == dec_rep(a / 10).len() + 1);
        assert(false);
    } else {
        assert(dec_rep(a).last() == digit_char(a % 10));
        assert(dec_rep(b).last() == digit_char(b % 10));
        lemma_digit_char_injective(a % 10, b % 10);
        assert(dec_rep(a).drop_last() =~= dec_rep(a / 10));
        assert(dec_rep(b).drop_last() =~= dec_rep(b / 10));
        lemma_dec_rep_injective(a / 10, b / 10);
        lemma_fundamental_div_mod(a as int, 10);
        lemma_fundamental_div_mod(b as int, 10);
    }
}

/// Placeholder names are unique within a variant: two distinct field
/// positions never synthesize the same name.
pub proof fn lemma_placeholder_injective(i: nat, j: nat)
    requires
        placeholder(i) == placeholder(j),
    ensures
        i == j,
{
    let p = "__binding_"@;
    assert(dec_rep(i) =~= dec_rep(j)) by {
        assert((p + dec_rep(i)).len() == (p + dec_rep(j)).len());
        assert forall|k: int| 0 <= k < dec_rep(i).len() implies dec_rep(i)[k] == dec_rep(j)[k] by {
            assert((p + dec_rep(i))[p.len() + k] == dec_rep(i)[k]);
            assert((p + dec_rep(j))[p.len() + k] == dec_rep(j)[k]);
        }
    }
    lemma_dec_rep_injective(i as nat, j as nat);
}

} // verus!
