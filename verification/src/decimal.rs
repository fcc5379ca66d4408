//! Decimal rendering of register indices.
//!
//! Register names embed the decimal representation of a register index. The
//! rendering is specified by [`dec_seq`], computed by [`decimal_string`], and
//! proved injective, which is what makes the generated names collision-free
//! within a namespace.

use vstd::prelude::*;
use vstd::string::StringExecFns;

verus! {

/// The character for the decimal digit `d`.
pub open spec fn dec_digit(d: nat) -> char
    recommends
        d < 10,
{
    if d == 0 {
        '0'
    } else if d == 1 {
        '1'
    } else if d == 2 {
        '2'
    } else if d == 3 {
        '3'
    } else if d == 4 {
        '4'
    } else if d == 5 {
        '5'
    } else if d == 6 {
        '6'
    } else if d == 7 {
        '7'
    } else if d == 8 {
        '8'
    } else {
        '9'
    }
}

/// The decimal digit characters of `n`, most significant first, without
/// leading zeros (a single `'0'` for `n == 0`).
pub open spec fn dec_seq(n: nat) -> Seq<char>
    decreases n,
{
    if n < 10 {
        seq![dec_digit(n)]
    } else {
        dec_seq(n / 10).push(dec_digit(n % 10))
    }
}

proof fn lemma_dec_seq_len(n: nat)
    ensures
        dec_seq(n).len() >= 1,
{
}

/// Distinct indices render to distinct digit sequences.
pub proof fn lemma_dec_seq_injective(a: nat, b: nat)
    requires
        a != b,
    ensures
        dec_seq(a) != dec_seq(b),
    decreases a + b,
{
    if a < 10 && b < 10 {
        assert(dec_seq(a)[0] == dec_digit(a));
        assert(dec_seq(b)[0] == dec_digit(b));
    } else if a < 10 {
        lemma_dec_seq_len(b / 10);
        assert(dec_seq(a).len() == 1);
        assert(dec_seq(b).len() >= 2);
    } else if b < 10 {
        lemma_dec_seq_len(a / 10);
        assert(dec_seq(b).len() == 1);
        assert(dec_seq(a).len() >= 2);
    } else {
        vstd::arithmetic::div_mod::lemma_fundamental_div_mod(a as int, 10);
        vstd::arithmetic::div_mod::lemma_fundamental_div_mod(b as int, 10);
        if a % 10 != b % 10 {
            assert(dec_seq(a).last() == dec_digit(a % 10));
            assert(dec_seq(b).last() == dec_digit(b % 10));
        } else {
            assert(a / 10 != b / 10);
            lemma_dec_seq_injective(a / 10, b / 10);
            if dec_seq(a) == dec_seq(b) {
                assert(dec_seq(a).drop_last() =~= dec_seq(a / 10));
                assert(dec_seq(b).drop_last() =~= dec_seq(b / 10));
                assert(false);
            }
        }
    }
}

fn digit_string(d: usize) -> (r: String)
    requires
        d < 10,
    ensures
        r@ == seq![dec_digit(d as nat)],
{
    let mut s = String::new();
    if d == 0 {
        s.append("0");
        proof {
            reveal_strlit("0");
            assert(s@ =~= seq![dec_digit(d as nat)]);
        }
    } else if d == 1 {
        s.append("1");
        proof {
            reveal_strlit("1");
            assert(s@ =~= seq![dec_digit(d as nat)]);
        }
    } else if d == 2 {
        s.append("2");
        proof {
            reveal_strlit("2");
            assert(s@ =~= seq![dec_digit(d as nat)]);
        }
    } else if d == 3 {
        s.append("3");
        proof {
            reveal_strlit("3");
            assert(s@ =~= seq![dec_digit(d as nat)]);
        }
    } else if d == 4 {
        s.append("4");
        proof {
            reveal_strlit("4");
            assert(s@ =~= seq![dec_digit(d as nat)]);
        }
    } else if d == 5 {
        s.append("5");
        proof {
            reveal_strlit("5");
            assert(s@ =~= seq![dec_digit(d as nat)]);
        }
    } else if d == 6 {
        s.append("6");
        proof {
            reveal_strlit("6");
            assert(s@ =~= seq![dec_digit(d as nat)]);
        }
    } else if d == 7 {
        s.append("7");
        proof {
            reveal_strlit("7");
            assert(s@ =~= seq![dec_digit(d as nat)]);
        }
    } else if d == 8 {
        s.append("8");
        proof {
            reveal_strlit("8");
            assert(s@ =~= seq![dec_digit(d as nat)]);
        }
    } else {
        s.append("9");
        proof {
            reveal_strlit("9");
            assert(s@ =~= seq![dec_digit(d as nat)]);
        }
    }
    s
}

/// The decimal representation of `n`, exactly the characters of
/// [`dec_seq`]`(n)`.
pub fn decimal_string(n: usize) -> (r: String)
    ensures
        r@ == dec_seq(n as nat),
    decreases n,
{
    if n < 10 {
        digit_string(n)
    } else {
        let mut s = decimal_string(n / 10);
        let d = digit_string(n % 10);
        s.append(d.as_str());
        proof {
            assert(s@ =~= dec_seq(n as nat));
        }
        s
    }
}

} // verus!
