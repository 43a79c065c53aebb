use vstd::prelude::*;

use vstd::arithmetic::div_mod::lemma_fundamental_div_mod;
use vstd::string::StringExecFns;

verus! {

/// The character for a single decimal digit.
pub open spec fn dec_digit(d: nat) -> char {
    if d == 0 {
        '0'
    } else if d == 1 {
        '1'
    } else if d == 2 {
        '2'
    } else if d == 3 {
        '3'
    } else if d == 4 {
        '4'
    } else if d == 5 {
        '5'
    } else if d == 6 {
        '6'
    } else if d == 7 {
        '7'
    } else if d == 8 {
        '8'
    } else {
        '9'
    }
}

/// The decimal representation of a natural number, most significant digit
/// first and without leading zeros (zero itself is a single digit).
pub open spec fn dec_str(n: nat) -> Seq<char>
    decreases n,
{
    if n < 10 {
        seq![dec_digit(n)]
    } else {
        dec_str(n / 10).push(dec_digit(n % 10))
    }
}

/// The string of one decimal digit.
fn digit_string(d: usize) -> (r: String)
    requires
        d < 10,
    ensures
        r@ == seq![dec_digit(d as nat)],
{
    let s: &str = if d == 0 {
        "0"
    } else if d == 1 {
        "1"
    } else if d == 2 {
        "2"
    } else if d == 3 {
        "3"
    } else if d == 4 {
        "4"
    } else if d == 5 {
        "5"
    } else if d == 6 {
        "6"
    } else if d == 7 {
        "7"
    } else if d == 8 {
        "8"
    } else {
        "9"
    };
    proof {
        reveal_strlit("0");
        reveal_strlit("1");
        reveal_strlit("2");
        reveal_strlit("3");
        reveal_strlit("4");
        reveal_strlit("5");
        reveal_strlit("6");
        reveal_strlit("7");
        reveal_strlit("8");
        reveal_strlit("9");
        assert(s@ =~= seq![dec_digit(d as nat)]);
    }
    s.to_owned()
}

/// The decimal string of the given number.
pub fn usize_dec_string(n: usize) -> (r: String)
    ensures
        r@ == dec_str(n as nat),
    decreases n,
{
    if n < 10 {
        digit_string(n)
    } else {
        let mut s = usize_dec_string(n / 10);
        let d = digit_string(n % 10);
        s.append(d.as_str());
        proof {
            assert(s@ =~= dec_str((n / 10) as nat).push(dec_digit((n % 10) as nat)));
        }
        s
    }
}

/// A decimal representation holds at least one digit, and at least two for
/// numbers of two digits.
proof fn lemma_dec_str_len(n: nat)
    ensures
        dec_str(n).len() >= 1,
        n >= 10 ==> dec_str(n).len() >= 2,
    decreases n,
{
    if n >= 10 {
        lemma_dec_str_len(n / 10);
    }
}

/// Each digit character names one digit.
proof fn lemma_dec_digit_injective(a: nat, b: nat)
    requires
        a < 10,
        b < 10,
        dec_digit(a) == dec_digit(b),
    ensures
        a == b,
{
}

/// Distinct numbers have distinct decimal representations, so labels drawn
/// from distinct counter values never collide.
pub proof fn lemma_dec_str_injective(a: nat, b: nat)
    ensures
        a != b ==> dec_str(a) != dec_str(b),
    decreases a + b,
{
    if a != b && dec_str(a) == dec_str(b) {
        if a < 10 && b < 10 {
            assert(dec_str(a)[0] == dec_digit(a));
            assert(dec_str(b)[0] == dec_digit(b));
            lemma_dec_digit_injective(a, b);
        } else if a < 10 {
            lemma_dec_str_len(b);
            assert(dec_str(a).len() == 1);
        } else if b < 10 {
            lemma_dec_str_len(a);
            assert(dec_str(b).len() == 1);
        } else {
            let sa = dec_str(a / 10);
            let sb = dec_str(b / 10);
            assert(sa.push(dec_digit(a % 10)) == sb.push(dec_digit(b % 10)));
            assert(sa.len() == sb.len());
            assert(sa.push(dec_digit(a % 10))[sa.len() as int] == dec_digit(a % 10));
            assert(sb.push(dec_digit(b % 10))[sb.len() as int] == dec_digit(b % 10));
            lemma_dec_digit_injective(a % 10, b % 10);
            assert forall|i: int| 0 <= i < sa.len() implies sa[i] == sb[i] by {
                assert(sa[i] == sa.push(dec_digit(a % 10))[i]);
                assert(sb[i] == sb.push(dec_digit(b % 10))[i]);
            }
            assert(sa =~= sb);
            lemma_fundamental_div_mod(a as int, 10);
            lemma_fundamental_div_mod(b as int, 10);
            assert(a / 10 != b / 10);
            lemma_dec_str_injective(a / 10, b / 10);
        }
    }
}

} // verus!
