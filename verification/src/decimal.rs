use vstd::prelude::*;
use vstd::string::StringExecFns;

verus! {

/// The character for one decimal digit.
pub open spec fn decimal_digit(d: nat) -> char
    recommends
        d < 10,
{
    if d == 0 {
        '0'
    } else if d == 1 {
        '1'
    } else if d == 2 {
        '2'
    } else if d == 3 {
        '3'
    } else if d == 4 {
        '4'
    } else if d == 5 {
        '5'
    } else if d == 6 {
        '6'
    } else if d == 7 {
        '7'
    } else if d == 8 {
        '8'
    } else {
        '9'
    }
}

/// The decimal representation of `n`, most significant digit first, with no
/// leading zero except for `n == 0` itself.
pub open spec fn decimal_spec(n: nat) -> Seq<char>
    decreases n,
{
    if n < 10 {
        seq![decimal_digit(n)]
    } else {
        decimal_spec(n / 10) + seq![decimal_digit(n % 10)]
    }
}

fn digit_str(d: u64) -> (r: &'static str)
    requires
        d < 10,
    ensures
        r@ =~= seq![decimal_digit(d as nat)],
{
    proof {
        reveal_strlit("0");
        reveal_strlit("1");
        reveal_strlit("2");
        reveal_strlit("3");
        reveal_strlit("4");
        reveal_strlit("5");
        reveal_strlit("6");
        reveal_strlit("7");
        reveal_strlit("8");
        reveal_strlit("9");
    }
    match d {
        0 => "0",
        1 => "1",
        2 => "2",
        3 => "3",
        4 => "4",
        5 => "5",
        6 => "6",
        7 => "7",
        8 => "8",
        _ => "9",
    }
}

proof fn lemma_decimal_len_pos(n: nat)
    ensures
        decimal_spec(n).len() >= 1,
        n >= 10 ==> decimal_spec(n).len() >= 2,
    decreases n,
{
    if n >= 10 {
        lemma_decimal_len_pos(n / 10);
    }
}

proof fn lemma_digit_injective(a: nat, b: nat)
    requires
        a < 10,
        b < 10,
        decimal_digit(a) == decimal_digit(b),
    ensures
        a == b,
{
}

/// Two numbers with the same decimal representation are the same number: the
/// rendering loses nothing.
pub proof fn lemma_decimal_injective(a: nat, b: nat)
    ensures
        decimal_spec(a) == decimal_spec(b) ==> a == b,
    decreases a + b,
{
    if decimal_spec(a) == decimal_spec(b) {
        lemma_decimal_len_pos(a);
        lemma_decimal_len_pos(b);
        if a < 10 && b < 10 {
            assert(decimal_spec(a)[0] == decimal_spec(b)[0]);
            lemma_digit_injective(a, b);
        } else if a < 10 && b >= 10 {
            assert(decimal_spec(a).len() == 1);
            assert(false);
        } else if a >= 10 && b < 10 {
            assert(decimal_spec(b).len() == 1);
            assert(false);
        } else {
            let sa = decimal_spec(a / 10);
            let sb = decimal_spec(b / 10);
            assert(sa.len() == sb.len());
            let last = sa.len() as int;
            assert(decimal_spec(a)[last] == decimal_digit(a % 10));
            assert(decimal_spec(b)[last] == decimal_digit(b % 10));
            lemma_digit_injective(a % 10, b % 10);
            assert(sa =~= sb) by {
                assert forall|i: int| 0 <= i < sa.len() implies sa[i] == sb[i] by {
                    assert(decimal_spec(a)[i] == sa[i]);
                    assert(decimal_spec(b)[i] == sb[i]);
                }
            }
            lemma_decimal_injective(a / 10, b / 10);
            vstd::arithmetic::div_mod::lemma_fundamental_div_mod(a as int, 10);
            vstd::arithmetic::div_mod::lemma_fundamental_div_mod(b as int, 10);
        }
    }
}

/// Renders `n` in decimal, exactly as `decimal_spec` states.
pub fn u64_to_decimal(n: u64) -> (r: String)
    ensures
        r@ == decimal_spec(n as nat),
    decreases n,
{
    if n < 10 {
        digit_str(n).to_owned()
    } else {
        let mut s = u64_to_decimal(n / 10);
        s.append(digit_str(n % 10));
        proof {
            assert(s@ =~= decimal_spec(n as nat));
        }
        s
    }
}

} // verus!
