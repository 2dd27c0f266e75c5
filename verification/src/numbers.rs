//! Decimal numerals: the exact character sequence of an integer, as a JSON
//! integer token, with the executable renderers proved against it.

use vstd::prelude::*;

verus! {

/// The digit character for a value below ten.
pub open spec fn digit_char(d: nat) -> char {
    if d == 0 {
        '0'
    } else if d == 1 {
        '1'
    } else if d == 2 {
        '2'
    } else if d == 3 {
        '3'
    } else if d == 4 {
        '4'
    } else if d == 5 {
        '5'
    } else if d == 6 {
        '6'
    } else if d == 7 {
        '7'
    } else if d == 8 {
        '8'
    } else {
        '9'
    }
}

/// The decimal numeral of `n`, most significant digit first, no sign and no
/// leading zero (a single `'0'` for zero itself).
pub open spec fn dec_of_nat(n: nat) -> Seq<char>
    decreases n,
{
    if n < 10 {
        seq![digit_char(n)]
    } else {
        dec_of_nat(n / 10).push(digit_char(n % 10))
    }
}

/// The decimal numeral of `n`, with a leading `'-'` when `n` is negative.
pub open spec fn dec_of_int(n: int) -> Seq<char> {
    if n < 0 {
        seq!['-'] + dec_of_nat((-n) as nat)
    } else {
        dec_of_nat(n as nat)
    }
}

proof fn lemma_dec_of_nat_first_digit(n: nat)
    ensures
        dec_of_nat(n).len() >= 1,
        dec_of_nat(n)[0] != '-',
    decreases n,
{
    if n >= 10 {
        lemma_dec_of_nat_first_digit(n / 10);
        assert(dec_of_nat(n)[0] == dec_of_nat(n / 10)[0]);
    }
}

proof fn lemma_dec_of_nat_injective(a: nat, b: nat)
    requires
        dec_of_nat(a) == dec_of_nat(b),
    ensures
        a == b,
    decreases a,
{
    lemma_dec_of_nat_first_digit(a / 10);
    lemma_dec_of_nat_first_digit(b / 10);
    if a < 10 && b < 10 {
        assert(dec_of_nat(a) == seq![digit_char(a)]);
        assert(dec_of_nat(b) == seq![digit_char(b)]);
        assert(dec_of_nat(a)[0] == digit_char(a));
        assert(dec_of_nat(b)[0] == digit_char(b));
        assert(digit_char(a) == digit_char(b));
        assert(a == b);
    } else if a < 10 {
        assert(dec_of_nat(a).len() == 1);
        assert(dec_of_nat(b) == dec_of_nat(b / 10).push(digit_char(b % 10)));
        assert(dec_of_nat(b).len() >= 2);
        assert(false);
    } else if b < 10 {
        assert(dec_of_nat(b).len() == 1);
        assert(dec_of_nat(a) == dec_of_nat(a / 10).push(digit_char(a % 10)));
        assert(dec_of_nat(a).len() >= 2);
        assert(false);
    } else {
        assert(dec_of_nat(a) == dec_of_nat(a / 10).push(digit_char(a % 10)));
        assert(dec_of_nat(b) == dec_of_nat(b / 10).push(digit_char(b % 10)));
        assert(dec_of_nat(a).last() == digit_char(a % 10));
        assert(dec_of_nat(b).last() == digit_char(b % 10));
        assert(digit_char(a % 10) == digit_char(b % 10));
        assert(a % 10 == b % 10);
        assert(dec_of_nat(a / 10).push(digit_char(a % 10)).drop_last() =~= dec_of_nat(a / 10));
        assert(dec_of_nat(b / 10).push(digit_char(b % 10)).drop_last() =~= dec_of_nat(b / 10));
        assert(dec_of_nat(a / 10) == dec_of_nat(b / 10));
        lemma_dec_of_nat_injective(a / 10, b / 10);
    }
}

/// Law: a decimal numeral fixes its integer — two integers with the same
/// numeral are equal — so a contract that gives a number's text as
/// `dec_of_int(d)` pins `d` exactly.
pub proof fn lemma_dec_of_int_injective(a: int, b: int)
    requires
        dec_of_int(a) == dec_of_int(b),
    ensures
        a == b,
{
    lemma_dec_of_nat_first_digit((-a) as nat);
    lemma_dec_of_nat_first_digit((-b) as nat);
    lemma_dec_of_nat_first_digit(a as nat);
    lemma_dec_of_nat_first_digit(b as nat);
    if a < 0 && b < 0 {
        let sa = dec_of_nat((-a) as nat);
        let sb = dec_of_nat((-b) as nat);
        assert(dec_of_int(a) == seq!['-'] + sa);
        assert(dec_of_int(b) == seq!['-'] + sb);
        assert(sa.len() == sb.len());
        assert(sa =~= sb) by {
            assert(forall|i: int|
                0 <= i < sa.len() ==> sa[i] == (seq!['-'] + sa)[i + 1] && sb[i] == (seq!['-']
                    + sb)[i + 1]);
        }
        lemma_dec_of_nat_injective((-a) as nat, (-b) as nat);
    } else if a < 0 {
        assert(dec_of_int(b)[0] != '-');
        assert(dec_of_int(a)[0] == '-');
        assert(false);
    } else if b < 0 {
        assert(dec_of_int(a)[0] != '-');
        assert(dec_of_int(b)[0] == '-');
        assert(false);
    } else {
        lemma_dec_of_nat_injective(a as nat, b as nat);
    }
}

fn digit_str(d: u64) -> (r: &'static str)
    requires
        d < 10,
    ensures
        r@ == seq![digit_char(d as nat)],
{
    let r: &'static str = if d == 0 {
        "0"
    } else if d == 1 {
        "1"
    } else if d == 2 {
        "2"
    } else if d == 3 {
        "3"
    } else if d == 4 {
        "4"
    } else if d == 5 {
        "5"
    } else if d == 6 {
        "6"
    } else if d == 7 {
        "7"
    } else if d == 8 {
        "8"
    } else {
        "9"
    };
    proof {
        reveal_strlit("0");
        reveal_strlit("1");
        reveal_strlit("2");
        reveal_strlit("3");
        reveal_strlit("4");
        reveal_strlit("5");
        reveal_strlit("6");
        reveal_strlit("7");
        reveal_strlit("8");
        reveal_strlit("9");
        assert(r@ =~= seq![digit_char(d as nat)]);
    }
    r
}

/// The decimal numeral of `n` as a string.
pub fn dec_u64(n: u64) -> (r: String)
    ensures
        r@ == dec_of_nat(n as nat),
    decreases n,
{
    if n < 10 {
        digit_str(n).to_owned()
    } else {
        let mut s = dec_u64(n / 10);
        s.append(digit_str(n % 10));
        proof {
            assert(s@ =~= dec_of_nat(n as nat));
        }
        s
    }
}

/// The decimal numeral of `n` as a string, `'-'`-prefixed when negative.
pub fn dec_i64(n: i64) -> (r: String)
    ensures
        r@ == dec_of_int(n as int),
{
    if n >= 0 {
        dec_u64(n as u64)
    } else {
        let mag: u64 = (-(n as i128)) as u64;
        proof {
            assert(mag as int == -(n as int));
        }
        let mut s: String = "-".to_owned();
        let digits = dec_u64(mag);
        s.append(digits.as_str());
        proof {
            reveal_strlit("-");
            assert(s@ =~= dec_of_int(n as int));
        }
        s
    }
}

} // verus!
