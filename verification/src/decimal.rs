use vstd::prelude::*;
use vstd::string::StringExecFns;

verus! {

/// The character for one decimal digit value.
pub open spec fn digit_char(d: nat) -> char {
    if d == 0 {
        '0'
    } else if d == 1 {
        '1'
    } else if d == 2 {
        '2'
    } else if d == 3 {
        '3'
    } else if d == 4 {
        '4'
    } else if d == 5 {
        '5'
    } else if d == 6 {
        '6'
    } else if d == 7 {
        '7'
    } else if d == 8 {
        '8'
    } else {
        '9'
    }
}

/// The decimal representation of a natural number, most significant digit first,
/// with no leading zeros (zero itself is the single digit "0").
pub open spec fn decimal_digits(n: nat) -> Seq<char>
    decreases n,
{
    if n < 10 {
        seq![digit_char(n)]
    } else {
        decimal_digits(n / 10) + seq![digit_char(n % 10)]
    }
}

/// The decimal representation of an integer: the magnitude's digits, preceded by
/// a minus sign when negative.
pub open spec fn signed_decimal_digits(n: int) -> Seq<char> {
    if n >= 0 {
        decimal_digits(n as nat)
    } else {
        seq!['-'] + decimal_digits((-n) as nat)
    }
}

/// One-character string slice for a digit value.
fn digit_str(d: u64) -> (r: &'static str)
    requires
        d < 10,
    ensures
        r@ == seq![digit_char(d as nat)],
{
    proof {
        reveal_strlit("0");
        reveal_strlit("1");
        reveal_strlit("2");
        reveal_strlit("3");
        reveal_strlit("4");
        reveal_strlit("5");
        reveal_strlit("6");
        reveal_strlit("7");
        reveal_strlit("8");
        reveal_strlit("9");
    }
    match d {
        0 => "0",
        1 => "1",
        2 => "2",
        3 => "3",
        4 => "4",
        5 => "5",
        6 => "6",
        7 => "7",
        8 => "8",
        _ => "9",
    }
}

/// Appends the decimal representation of `n` to `s`.
pub fn push_decimal_u64(s: &mut String, n: u64)
    ensures
        final(s)@ == old(s)@ + decimal_digits(n as nat),
    decreases n,
{
    if n < 10 {
        s.append(digit_str(n));
    } else {
        let ghost pre = s@;
        push_decimal_u64(s, n / 10);
        s.append(digit_str(n % 10));
        proof {
            assert(s@ =~= pre + decimal_digits(n as nat));
        }
    }
}

/// Appends the decimal representation of `n` to `s`, signed.
pub fn push_decimal_i64(s: &mut String, n: i64)
    ensures
        final(s)@ == old(s)@ + signed_decimal_digits(n as int),
{
    if n >= 0 {
        push_decimal_u64(s, n as u64);
    } else {
        let ghost pre = s@;
        proof {
            reveal_strlit("-");
        }
        s.append("-");
        let magnitude: u64 = if n == i64::MIN {
            9223372036854775808u64
        } else {
            (-n) as u64
        };
        push_decimal_u64(s, magnitude);
        proof {
            assert(s@ =~= pre + signed_decimal_digits(n as int));
        }
    }
}

/// Every decimal representation has at least one character.
pub proof fn lemma_decimal_digits_len(n: nat)
    ensures
        decimal_digits(n).len() >= 1,
    decreases n,
{
    if n >= 10 {
        lemma_decimal_digits_len(n / 10);
    }
}

/// The first character of a decimal representation is a digit, never a sign.
proof fn lemma_decimal_first_char(n: nat)
    ensures
        decimal_digits(n)[0] != '-',
    decreases n,
{
    if n >= 10 {
        lemma_decimal_digits_len(n / 10);
        lemma_decimal_first_char(n / 10);
        assert(decimal_digits(n)[0] == decimal_digits(n / 10)[0]);
    }
}

/// Distinct naturals have distinct decimal representations.
pub proof fn lemma_decimal_digits_injective(a: nat, b: nat)
    requires
        decimal_digits(a) == decimal_digits(b),
    ensures
        a == b,
    decreases a,
{
    lemma_decimal_digits_len(a);
    lemma_decimal_digits_len(b);
    if a < 10 && b < 10 {
        assert(decimal_digits(a)[0] == digit_char(a));
        assert(decimal_digits(b)[0] == digit_char(b));
        assert(digit_char(a) == digit_char(b));
        assert(a == b);
    } else if a < 10 && b >= 10 {
        lemma_decimal_digits_len(b / 10);
        assert(decimal_digits(b).len() >= 2);
        assert(decimal_digits(a).len() == 1);
    } else if a >= 10 && b < 10 {
        lemma_decimal_digits_len(a / 10);
        assert(decimal_digits(a).len() >= 2);
        assert(decimal_digits(b).len() == 1);
    } else {
        let da = decimal_digits(a);
        let db = decimal_digits(b);
        assert(da == decimal_digits(a / 10) + seq![digit_char(a % 10)]);
        assert(db == decimal_digits(b / 10) + seq![digit_char(b % 10)]);
        assert(da[da.len() - 1] == digit_char(a % 10));
        assert(db[db.len() - 1] == digit_char(b % 10));
        assert(digit_char(a % 10) == digit_char(b % 10));
        assert(a % 10 == b % 10);
        assert(decimal_digits(a / 10) =~= da.drop_last());
        assert(decimal_digits(b / 10) =~= db.drop_last());
        lemma_decimal_digits_injective(a / 10, b / 10);
        vstd::arithmetic::div_mod::lemma_fundamental_div_mod(a as int, 10);
        vstd::arithmetic::div_mod::lemma_fundamental_div_mod(b as int, 10);
        assert(a == b);
    }
}

/// Distinct integers have distinct signed decimal representations.
pub proof fn lemma_signed_decimal_injective(a: int, b: int)
    requires
        signed_decimal_digits(a) == signed_decimal_digits(b),
    ensures
        a == b,
{
    if a >= 0 && b >= 0 {
        lemma_decimal_digits_injective(a as nat, b as nat);
    } else if a < 0 && b < 0 {
        let sa = signed_decimal_digits(a);
        let sb = signed_decimal_digits(b);
        assert(decimal_digits((-a) as nat) =~= sa.subrange(1, sa.len() as int));
        assert(decimal_digits((-b) as nat) =~= sb.subrange(1, sb.len() as int));
        lemma_decimal_digits_injective((-a) as nat, (-b) as nat);
    } else if a >= 0 {
        lemma_decimal_digits_len(a as nat);
        lemma_decimal_first_char(a as nat);
        assert(signed_decimal_digits(b)[0] == '-');
    } else {
        lemma_decimal_digits_len(b as nat);
        lemma_decimal_first_char(b as nat);
        assert(signed_decimal_digits(a)[0] == '-');
    }
}

/// The decimal representation of `n` as an owned string.
pub fn u64_to_string(n: u64) -> (r: String)
    ensures
        r@ == decimal_digits(n as nat),
{
    let mut s = String::new();
    push_decimal_u64(&mut s, n);
    proof {
        assert(s@ =~= decimal_digits(n as nat));
    }
    s
}

} // verus!
