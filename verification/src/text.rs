//! Small verified helpers on character sequences and strings.
use vstd::prelude::*;

verus! {

/// The characters of `s`, in order.
pub fn str_chars(s: &str) -> (res: Vec<char>)
    ensures
        res@ == s@,
{
    let mut res: Vec<char> = Vec::new();
    for c in it: s.chars()
        invariant
            res@ == it.seq().take(it.index() as int),
            it.seq() == s@,
    {
        res.push(c);
    }
    res
}

/// The decimal digit character for `d`.
pub open spec fn digit_char(d: nat) -> char {
    if d == 0 { '0' }
    else if d == 1 { '1' }
    else if d == 2 { '2' }
    else if d == 3 { '3' }
    else if d == 4 { '4' }
    else if d == 5 { '5' }
    else if d == 6 { '6' }
    else if d == 7 { '7' }
    else if d == 8 { '8' }
    else { '9' }
}

/// The decimal digits of a natural number, most significant first, with no
/// leading zero (zero itself is written `0`).
pub open spec fn nat_digits(n: nat) -> Seq<char>
    decreases n,
{
    if n < 10 {
        seq![digit_char(n)]
    } else {
        nat_digits(n / 10).push(digit_char(n % 10))
    }
}

/// The decimal text of an integer: a minus sign for negative values, then
/// the digits of its absolute value.
pub open spec fn int_decimal(n: int) -> Seq<char> {
    if n < 0 {
        seq!['-'] + nat_digits((-n) as nat)
    } else {
        nat_digits(n as nat)
    }
}

fn digit_str(d: u64) -> (res: &'static str)
    requires
        d < 10,
    ensures
        res@ == seq![digit_char(d as nat)],
{
    if d == 0 {
        proof { reveal_strlit("0"); }
        "0"
    } else if d == 1 {
        proof { reveal_strlit("1"); }
        "1"
    } else if d == 2 {
        proof { reveal_strlit("2"); }
        "2"
    } else if d == 3 {
        proof { reveal_strlit("3"); }
        "3"
    } else if d == 4 {
        proof { reveal_strlit("4"); }
        "4"
    } else if d == 5 {
        proof { reveal_strlit("5"); }
        "5"
    } else if d == 6 {
        proof { reveal_strlit("6"); }
        "6"
    } else if d == 7 {
        proof { reveal_strlit("7"); }
        "7"
    } else if d == 8 {
        proof { reveal_strlit("8"); }
        "8"
    } else {
        proof { reveal_strlit("9"); }
        "9"
    }
}

/// Appends the decimal digits of `n` to `out`.
pub fn push_u64_digits(out: &mut String, n: u64)
    ensures
        final(out)@ == old(out)@ + nat_digits(n as nat),
    decreases n,
{
    if n >= 10 {
        push_u64_digits(out, n / 10);
        out.append(digit_str(n % 10));
    } else {
        out.append(digit_str(n));
    }
}

/// The decimal text of an `i64`, as `format!("{}", n)` writes it.
pub fn i64_to_decimal(n: i64) -> (res: String)
    ensures
        res@ == int_decimal(n as int),
{
    let mut out = String::new();
    if n < 0 {
        proof { reveal_strlit("-"); }
        out.append("-");
        let m: u64 = if n == i64::MIN {
            9223372036854775808u64
        } else {
            (-n) as u64
        };
        push_u64_digits(&mut out, m);
    } else {
        push_u64_digits(&mut out, n as u64);
    }
    out
}

} // verus!

verus! {

/// A decimal text is never empty.
pub proof fn lemma_nat_digits_len(n: nat)
    ensures
        nat_digits(n).len() >= 1,
        n >= 10 ==> nat_digits(n).len() >= 2,
    decreases n,
{
    if n >= 10 {
        lemma_nat_digits_len(n / 10);
    }
}

/// The characters of a decimal text are digits.
pub proof fn lemma_nat_digits_chars(n: nat)
    ensures
        forall|i: int| 0 <= i < nat_digits(n).len() ==> '0' <= #[trigger] nat_digits(n)[i] && nat_digits(n)[i] <= '9',
    decreases n,
{
    if n >= 10 {
        lemma_nat_digits_chars(n / 10);
        let p = nat_digits(n / 10);
        assert forall|i: int| 0 <= i < nat_digits(n).len() implies '0' <= #[trigger] nat_digits(n)[i] && nat_digits(n)[i] <= '9' by {
            if i < p.len() {
                assert(nat_digits(n)[i] == p[i]);
            }
        }
    }
}

/// Different natural numbers have different decimal texts.
pub proof fn lemma_nat_digits_injective(n: nat, m: nat)
    requires
        nat_digits(n) == nat_digits(m),
    ensures
        n == m,
    decreases n,
{
    lemma_nat_digits_len(n);
    lemma_nat_digits_len(m);
    if n < 10 && m < 10 {
        assert(nat_digits(n)[0] == digit_char(n));
        assert(nat_digits(m)[0] == digit_char(m));
        assert(digit_char(n) == digit_char(m));
    } else if n >= 10 && m >= 10 {
        let a = nat_digits(n);
        let b = nat_digits(m);
        assert(a.last() == b.last());
        assert(a.drop_last() =~= nat_digits(n / 10));
        assert(b.drop_last() =~= nat_digits(m / 10));
        lemma_nat_digits_injective(n / 10, m / 10);
        assert(digit_char(n % 10) == digit_char(m % 10));
        assert(n % 10 == m % 10);
        assert(n == (n / 10) * 10 + n % 10);
        assert(m == (m / 10) * 10 + m % 10);
    } else if n < 10 {
        assert(nat_digits(n).len() == 1);
    } else {
        assert(nat_digits(m).len() == 1);
    }
}

/// The characters of the decimal text of an integer are digits and, in
/// front, a minus sign.
pub proof fn lemma_int_decimal_chars(n: int)
    ensures
        forall|i: int| 0 <= i < int_decimal(n).len() ==> (#[trigger] int_decimal(n)[i] == '-' || ('0' <= int_decimal(n)[i] && int_decimal(n)[i] <= '9')),
        int_decimal(n).len() >= 1,
        int_decimal(n)[0] == '-' <==> n < 0,
{
    if n < 0 {
        lemma_nat_digits_chars((-n) as nat);
        lemma_nat_digits_len((-n) as nat);
        let d = nat_digits((-n) as nat);
        assert forall|i: int| 0 <= i < int_decimal(n).len() implies (#[trigger] int_decimal(n)[i] == '-' || ('0' <= int_decimal(n)[i] && int_decimal(n)[i] <= '9')) by {
            if i > 0 {
                assert(int_decimal(n)[i] == d[i - 1]);
            }
        }
    } else {
        lemma_nat_digits_chars(n as nat);
        lemma_nat_digits_len(n as nat);
    }
}

/// Different integers have different decimal texts.
pub proof fn lemma_int_decimal_injective(n: int, m: int)
    requires
        int_decimal(n) == int_decimal(m),
    ensures
        n == m,
{
    lemma_int_decimal_chars(n);
    lemma_int_decimal_chars(m);
    if n < 0 && m < 0 {
        assert(int_decimal(n).drop_first() =~= nat_digits((-n) as nat));
        assert(int_decimal(m).drop_first() =~= nat_digits((-m) as nat));
        lemma_nat_digits_injective((-n) as nat, (-m) as nat);
    } else if n >= 0 && m >= 0 {
        lemma_nat_digits_injective(n as nat, m as nat);
    }
}

} // verus!
