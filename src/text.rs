//! Decimal rendering of numbers, used for device names, addresses and ports.
use vstd::prelude::*;

verus! {

pub open spec fn digit_char(d: nat) -> char {
    if d == 0 {
        '0'
    } else if d == 1 {
        '1'
    } else if d == 2 {
        '2'
    } else if d == 3 {
        '3'
    } else if d == 4 {
        '4'
    } else if d == 5 {
        '5'
    } else if d == 6 {
        '6'
    } else if d == 7 {
        '7'
    } else if d == 8 {
        '8'
    } else {
        '9'
    }
}

/// The decimal digits of `n`, most significant first, without leading zeros.
pub open spec fn decimal(n: nat) -> Seq<char>
    decreases n,
{
    if n < 10 {
        seq![digit_char(n)]
    } else {
        decimal(n / 10).push(digit_char(n % 10))
    }
}

pub proof fn lemma_decimal_len(n: nat)
    ensures
        decimal(n).len() >= 1,
        n >= 10 ==> decimal(n).len() >= 2,
    decreases n,
{
    if n >= 10 {
        lemma_decimal_len(n / 10);
    }
}

/// Two numbers with the same decimal rendering are equal.
pub proof fn lemma_decimal_injective(a: nat, b: nat)
    requires
        decimal(a) == decimal(b),
    ensures
        a == b,
    decreases a,
{
    lemma_decimal_len(a);
    lemma_decimal_len(b);
    if a >= 10 && b >= 10 {
        let da = decimal(a);
        assert(da.last() == digit_char(a % 10));
        assert(decimal(b).last() == digit_char(b % 10));
        assert(decimal(a / 10) =~= da.drop_last());
        assert(decimal(b / 10) =~= decimal(b).drop_last());
        lemma_decimal_injective(a / 10, b / 10);
    } else if a < 10 && b < 10 {
        assert(decimal(a)[0] == digit_char(a));
        assert(decimal(b)[0] == digit_char(b));
    } else {
        assert(decimal(a).len() != decimal(b).len());
    }
}

fn digit_str(d: u32) -> (r: &'static str)
    requires
        d < 10,
    ensures
        r@ == seq![digit_char(d as nat)],
{
    proof {
        reveal_strlit("0");
        reveal_strlit("1");
        reveal_strlit("2");
        reveal_strlit("3");
        reveal_strlit("4");
        reveal_strlit("5");
        reveal_strlit("6");
        reveal_strlit("7");
        reveal_strlit("8");
        reveal_strlit("9");
    }
    let r = match d {
        0 => "0",
        1 => "1",
        2 => "2",
        3 => "3",
        4 => "4",
        5 => "5",
        6 => "6",
        7 => "7",
        8 => "8",
        _ => "9",
    };
    assert(r@ =~= seq![digit_char(d as nat)]);
    r
}

/// `n` written in decimal.
pub fn decimal_string(n: u32) -> (r: String)
    ensures
        r@ == decimal(n as nat),
    decreases n,
{
    if n < 10 {
        String::from_str(digit_str(n))
    } else {
        let mut s = decimal_string(n / 10);
        s.append(digit_str(n % 10));
        assert(s@ =~= decimal(n as nat));
        s
    }
}

/// Owned copies of `parts`, in order.
pub fn strings(parts: &[&str]) -> (r: Vec<String>)
    ensures
        r.deep_view() == parts@.map_values(|p: &str| p@),
{
    let mut v: Vec<String> = Vec::new();
    let mut i: usize = 0;
    while i < parts.len()
        invariant
            i <= parts@.len(),
            v.deep_view() =~= parts@.subrange(0, i as int).map_values(|p: &str| p@),
        decreases parts@.len() - i,
    {
        let ghost prev = v.deep_view();
        v.push(parts[i].to_owned());
        assert(v.deep_view() =~= prev.push(parts@[i as int]@));
        i = i + 1;
    }
    assert(parts@.subrange(0, i as int) =~= parts@);
    v
}

/// A copy of a list of strings.
pub fn copy_strings(v: &Vec<String>) -> (r: Vec<String>)
    ensures
        r.deep_view() == v.deep_view(),
{
    let mut out: Vec<String> = Vec::new();
    let mut i: usize = 0;
    while i < v.len()
        invariant
            i <= v@.len(),
            out.deep_view() =~= v.deep_view().subrange(0, i as int),
        decreases v@.len() - i,
    {
        let ghost prev = out.deep_view();
        out.push(v[i].clone());
        assert(out.deep_view() =~= prev.push(v.deep_view()[i as int]));
        i = i + 1;
    }
    assert(v.deep_view().subrange(0, i as int) =~= v.deep_view());
    out
}

} // verus!
