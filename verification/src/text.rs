use vstd::prelude::*;

verus! {

/// The decimal digits of `n`, most significant first, without sign or leading zeros.
pub open spec fn decimal(n: nat) -> Seq<char>
    decreases n,
{
    if n < 10 {
        seq![digit_char(n)]
    } else {
        decimal(n / 10).push(digit_char(n % 10))
    }
}

/// The character of a decimal digit.
pub open spec fn digit_char(d: nat) -> char {
    if d == 0 { '0' }
    else if d == 1 { '1' }
    else if d == 2 { '2' }
    else if d == 3 { '3' }
    else if d == 4 { '4' }
    else if d == 5 { '5' }
    else if d == 6 { '6' }
    else if d == 7 { '7' }
    else if d == 8 { '8' }
    else { '9' }
}

/// `u64::to_string`: the decimal digits of `n` without sign or leading zeros, which is what
/// `u64`'s `Display` implementation writes.
#[verifier::external_body]
pub(crate) fn u64_to_decimal(n: u64) -> (r: String)
    ensures
        r@ == decimal(n as nat),
{
    n.to_string()
}


/// Appends the decimal digits of `n` to `s`.
pub(crate) fn push_decimal(s: String, n: u64) -> (r: String)
    ensures
        r@ == s@ + decimal(n as nat),
{
    let d = u64_to_decimal(n);
    s.concat(d.as_str())
}

/// Appends `t` to `s`.
pub(crate) fn push_str(s: String, t: &str) -> (r: String)
    ensures
        r@ == s@ + t@,
{
    s.concat(t)
}

/// An owned copy of `t`.
pub(crate) fn owned(t: &str) -> (r: String)
    ensures
        r@ == t@,
{
    String::from_str(t)
}


/// The decimal form of a signed integer: a minus sign before the digits of a negative one.
pub open spec fn signed_decimal(i: int) -> Seq<char> {
    if i < 0 {
        seq!['-'] + decimal((-i) as nat)
    } else {
        decimal(i as nat)
    }
}

/// Appends the decimal form of `n` to `s`, as `i64`'s `Display` implementation writes it.
pub(crate) fn push_signed_decimal(s: String, n: i64) -> (r: String)
    ensures
        r@ == s@ + signed_decimal(n as int),
{
    if n < 0 {
        let s2 = push_str(s, "-");
        let magnitude: u64 = if n == i64::MIN {
            0x8000_0000_0000_0000u64
        } else {
            (-n) as u64
        };
        let r = push_decimal(s2, magnitude);
        proof {
            reveal_strlit("-");
            assert(s2@ == s@ + seq!['-']);
            assert(r@ =~= s@ + (seq!['-'] + decimal((-n) as nat)));
        }
        r
    } else {
        push_decimal(s, n as u64)
    }
}

} // verus!
