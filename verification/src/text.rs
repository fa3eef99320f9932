//! Decimal rendering of numbers and the identifiers built from it.
use vstd::prelude::*;

verus! {

/// The ASCII digit of `d < 10`.
pub open spec fn digit_char(d: nat) -> char {
    if d == 0 {
        '0'
    } else if d == 1 {
        '1'
    } else if d == 2 {
        '2'
    } else if d == 3 {
        '3'
    } else if d == 4 {
        '4'
    } else if d == 5 {
        '5'
    } else if d == 6 {
        '6'
    } else if d == 7 {
        '7'
    } else if d == 8 {
        '8'
    } else {
        '9'
    }
}

/// Decimal notation of `n`, without sign or leading zeros.
pub open spec fn decimal(n: nat) -> Seq<char>
    decreases n,
{
    if n < 10 {
        seq![digit_char(n)]
    } else {
        decimal(n / 10).push(digit_char(n % 10))
    }
}

fn digit(d: u64) -> (c: char)
    requires
        d < 10,
    ensures
        c == digit_char(d as nat),
{
    if d == 0 {
        '0'
    } else if d == 1 {
        '1'
    } else if d == 2 {
        '2'
    } else if d == 3 {
        '3'
    } else if d == 4 {
        '4'
    } else if d == 5 {
        '5'
    } else if d == 6 {
        '6'
    } else if d == 7 {
        '7'
    } else if d == 8 {
        '8'
    } else {
        '9'
    }
}

/// `String::push`: appends one character.
#[verifier::external_body]
pub(crate) fn push_char(s: &mut String, c: char)
    ensures
        final(s)@ == old(s)@.push(c),
{
    s.push(c);
}

/// Appends the characters of `chars` to `s`.
pub fn push_chars(s: &mut String, chars: &Vec<char>)
    ensures
        final(s)@ == old(s)@ + chars@,
{
    let n = chars.len();
    let mut k: usize = 0;
    while k < n
        invariant
            n == chars@.len(),
            k <= n,
            s@ == old(s)@ + chars@.take(k as int),
        decreases n - k,
    {
        push_char(s, chars[k]);
        k = k + 1;
        proof {
            assert(chars@.take(k as int) =~= chars@.take(k - 1).push(chars@[k - 1]));
        }
    }
    proof {
        assert(chars@.take(n as int) =~= chars@);
    }
}

/// The decimal digits of `n`, most significant first.
pub fn decimal_digits(n: u64) -> (r: Vec<char>)
    ensures
        r@ == decimal(n as nat),
{
    let mut v: Vec<char> = Vec::new();
    if n == 0 {
        v.push('0');
        proof {
            assert(v@ =~= decimal(0));
        }
        return v;
    }
    let mut m: u64 = n;
    while m > 0
        invariant
            n > 0,
            m > 0 ==> decimal(n as nat) == decimal(m as nat) + v@,
            m == 0 ==> decimal(n as nat) == v@,
        decreases m,
    {
        let d = digit(m % 10);
        proof {
            if m >= 10 {
                assert(decimal(m as nat) == decimal((m / 10) as nat).push(d));
                assert(decimal(m as nat) + v@ =~= decimal((m / 10) as nat) + seq![d].add(v@));
            } else {
                assert(decimal(m as nat) == seq![d]);
            }
        }
        v.insert(0, d);
        m = m / 10;
        proof {
            if m > 0 {
                assert(decimal(n as nat) =~= decimal(m as nat) + v@);
            } else {
                assert(decimal(n as nat) =~= v@);
            }
        }
    }
    v
}

/// Id of the planet at `position` around the star `star_name`:
/// the star's name, a hyphen and the position in decimal.
pub fn generate_planet_id(star_name: &String, position: u32) -> (r: String)
    ensures
        r@ == star_name@ + seq!['-'] + decimal(position as nat),
{
    let mut s = star_name.clone();
    push_char(&mut s, '-');
    let digits = decimal_digits(position as u64);
    push_chars(&mut s, &digits);
    s
}


/// Decimal notation of the signed `n`: a minus sign before a negative one.
pub open spec fn signed_decimal(n: int) -> Seq<char> {
    if n < 0 {
        seq!['-'] + decimal((-n) as nat)
    } else {
        decimal(n as nat)
    }
}

/// Appends the characters of `t` to `s`.
pub fn append_str(s: &mut String, t: &str)
    ensures
        final(s)@ == old(s)@ + t@,
{
    let n = t.unicode_len();
    let mut k: usize = 0;
    while k < n
        invariant
            n == t@.len(),
            k <= n,
            s@ == old(s)@ + t@.take(k as int),
        decreases n - k,
    {
        let c = t.get_char(k);
        push_char(s, c);
        k = k + 1;
        proof {
            assert(t@.take(k as int) =~= t@.take(k - 1).push(c));
        }
    }
    proof {
        assert(t@.take(n as int) =~= t@);
    }
}

/// Appends the decimal notation of `n` to `s`.
pub fn append_u64(s: &mut String, n: u64)
    ensures
        final(s)@ == old(s)@ + decimal(n as nat),
{
    let digits = decimal_digits(n);
    push_chars(s, &digits);
}

/// Appends the decimal notation of the signed `n` to `s`.
pub fn append_i64(s: &mut String, n: i64)
    ensures
        final(s)@ == old(s)@ + signed_decimal(n as int),
{
    if n < 0 {
        push_char(s, '-');
        let m: u64 = (-(n as i128)) as u64;
        let ghost mid = s@;
        append_u64(s, m);
        proof {
            assert(s@ =~= old(s)@ + signed_decimal(n as int));
        }
    } else {
        append_u64(s, n as u64);
    }
}

} // verus!
