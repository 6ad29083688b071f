//! Character and number rendering shared by the request and response code.

use vstd::prelude::*;

verus! {

/// Relies on `str::eq`: two string slices are equal exactly when they hold the
/// same characters.
#[verifier::external_body]
pub(crate) fn str_eq(a: &str, b: &str) -> (r: bool)
    ensures
        r == (a@ == b@),
{
    a == b
}

/// Relies on `str::chars`: the characters of the slice, in order.
#[verifier::external_body]
pub(crate) fn chars_of(s: &str) -> (r: Vec<char>)
    ensures
        r@ == s@,
{
    s.chars().collect()
}

/// Relies on `String::push`: the character is added at the end.
#[verifier::external_body]
pub(crate) fn push_char(s: &mut String, c: char)
    ensures
        final(s)@ == old(s)@.push(c),
{
    s.push(c)
}

/// The string made of the given characters.
pub fn string_of(cs: &Vec<char>) -> (r: String)
    ensures
        r@ == cs@,
{
    let mut s = String::new();
    let mut i: usize = 0;
    while i < cs.len()
        invariant
            i <= cs.len(),
            s@ == cs@.subrange(0, i as int),
        decreases cs.len() - i,
    {
        push_char(&mut s, cs[i]);
        i = i + 1;
        assert(s@ =~= cs@.subrange(0, i as int));
    }
    assert(cs@.subrange(0, cs.len() as int) =~= cs@);
    s
}

/// The ASCII digit for a value below sixteen, lower case past nine.
pub open spec fn digit_char(d: nat) -> char {
    if d < 10 {
        ((48 + d) as u8) as char
    } else {
        ((87 + d) as u8) as char
    }
}

/// `n` written in base `base` without leading zeros ("0" for zero).
pub open spec fn digits(n: nat, base: nat) -> Seq<char>
    decreases n,
    via digits_decreases
{
    if base < 2 {
        seq![]
    } else if n < base {
        seq![digit_char(n)]
    } else {
        digits(n / base, base).push(digit_char(n % base))
    }
}

#[via_fn]
proof fn digits_decreases(n: nat, base: nat) {
    if base >= 2 && n >= base {
        vstd::arithmetic::div_mod::lemma_div_decreases(n as int, base as int);
    }
}

/// Decimal rendering of `n`.
pub open spec fn decimal(n: nat) -> Seq<char> {
    digits(n, 10)
}

/// Lower-case hexadecimal rendering of `n`.
pub open spec fn hex_lower(n: nat) -> Seq<char> {
    digits(n, 16)
}

fn digit(d: u64) -> (c: char)
    requires
        d < 16,
    ensures
        c == digit_char(d as nat),
{
    if d < 10 {
        (48u8 + d as u8) as char
    } else {
        (87u8 + d as u8) as char
    }
}

/// `n` written in base `base`, as [`digits`] gives it.
pub fn render_digits(n: u64, base: u64) -> (r: String)
    requires
        2 <= base <= 16,
    ensures
        r@ == digits(n as nat, base as nat),
{
    let mut rev: Vec<char> = Vec::new();
    let mut m: u64 = n;
    // The digits are produced least significant first.
    while m >= base
        invariant
            2 <= base <= 16,
            m <= n,
            digits(n as nat, base as nat) == digits(m as nat, base as nat) + rev@.reverse(),
        decreases m,
    {
        let d = m % base;
        let c = digit(d);
        let ghost old_rev = rev@;
        rev.push(c);
        proof {
            assert(rev@.reverse() =~= seq![c] + old_rev.reverse());
            assert(digits(m as nat, base as nat) == digits((m / base) as nat, base as nat).push(c));
            assert(digits((m / base) as nat, base as nat).push(c) + old_rev.reverse()
                =~= digits((m / base) as nat, base as nat) + rev@.reverse());
        }
        m = m / base;
    }
    let c = digit(m);
    rev.push(c);
    let ghost all = rev@;
    let mut out: Vec<char> = Vec::new();
    let mut i: usize = rev.len();
    while i > 0
        invariant
            i <= rev.len(),
            rev@ == all,
            out@ == all.subrange(i as int, all.len() as int).reverse(),
        decreases i,
    {
        i = i - 1;
        let ghost prev = out@;
        out.push(rev[i]);
        assert(out@ =~= all.subrange(i as int, all.len() as int).reverse());
    }
    proof {
        assert(all.subrange(0, all.len() as int) =~= all);
        assert(all.reverse() =~= rev@.drop_last().reverse().insert(0, c)) by {
            assert(rev@.drop_last().push(c) =~= all);
        }
        assert(seq![c] + all.drop_last().reverse() =~= all.reverse());
    }
    string_of(&out)
}

/// Decimal rendering of `n`.
pub fn render_decimal(n: u64) -> (r: String)
    ensures
        r@ == decimal(n as nat),
{
    render_digits(n, 10)
}

/// Lower-case hexadecimal rendering of `n`.
pub fn render_hex(n: u64) -> (r: String)
    ensures
        r@ == hex_lower(n as nat),
{
    render_digits(n, 16)
}

} // verus!
