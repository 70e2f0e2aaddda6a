use vstd::arithmetic::div_mod::lemma_div_denominator;
use vstd::arithmetic::power::{lemma_pow_positive, pow};
use vstd::prelude::*;

verus! {

/// Relies on `String::push_str`: the text is appended.
#[verifier::external_body]
pub(crate) fn append(s: &mut String, t: &str)
    ensures
        final(s)@ == old(s)@ + t@,
{
    s.push_str(t)
}

/// Relies on `String::push`: the character is appended.
#[verifier::external_body]
pub(crate) fn append_char(s: &mut String, c: char)
    ensures
        final(s)@ == old(s)@.push(c),
{
    s.push(c)
}

/// The lower-case hexadecimal digit for `n` (0 to 15).
pub open spec fn hex_char(n: int) -> char {
    if n < 10 {
        ((n + 48) as u8) as char
    } else {
        ((n + 87) as u8) as char
    }
}

/// The last `n` hexadecimal digits of `v`, most significant first.
pub open spec fn hex_digits(v: int, n: nat) -> Seq<char> {
    Seq::new(n, |j: int| hex_char((v / pow(16, (n - 1 - j) as nat)) % 16))
}

fn hex_digit(n: u128) -> (c: char)
    requires
        n < 16,
    ensures
        c == hex_char(n as int),
{
    let b = n as u8;
    if b < 10 {
        (b + 48) as char
    } else {
        (b + 87) as char
    }
}

/// Appends the last `n` hexadecimal digits of `v`.
pub(crate) fn push_hex(s: &mut String, v: u128, n: usize)
    ensures
        final(s)@ == old(s)@ + hex_digits(v as int, n as nat),
{
    let ghost s0 = s@;
    let mut digits: Vec<char> = Vec::new();
    let mut rest: u128 = v;
    let mut k: usize = 0;
    proof {
        reveal(pow);
    }
    while k < n
        invariant
            k <= n,
            digits@.len() == k,
            rest as int == v as int / pow(16, k as nat),
            forall|i: int|
                0 <= i < k ==> digits@[i] == hex_char((v as int / pow(16, i as nat)) % 16),
        decreases n - k,
    {
        digits.push(hex_digit(rest % 16));
        proof {
            lemma_pow_positive(16, k as nat);
            lemma_div_denominator(v as int, pow(16, k as nat), 16);
            reveal(pow);
            assert(pow(16, (k + 1) as nat) == 16 * pow(16, k as nat));
            assert(pow(16, k as nat) * 16 == pow(16, (k + 1) as nat));
        }
        rest = rest / 16;
        k += 1;
    }
    let ghost h = hex_digits(v as int, n as nat);
    let mut j: usize = n;
    while j > 0
        invariant
            j <= n,
            digits@.len() == n,
            h == hex_digits(v as int, n as nat),
            s@ == s0 + h.take(n - j),
            forall|i: int|
                0 <= i < n ==> digits@[i] == hex_char((v as int / pow(16, i as nat)) % 16),
        decreases j,
    {
        j -= 1;
        append_char(s, digits[j]);
        assert(h[n - 1 - j] == digits@[j as int]);
        assert(h.take(n - j) =~= h.take(n - j - 1).push(h[n - 1 - j]));
    }
    assert(h.take(n as int) =~= h);
}

} // verus!
