use rand::Rng;
use vstd::prelude::*;

verus! {

/// Number of characters (Unicode scalar values) in `s`.
pub fn char_len(s: &String) -> (r: i32)
    requires
        s@.len() <= i32::MAX,
    ensures
        r == s@.len(),
{
    s.as_str().unicode_len() as i32
}

/// Relies on rand's `thread_rng().gen_range(a..b)`: a uniformly drawn value
/// in the half-open range; the call panics on an empty range.
#[verifier::external_body]
pub fn random_between(a: i32, b: i32) -> (r: i32)
    requires
        a < b,
    ensures
        a <= r < b,
{
    let mut rng = rand::thread_rng();
    rng.gen_range(a..b)
}

/// The decimal digit for `d < 10`.
pub open spec fn digit(d: nat) -> char {
    ('0' as u32 + d) as char
}

/// Decimal representation of a natural number, most significant digit first.
pub open spec fn decimal(n: nat) -> Seq<char>
    decreases n,
{
    if n < 10 {
        seq![digit(n)]
    } else {
        decimal(n / 10).push(digit(n % 10))
    }
}

/// Ten to the power `k`.
pub open spec fn pow10(k: nat) -> nat
    decreases k,
{
    if k == 0 { 1 } else { 10 * pow10((k - 1) as nat) }
}

/// A number below `10^k` has at most `k` digits.
pub proof fn lemma_decimal_len(n: nat, k: nat)
    requires
        n < pow10(k),
        k >= 1,
    ensures
        decimal(n).len() <= k,
    decreases n,
{
    if n >= 10 {
        let b1 = pow10((k - 1) as nat);
        assert(n / 10 < b1) by (nonlinear_arith)
            requires n < 10 * b1;
        if k == 1 {
            assert(pow10(0) == 1);
        } else {
            lemma_decimal_len(n / 10, (k - 1) as nat);
        }
    }
}

/// A `u32` has at most ten digits.
pub proof fn lemma_decimal_len_u32(n: u32)
    ensures
        decimal(n as nat).len() <= 10,
{
    reveal_with_fuel(pow10, 11);
    assert(pow10(10) == 10_000_000_000);
    lemma_decimal_len(n as nat, 10);
}

/// Relies on `format!` with `{}` on `u32`: the prefix followed by the
/// decimal digits of `n`.
#[verifier::external_body]
pub(crate) fn with_number(prefix: &str, n: u32) -> (r: String)
    ensures
        r@ == prefix@ + decimal(n as nat),
{
    format!("{}{}", prefix, n)
}

} // verus!
