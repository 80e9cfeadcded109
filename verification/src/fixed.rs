//! Fixed-point base: every real-valued quantity of the strategy (prices in
//! instrument units, rates, probabilities, risk parameters) is carried as an
//! integer scaled by `FP`, so that all arithmetic is exact and verifiable.

use vstd::prelude::*;

verus! {

use vstd::string::StringSliceAdditionalSpecFns;

/// Scale of a fixed-point value: a stored integer `x` stands for the real
/// number `x / FP`.
pub const FP: u64 = 1_000_000;

/// Nanoseconds in one minute, the unit of the arrival-rate estimate.
pub const ONE_MINUTE_NS: u64 = 60_000_000_000;

/// `10^e`, the scaling factor belonging to `e` decimal places.
pub open spec fn pow10(e: nat) -> nat
    decreases e,
{
    if e == 0 {
        1
    } else {
        10 * pow10((e - 1) as nat)
    }
}

/// `pow10` is monotone in the exponent.
pub proof fn lemma_pow10_mono(a: nat, b: nat)
    requires
        a <= b,
    ensures
        pow10(a) <= pow10(b),
    decreases b,
{
    if a < b {
        lemma_pow10_mono(a, (b - 1) as nat);
    }
}

/// `10^e` is positive, and fits in a `u64` for all exponents up to 18.
pub proof fn lemma_pow10_bounds(e: nat)
    requires
        e <= 18,
    ensures
        0 < pow10(e) <= 1_000_000_000_000_000_000,
{
    lemma_pow10_mono(0, e);
    lemma_pow10_mono(e, 18);
    assert(pow10(18) == 1_000_000_000_000_000_000) by {
        reveal_with_fuel(pow10, 19);
    }
}

/// Powers of ten multiply by adding exponents.
pub proof fn lemma_pow10_adds(a: nat, b: nat)
    ensures
        pow10(a) * pow10(b) == pow10(a + b),
    decreases b,
{
    if b == 0 {
    } else {
        lemma_pow10_adds(a, (b - 1) as nat);
        let x = pow10(a);
        let y = pow10((b - 1) as nat);
        assert(a + (b - 1) as nat == (a + b - 1) as nat);
        assert(x * y == pow10((a + b - 1) as nat));
        assert(pow10(b) == 10 * y);
        assert(x * pow10(b) == 10 * (x * y)) by (nonlinear_arith)
            requires pow10(b) == 10 * y;
        assert(pow10(a + b) == 10 * pow10((a + b - 1) as nat));
    }
}

/// The product of two power-of-ten factors with at most 18 places between
/// them fits in a `u64`.
pub proof fn lemma_pow10_mul_bound(a: nat, b: nat)
    requires
        a + b <= 18,
    ensures
        pow10(a) * pow10(b) == pow10(a + b),
        pow10(a) * pow10(b) <= 1_000_000_000_000_000_000,
{
    lemma_pow10_adds(a, b);
    lemma_pow10_bounds(a + b);
}

/// Computes `10^e` exactly.
pub fn pow10_u64(e: u64) -> (r: u64)
    requires
        e <= 18,
    ensures
        r == pow10(e as nat),
{
    let mut r: u64 = 1;
    let mut i: u64 = 0;
    while i < e
        invariant
            i <= e <= 18,
            r == pow10(i as nat),
        decreases e - i,
    {
        proof {
            lemma_pow10_bounds((i + 1) as nat);
        }
        r = r * 10;
        i = i + 1;
    }
    r
}

/// The integer square root: the greatest `r` with `r * r <= n`.
pub fn isqrt_u128(n: u128) -> (r: u64)
    ensures
        (r as int) * (r as int) <= n,
        n < (r + 1) * (r + 1),
{
    let mut lo: u128 = 0;
    let mut hi: u128 = 0x1_0000_0000_0000_0000;
    while hi - lo > 1
        invariant
            lo < hi <= 0x1_0000_0000_0000_0000,
            lo * lo <= n,
            n < hi * hi,
        decreases hi - lo,
    {
        let mid: u128 = lo + (hi - lo) / 2;
        proof {
            assert(mid * mid <= 0xffff_ffff_ffff_ffff * 0xffff_ffff_ffff_ffff)
                by (nonlinear_arith)
                requires mid <= 0xffff_ffff_ffff_ffff;
        }
        if mid * mid <= n {
            lo = mid;
        } else {
            hi = mid;
        }
    }
    lo as u64
}

/// `min(a / b, u64::MAX)`: a quotient of wide intermediates brought back to
/// the fixed-point word size, saturating at the largest representable value.
pub open spec fn sat_div(a: int, b: int) -> int {
    if a / b > u64::MAX {
        u64::MAX as int
    } else {
        a / b
    }
}

/// The product of two `u64`-range values, widened so it cannot overflow.
pub fn mul_u64_u128(a: u64, b: u64) -> (r: u128)
    ensures
        r == a * b,
{
    proof {
        assert((a as int) * (b as int) <= 0xffff_ffff_ffff_ffff * 0xffff_ffff_ffff_ffff)
            by (nonlinear_arith)
            requires 0 <= a <= 0xffff_ffff_ffff_ffff, 0 <= b <= 0xffff_ffff_ffff_ffff;
    }
    (a as u128) * (b as u128)
}

/// Computes `sat_div` over `u128` intermediates.
pub fn sat_div_u128(a: u128, b: u128) -> (r: u64)
    requires
        b > 0,
    ensures
        r == sat_div(a as int, b as int),
{
    let q: u128 = a / b;
    if q > u64::MAX as u128 {
        u64::MAX
    } else {
        q as u64
    }
}

/// `min(ceil(a / b), u64::MAX)`: a rounded-up quotient of wide
/// intermediates brought back to the fixed-point word size, saturating.
pub open spec fn ceil_div_sat(a: int, b: int) -> int {
    if (a + b - 1) / b > u64::MAX {
        u64::MAX as int
    } else {
        (a + b - 1) / b
    }
}

/// Computes `ceil_div_sat` over `u128` intermediates.
pub fn ceil_div_sat_u128(a: u128, b: u128) -> (r: u64)
    requires
        b > 0,
        a <= u128::MAX - b,
    ensures
        r == ceil_div_sat(a as int, b as int),
{
    let q: u128 = (a + b - 1) / b;
    if q > u64::MAX as u128 {
        u64::MAX
    } else {
        q as u64
    }
}

/// The value a digit string denotes, read left to right.
pub open spec fn digits_value(s: Seq<u8>) -> int
    decreases s.len(),
{
    if s.len() == 0 {
        0
    } else {
        10 * digits_value(s.drop_last()) + (s.last() - 0x30)
    }
}

/// Whether every byte of `s` is an ASCII decimal digit.
pub open spec fn all_digits(s: Seq<u8>) -> bool {
    forall|i: int| 0 <= i < s.len() ==> 0x30 <= #[trigger] s[i] <= 0x39
}

/// What a parse of `s` as an unsigned decimal integer yields: the denoted
/// value when `s` is a non-empty, all-digit string whose value fits in a
/// `u64`, and nothing otherwise.
pub open spec fn parse_u64_spec(s: Seq<u8>) -> Option<u64> {
    if s.len() > 0 && all_digits(s) && digits_value(s) <= u64::MAX {
        Some(digits_value(s) as u64)
    } else {
        None
    }
}

/// A digit string's value is non-negative.
proof fn lemma_digits_value_nonneg(s: Seq<u8>)
    requires
        all_digits(s),
    ensures
        digits_value(s) >= 0,
    decreases s.len(),
{
    if s.len() > 0 {
        lemma_digits_value_nonneg(s.drop_last());
    }
}

/// Reads an unsigned decimal integer out of a byte string; `None` on an
/// empty string, a non-digit byte, or overflow of `u64`.
pub fn parse_u64_digits(s: &[u8]) -> (r: Option<u64>)
    ensures
        r == parse_u64_spec(s@),
{
    if s.len() == 0 {
        return None;
    }
    let mut acc: u64 = 0;
    let mut i: usize = 0;
    while i < s.len()
        invariant
            0 < s@.len(),
            i <= s@.len(),
            all_digits(s@.subrange(0, i as int)),
            acc == digits_value(s@.subrange(0, i as int)),
            digits_value(s@.subrange(0, i as int)) <= u64::MAX,
        decreases s@.len() - i,
    {
        let b = s[i];
        if b < 0x30 || b > 0x39 {
            proof {
                assert(s@[i as int] == b);
                assert(!all_digits(s@));
            }
            return None;
        }
        let d: u64 = (b - 0x30) as u64;
        proof {
            assert(s@.subrange(0, i + 1).drop_last() =~= s@.subrange(0, i as int));
            assert(s@.subrange(0, i + 1).last() == b);
        }
        if acc > (u64::MAX - d) / 10 {
            proof {
                lemma_digits_overflow(s@, i as int);
            }
            return None;
        }
        acc = acc * 10 + d;
        i = i + 1;
    }
    proof {
        assert(s@.subrange(0, s@.len() as int) =~= s@);
    }
    Some(acc)
}

/// Once a digit prefix exceeds `u64::MAX`, every extension of it does too.
proof fn lemma_digits_monotone(s: Seq<u8>, n: int)
    requires
        all_digits(s),
        0 <= n <= s.len(),
    ensures
        digits_value(s) >= digits_value(s.subrange(0, n)),
    decreases s.len() - n,
{
    if n < s.len() {
        lemma_digits_monotone(s, n + 1);
        let p = s.subrange(0, n + 1);
        assert(p.drop_last() =~= s.subrange(0, n));
        lemma_digits_value_nonneg(p.drop_last());
        assert(digits_value(p) >= digits_value(s.subrange(0, n)));
    } else {
        assert(s.subrange(0, n) =~= s);
    }
}

/// If appending digit `s[i]` overflows a `u64`, the whole string's value
/// overflows too.
proof fn lemma_digits_overflow(s: Seq<u8>, i: int)
    requires
        0 <= i < s.len(),
        all_digits(s.subrange(0, i + 1)),
        10 * digits_value(s.subrange(0, i)) + (s[i] - 0x30) > u64::MAX,
    ensures
        !(all_digits(s) && digits_value(s) <= u64::MAX),
{
    if all_digits(s) {
        let p = s.subrange(0, i + 1);
        assert(p.drop_last() =~= s.subrange(0, i));
        assert(digits_value(p) == 10 * digits_value(s.subrange(0, i)) + (s[i] - 0x30));
        lemma_digits_monotone(s, i + 1);
    }
}

/// Reads an unsigned decimal integer out of a string, as
/// [`parse_u64_digits`] does of its bytes.
pub fn parse_u64_str(s: &str) -> (r: Option<u64>)
    ensures
        r == parse_u64_spec(s.spec_bytes()),
{
    parse_u64_digits(s.as_bytes())
}

} // verus!
