//! Fixed-point scalars: the numeric ground the whole simulation stands on.
//!
//! A `Fx` holds a world quantity as `raw` units of `1 / SCALE`, so `1.0`
//! is `SCALE` raw units.  Every arithmetic operation saturates into the
//! symmetric range `[-RAW_MAX, RAW_MAX]` and rounds quotients toward zero,
//! and each operation's contract states that result exactly over `int`.

use vstd::prelude::*;

verus! {

/// Raw units per one whole world unit.
pub const SCALE: i64 = 1_000_000;

/// Largest raw magnitude a `Fx` can carry.  The range is symmetric
/// (the minimum is `-RAW_MAX`, not `i64::MIN`) so that negation is exact.
pub const RAW_MAX: i64 = i64::MAX;

/// Saturate an unbounded integer into the symmetric raw range.
pub open spec fn sat64(x: int) -> int {
    if x > RAW_MAX as int {
        RAW_MAX as int
    } else if x < -(RAW_MAX as int) {
        -(RAW_MAX as int)
    } else {
        x
    }
}

/// Division rounding toward zero, the meaning of `/` on Rust's signed
/// integers, written over Verus's Euclidean `/`.
pub open spec fn div_t(a: int, b: int) -> int {
    if a >= 0 {
        a / b
    } else {
        -((-a) / b)
    }
}

/// Raw result of fixed-point addition.
pub open spec fn fx_add_s(a: int, b: int) -> int {
    sat64(a + b)
}

/// Raw result of fixed-point subtraction.
pub open spec fn fx_sub_s(a: int, b: int) -> int {
    sat64(a - b)
}

/// Raw result of fixed-point negation.
pub open spec fn fx_neg_s(a: int) -> int {
    sat64(-a)
}

/// Raw result of fixed-point multiplication: the raw product scaled back
/// down by `SCALE`, rounded toward zero, then saturated.
pub open spec fn fx_mul_s(a: int, b: int) -> int {
    sat64(div_t(a * b, SCALE as int))
}

/// Raw result of fixed-point division: the dividend scaled up by `SCALE`,
/// divided rounding toward zero, then saturated.
pub open spec fn fx_div_s(a: int, b: int) -> int {
    sat64(div_t(a * (SCALE as int), b))
}

/// Integer square root, rounded down.
pub open spec fn sqrt_floor(n: nat) -> nat
    decreases n,
{
    if n == 0 {
        0
    } else {
        let r = sqrt_floor((n - 1) as nat);
        if (r + 1) * (r + 1) <= n {
            r + 1
        } else {
            r
        }
    }
}

/// Raw result of the fixed-point square root of a nonnegative raw value:
/// `sqrt(a / SCALE) == sqrt(a * SCALE) / SCALE`, so the raw answer is the
/// integer square root of `a * SCALE`.
pub open spec fn fx_sqrt_s(a: int) -> int {
    sqrt_floor((a * (SCALE as int)) as nat) as int
}

/// Saturation is an odd function: the raw range is symmetric.
pub proof fn lemma_sat64_odd(x: int)
    ensures
        sat64(-x) == -sat64(x),
{
}

/// Division by a positive divisor, rounding toward zero, is odd in the
/// dividend.
pub proof fn lemma_div_t_odd(a: int, b: int)
    requires
        b > 0,
    ensures
        div_t(-a, b) == -div_t(a, b),
{
    if a == 0 {
        vstd::arithmetic::div_mod::lemma_div_of0(b);
    }
}

/// Division by a positive divisor, rounding toward zero, keeps the
/// dividend's sign.
pub proof fn lemma_div_t_sign(a: int, b: int)
    requires
        b > 0,
    ensures
        a >= 0 ==> div_t(a, b) >= 0,
        a <= 0 ==> div_t(a, b) <= 0,
{
    if a >= 0 {
        vstd::arithmetic::div_mod::lemma_div_pos_is_pos(a, b);
    }
    if a <= 0 {
        vstd::arithmetic::div_mod::lemma_div_pos_is_pos(-a, b);
    }
}

/// Fixed-point multiplication is commutative.
pub proof fn lemma_fx_mul_comm(a: int, b: int)
    ensures
        fx_mul_s(a, b) == fx_mul_s(b, a),
{
    assert(a * b == b * a) by (nonlinear_arith) {}
}

/// Fixed-point multiplication is odd in its left argument.
pub proof fn lemma_fx_mul_neg_left(a: int, b: int)
    ensures
        fx_mul_s(-a, b) == -fx_mul_s(a, b),
{
    assert((-a) * b == -(a * b)) by (nonlinear_arith) {}
    lemma_div_t_odd(a * b, SCALE as int);
    lemma_sat64_odd(div_t(a * b, SCALE as int));
}

/// Fixed-point division is odd in its dividend.
pub proof fn lemma_fx_div_neg_left(a: int, b: int)
    requires
        b > 0,
    ensures
        fx_div_s(-a, b) == -fx_div_s(a, b),
{
    lemma_div_t_odd(a * (SCALE as int), b);
    lemma_sat64_odd(div_t(a * (SCALE as int), b));
}

/// A fixed-point square is unchanged by negating its argument.
pub proof fn lemma_fx_square_neg(a: int)
    ensures
        fx_mul_s(-a, -a) == fx_mul_s(a, a),
{
    assert((-a) * (-a) == a * a) by (nonlinear_arith) {}
}

/// Fixed-point multiplication keeps the sign of the underlying product.
pub proof fn lemma_fx_mul_sign(a: int, b: int)
    ensures
        a >= 0 && b >= 0 ==> fx_mul_s(a, b) >= 0,
        a <= 0 && b >= 0 ==> fx_mul_s(a, b) <= 0,
        a >= 0 && b <= 0 ==> fx_mul_s(a, b) <= 0,
        a <= 0 && b <= 0 ==> fx_mul_s(a, b) >= 0,
{
    assert(a >= 0 && b >= 0 ==> a * b >= 0) by (nonlinear_arith) {}
    assert(a <= 0 && b >= 0 ==> a * b <= 0) by (nonlinear_arith) {}
    assert(a >= 0 && b <= 0 ==> a * b <= 0) by (nonlinear_arith) {}
    assert(a <= 0 && b <= 0 ==> a * b >= 0) by (nonlinear_arith) {}
    lemma_div_t_sign(a * b, SCALE as int);
}

/// Fixed-point division by a positive divisor keeps the dividend's sign.
pub proof fn lemma_fx_div_sign(a: int, b: int)
    requires
        b > 0,
    ensures
        a >= 0 ==> fx_div_s(a, b) >= 0,
        a <= 0 ==> fx_div_s(a, b) <= 0,
{
    lemma_div_t_sign(a * (SCALE as int), b);
}

/// Multiplying by the fixed-point one (`SCALE` raw units) gives the
/// saturated original value back.
pub proof fn lemma_fx_mul_by_one(a: int)
    ensures
        fx_mul_s(a, SCALE as int) == sat64(a),
{
    if a >= 0 {
        vstd::arithmetic::div_mod::lemma_div_multiples_vanish(a, SCALE as int);
        assert(a * (SCALE as int) == (SCALE as int) * a);
    } else {
        vstd::arithmetic::div_mod::lemma_div_multiples_vanish(-a, SCALE as int);
        assert(-(a * (SCALE as int)) == (SCALE as int) * (-a));
    }
}

/// A square root is never negative.
pub proof fn lemma_sqrt_nonneg(a: int)
    requires
        a >= 0,
    ensures
        fx_sqrt_s(a) >= 0,
{
}

/// The square root of a positive raw value is positive: a whole raw unit
/// scales up to `SCALE` raw units, whose root is at least one.
pub proof fn lemma_fx_sqrt_pos(a: int)
    requires
        a > 0,
    ensures
        fx_sqrt_s(a) > 0,
{
    let n = (a * (SCALE as int)) as nat;
    assert(a * (SCALE as int) >= SCALE as int);
    lemma_sqrt_floor_bounds(n);
    let s = sqrt_floor(n);
    if s == 0 {
        assert(n < (s + 1) * (s + 1));
        assert((s + 1) * (s + 1) == 1) by (nonlinear_arith)
            requires s == 0,
        {}
        assert(false);
    }
    assert(fx_sqrt_s(a) == s as int);
}

/// A fixed-point world scalar: `raw / SCALE` world units.
#[derive(Clone, Copy, PartialEq, Eq, Structural, Debug)]
pub struct Fx {
    pub raw: i64,
}

impl View for Fx {
    type V = int;

    open spec fn view(&self) -> int {
        self.raw as int
    }
}

proof fn lemma_sqrt_floor_bounds(n: nat)
    ensures
        sqrt_floor(n) * sqrt_floor(n) <= n,
        n < (sqrt_floor(n) + 1) * (sqrt_floor(n) + 1),
    decreases n,
{
    let s = sqrt_floor(n);
    if n == 0 {
        assert(s == 0);
        assert(s * s <= n && n < (s + 1) * (s + 1)) by (nonlinear_arith)
            requires s == 0, n == 0,
        {}
    } else {
        lemma_sqrt_floor_bounds((n - 1) as nat);
        let r = sqrt_floor((n - 1) as nat);
        assert(r * r <= n - 1);
        assert(n - 1 < (r + 1) * (r + 1));
        if (r + 1) * (r + 1) <= n {
            assert(s == r + 1);
            assert(s * s <= n && n < (s + 1) * (s + 1)) by (nonlinear_arith)
                requires s == r + 1, n == (r + 1) * (r + 1), r >= 0,
            {}
        } else {
            assert(s == r);
            assert(s * s <= n && n < (s + 1) * (s + 1)) by (nonlinear_arith)
                requires s == r, r * r <= n - 1, n < (r + 1) * (r + 1),
            {}
        }
    }
}

proof fn lemma_sqrt_floor_unique(n: nat, r: nat)
    requires
        r * r <= n,
        n < (r + 1) * (r + 1),
    ensures
        r == sqrt_floor(n),
{
    let s = sqrt_floor(n);
    lemma_sqrt_floor_bounds(n);
    if r < s {
        assert((r + 1) * (r + 1) <= s * s) by (nonlinear_arith)
            requires r + 1 <= s,
        {}
    }
    if s < r {
        assert((s + 1) * (s + 1) <= r * r) by (nonlinear_arith)
            requires s + 1 <= r,
        {}
    }
}

/// Integer square root of a `u128`, rounded down, by binary search.
fn isqrt_u128(n: u128) -> (r: u64)
    ensures
        r as nat == sqrt_floor(n as nat),
{
    let mut lo: u128 = 0;
    let mut hi: u128 = if n > u64::MAX as u128 {
        u64::MAX as u128
    } else {
        n
    };
    proof {
        assert((hi + 1) * (hi + 1) > n) by (nonlinear_arith)
            requires hi as int == if n > u64::MAX as int { u64::MAX as int } else { n as int },
        {}
    }
    while lo < hi
        invariant
            lo <= hi <= u64::MAX,
            lo * lo <= n,
            (hi + 1) * (hi + 1) > n,
        decreases hi - lo,
    {
        let mid: u128 = lo + (hi - lo + 1) / 2;
        proof {
            assert(mid * mid < 0x1_0000_0000_0000_0000_0000_0000_0000_0000) by (nonlinear_arith)
                requires mid <= 0xffff_ffff_ffff_ffffu64 as int,
            {}
        }
        if mid * mid <= n {
            lo = mid;
        } else {
            hi = mid - 1;
        }
    }
    proof {
        lemma_sqrt_floor_unique(n as nat, lo as nat);
    }
    lo as u64
}

impl Fx {
    /// Build a scalar directly from raw units.
    pub fn from_raw(raw: i64) -> (r: Fx)
        ensures
            r@ == raw as int,
    {
        Fx { raw }
    }

    /// The zero scalar.
    pub fn zero() -> (r: Fx)
        ensures
            r@ == 0,
    {
        Fx { raw: 0 }
    }

    /// The scalar one (one whole world unit).
    pub fn one() -> (r: Fx)
        ensures
            r@ == SCALE as int,
    {
        Fx { raw: SCALE }
    }

    /// Build a scalar from a whole number of world units.
    pub fn from_int(i: i64) -> (r: Fx)
        requires
            -(RAW_MAX as int) <= i * (SCALE as int) <= RAW_MAX as int,
        ensures
            r@ == i * (SCALE as int),
    {
        Fx { raw: i * SCALE }
    }

    /// Saturate a wide intermediate back into the raw range.
    fn clamp128(x: i128) -> (r: i64)
        ensures
            r as int == sat64(x as int),
    {
        if x > RAW_MAX as i128 {
            RAW_MAX
        } else if x < -(RAW_MAX as i128) {
            -RAW_MAX
        } else {
            x as i64
        }
    }

    /// Saturating fixed-point addition.
    pub fn add(self, other: Fx) -> (r: Fx)
        ensures
            r@ == fx_add_s(self@, other@),
    {
        let s: i128 = self.raw as i128 + other.raw as i128;
        Fx { raw: Self::clamp128(s) }
    }

    /// Saturating fixed-point subtraction.
    pub fn sub(self, other: Fx) -> (r: Fx)
        ensures
            r@ == fx_sub_s(self@, other@),
    {
        let s: i128 = self.raw as i128 - other.raw as i128;
        Fx { raw: Self::clamp128(s) }
    }

    /// Saturating fixed-point negation.
    pub fn neg(self) -> (r: Fx)
        ensures
            r@ == fx_neg_s(self@),
    {
        let s: i128 = -(self.raw as i128);
        Fx { raw: Self::clamp128(s) }
    }

    /// Saturating fixed-point multiplication.
    pub fn mul(self, other: Fx) -> (r: Fx)
        ensures
            r@ == fx_mul_s(self@, other@),
    {
        proof {
            assert(
                -0x4000_0000_0000_0000_0000_0000_0000_0000
                    <= (self.raw as int) * (other.raw as int)
                    <= 0x4000_0000_0000_0000_0000_0000_0000_0000
            ) by (nonlinear_arith)
                requires
                    i64::MIN <= self.raw as int <= i64::MAX,
                    i64::MIN <= other.raw as int <= i64::MAX,
            {}
        }
        let p: i128 = (self.raw as i128) * (other.raw as i128);
        let q: i128 = p / (SCALE as i128);
        Fx { raw: Self::clamp128(q) }
    }

    /// Saturating fixed-point division.  The divisor must be positive; the
    /// callers that face a zero divisor decide a policy first, and every
    /// quantity the simulation divides by (a distance, a magnitude, a
    /// configured scale) is positive when nonzero.
    pub fn div(self, other: Fx) -> (r: Fx)
        requires
            other@ > 0,
        ensures
            r@ == fx_div_s(self@, other@),
    {
        proof {
            assert(
                -0x4000_0000_0000_0000_0000_0000_0000_0000
                    <= (self.raw as int) * (SCALE as int)
                    <= 0x4000_0000_0000_0000_0000_0000_0000_0000
            ) by (nonlinear_arith)
                requires
                    i64::MIN <= self.raw as int <= i64::MAX,
            {}
        }
        let n: i128 = (self.raw as i128) * (SCALE as i128);
        let q: i128 = n / (other.raw as i128);
        Fx { raw: Self::clamp128(q) }
    }

    /// Fixed-point square root of a nonnegative scalar, rounded down.
    pub fn sqrt(self) -> (r: Fx)
        requires
            self@ >= 0,
        ensures
            r@ == fx_sqrt_s(self@),
    {
        let n: u128 = (self.raw as u128) * (SCALE as u128);
        let s: u64 = isqrt_u128(n);
        proof {
            lemma_sqrt_floor_bounds(n as nat);
            assert(s as int <= i64::MAX) by (nonlinear_arith)
                requires
                    (s as int) * (s as int) <= n as int,
                    n as int <= (i64::MAX as int) * (SCALE as int),
            {}
        }
        Fx { raw: s as i64 }
    }
}

} // verus!
