//! Signed fixed-point numbers with 32 fractional bits.
//!
//! A `Scalar` stands for the rational number `raw / 2^32`. Every operation is
//! total: a result that does not fit is pinned to the nearest end of the range,
//! and the two ends play the part of plus and minus infinity. The range is
//! symmetric, so negation is always exact, and products and quotients are
//! rounded toward zero, so that `(-a) * b == -(a * b)` holds without exception.

use vstd::prelude::*;

verus! {

/// Raw representation of the number one.
pub const ONE_RAW: i64 = 0x1_0000_0000;

/// Largest raw magnitude; a scalar with this raw value stands for infinity.
pub const MAX_RAW: i64 = 0x7fff_ffff_ffff_ffff;

/// The scaling factor `2^32` as a mathematical integer.
pub open spec fn scale() -> int {
    0x1_0000_0000
}

/// The largest raw magnitude as a mathematical integer.
pub open spec fn max_raw() -> int {
    0x7fff_ffff_ffff_ffff
}

/// Pins `v` to the symmetric range `[-max_raw(), max_raw()]`.
pub open spec fn sat(v: int) -> int {
    if v > max_raw() {
        max_raw()
    } else if v < -max_raw() {
        -max_raw()
    } else {
        v
    }
}

/// Absolute value.
pub open spec fn mag(v: int) -> int {
    if v < 0 {
        -v
    } else {
        v
    }
}

/// A magnitude limited to `max_raw()`.
pub open spec fn cap(m: int) -> int {
    if m > max_raw() {
        max_raw()
    } else {
        m
    }
}

/// The magnitude `m` carrying the given sign.
pub open spec fn with_sign(negative: bool, m: int) -> int {
    if negative {
        -m
    } else {
        m
    }
}

/// Raw value of the sum of two raw values.
pub open spec fn fx_add(a: int, b: int) -> int {
    sat(a + b)
}

/// Raw value of the difference of two raw values.
pub open spec fn fx_sub(a: int, b: int) -> int {
    sat(a - b)
}

/// Raw value of the product: `a * b / 2^32`, rounded toward zero and saturated.
pub open spec fn fx_mul(a: int, b: int) -> int {
    with_sign((a < 0) != (b < 0), cap(mag(a) * mag(b) / scale()))
}

/// Raw value of the quotient: `a * 2^32 / b`, rounded toward zero and
/// saturated. Dividing by zero gives the infinity of the sign of `a`, and
/// zero when `a` is zero.
pub open spec fn fx_div(a: int, b: int) -> int {
    if b == 0 {
        with_sign(a < 0, if a == 0 { 0 } else { max_raw() })
    } else {
        with_sign((a < 0) != (b < 0), cap(mag(a) * scale() / mag(b)))
    }
}

/// `r` is the integer square root of `n`: the largest `r` with `r * r <= n`.
pub open spec fn is_isqrt(n: int, r: int) -> bool {
    0 <= r && r * r <= n && n < (r + 1) * (r + 1)
}

/// The integer square root of `n` (meaningful for `n >= 0`).
pub open spec fn isqrt(n: int) -> int {
    choose|r: int| is_isqrt(n, r)
}

/// Raw value of the square root; zero for arguments that are not positive.
pub open spec fn fx_sqrt(a: int) -> int {
    if a <= 0 {
        0
    } else {
        isqrt(a * scale())
    }
}

/// Raw value of the Euclidean norm of three raw values, rounded down and
/// limited to `max_raw()`.
pub open spec fn fx_hypot3(a: int, b: int, c: int) -> int {
    cap(isqrt(a * a + b * b + c * c))
}

/// An integer square root is unique.
pub proof fn lemma_isqrt_unique(n: int, r1: int, r2: int)
    requires
        is_isqrt(n, r1),
        is_isqrt(n, r2),
    ensures
        r1 == r2,
{
    if r1 < r2 {
        assert((r1 + 1) * (r1 + 1) <= r2 * r2) by (nonlinear_arith)
            requires
                0 <= r1,
                r1 + 1 <= r2,
        ;
    } else if r2 < r1 {
        assert((r2 + 1) * (r2 + 1) <= r1 * r1) by (nonlinear_arith)
            requires
                0 <= r2,
                r2 + 1 <= r1,
        ;
    }
}

/// Whoever exhibits an integer square root has found `isqrt(n)`.
pub proof fn lemma_isqrt_is(n: int, r: int)
    requires
        is_isqrt(n, r),
    ensures
        isqrt(n) == r,
{
    lemma_isqrt_unique(n, r, isqrt(n));
}

/// Every number that is not negative has an integer square root.
pub proof fn lemma_isqrt_exists(n: int)
    requires
        n >= 0,
    ensures
        is_isqrt(n, isqrt(n)),
    decreases n,
{
    if n == 0 {
        assert(is_isqrt(0, 0));
    } else {
        lemma_isqrt_exists(n - 1);
        let r = isqrt(n - 1);
        if (r + 1) * (r + 1) <= n {
            assert(n < (r + 2) * (r + 2)) by (nonlinear_arith)
                requires
                    0 <= r,
                    n - 1 < (r + 1) * (r + 1),
            ;
            assert(is_isqrt(n, r + 1));
        } else {
            assert(is_isqrt(n, r));
        }
    }
}

/// Saturation is odd: it commutes with negation.
pub proof fn lemma_sat_odd(v: int)
    ensures
        sat(-v) == -sat(v),
{
}

/// Negating one factor negates the product.
pub proof fn lemma_mul_neg(a: int, b: int)
    ensures
        fx_mul(a, -b) == -fx_mul(a, b),
        fx_mul(-a, b) == -fx_mul(a, b),
{
    assert(a == 0 || b == 0 ==> mag(a) * mag(b) == 0) by (nonlinear_arith)
        requires
            a == 0 ==> mag(a) == 0,
            b == 0 ==> mag(b) == 0,
    ;
    assert(mag(-a) == mag(a) && mag(-b) == mag(b));
}

/// A product is symmetric in its factors.
pub proof fn lemma_mul_commutes(a: int, b: int)
    ensures
        fx_mul(a, b) == fx_mul(b, a),
{
    assert(mag(a) * mag(b) == mag(b) * mag(a)) by (nonlinear_arith);
}

/// A square is not negative.
pub proof fn lemma_mul_self_nonneg(a: int)
    ensures
        0 <= fx_mul(a, a),
{
    assert(0 <= mag(a) * mag(a)) by (nonlinear_arith)
        requires
            0 <= mag(a),
    ;
}

/// A product has at most the magnitude `max_raw()`.
pub proof fn lemma_mul_range(a: int, b: int)
    ensures
        -max_raw() <= fx_mul(a, b) <= max_raw(),
{
    assert(0 <= mag(a) * mag(b)) by (nonlinear_arith)
        requires
            0 <= mag(a),
            0 <= mag(b),
    ;
}

/// A quotient has at most the magnitude `max_raw()`.
pub proof fn lemma_div_range(a: int, b: int)
    ensures
        -max_raw() <= fx_div(a, b) <= max_raw(),
{
    if b != 0 {
        assert(0 <= mag(a) * scale() / mag(b)) by (nonlinear_arith)
            requires
                0 <= mag(a),
                0 < mag(b),
                scale() == 0x1_0000_0000,
        ;
    }
}

/// With a divisor that is not negative, a quotient grows with its numerator.
pub proof fn lemma_div_monotone(n1: int, n2: int, d: int)
    requires
        n1 <= n2,
        0 <= d,
    ensures
        fx_div(n1, d) <= fx_div(n2, d),
{
    if d > 0 {
        let q1 = mag(n1) * scale() / d;
        let q2 = mag(n2) * scale() / d;
        assert(0 <= q1) by (nonlinear_arith)
            requires
                q1 == mag(n1) * scale() / d,
                0 <= mag(n1),
                0 < d,
                scale() == 0x1_0000_0000,
        ;
        assert(0 <= q2) by (nonlinear_arith)
            requires
                q2 == mag(n2) * scale() / d,
                0 <= mag(n2),
                0 < d,
                scale() == 0x1_0000_0000,
        ;
        if n1 >= 0 {
            assert(q1 <= q2) by (nonlinear_arith)
                requires
                    q1 == mag(n1) * scale() / d,
                    q2 == mag(n2) * scale() / d,
                    0 <= mag(n1) <= mag(n2),
                    0 < d,
                    scale() == 0x1_0000_0000,
            ;
        } else if n2 < 0 {
            assert(q2 <= q1) by (nonlinear_arith)
                requires
                    q1 == mag(n1) * scale() / d,
                    q2 == mag(n2) * scale() / d,
                    0 <= mag(n2) <= mag(n1),
                    0 < d,
                    scale() == 0x1_0000_0000,
            ;
        }
    }
}

/// A product with a factor in `[0, 1]` does not exceed the other factor.
pub proof fn lemma_mul_fraction(a: int, b: int)
    requires
        0 <= a <= max_raw(),
        0 <= b <= scale(),
    ensures
        0 <= fx_mul(a, b) <= a,
        fx_mul(a, b) == a * b / scale(),
{
    assert(0 <= a * b / scale() <= a) by (nonlinear_arith)
        requires
            0 <= a,
            0 <= b <= scale(),
            scale() == 0x1_0000_0000,
    ;
}

/// A quotient whose numerator has at most the magnitude of its positive
/// divisor has at most the magnitude one.
pub proof fn lemma_div_fraction(n: int, d: int)
    requires
        0 < d,
        mag(n) <= d,
    ensures
        -scale() <= fx_div(n, d) <= scale(),
        0 <= n ==> 0 <= fx_div(n, d),
{
    assert(0 <= mag(n) * scale() / d <= scale()) by (nonlinear_arith)
        requires
            0 <= mag(n) <= d,
            0 < d,
            scale() == 0x1_0000_0000,
    ;
}

/// The norm of three raw values is at least the magnitude of each of them.
pub proof fn lemma_hypot_dominates(a: int, b: int, c: int)
    requires
        mag(a) <= max_raw(),
        mag(b) <= max_raw(),
        mag(c) <= max_raw(),
    ensures
        mag(a) <= fx_hypot3(a, b, c),
        mag(b) <= fx_hypot3(a, b, c),
        mag(c) <= fx_hypot3(a, b, c),
{
    let n = a * a + b * b + c * c;
    assert(0 <= a * a && 0 <= b * b && 0 <= c * c) by (nonlinear_arith);
    lemma_isqrt_exists(n);
    let r = isqrt(n);
    lemma_square_mag(a);
    lemma_square_mag(b);
    lemma_square_mag(c);
    lemma_root_dominates(n, r, mag(a));
    lemma_root_dominates(n, r, mag(b));
    lemma_root_dominates(n, r, mag(c));
}

/// A number whose square does not exceed `n` does not exceed the integer
/// square root of `n`.
proof fn lemma_root_dominates(n: int, r: int, m: int)
    requires
        is_isqrt(n, r),
        0 <= m,
        m * m <= n,
    ensures
        m <= r,
{
    if r < m {
        assert((r + 1) * (r + 1) <= m * m) by (nonlinear_arith)
            requires
                0 <= r,
                r + 1 <= m,
        ;
    }
}

/// The square root of a raw value is not negative and stays below `2^48`.
pub proof fn lemma_sqrt_range(a: int)
    requires
        a <= max_raw(),
    ensures
        0 <= fx_sqrt(a) < 0x1_0000_0000_0000,
{
    if a > 0 {
        let n = a * scale();
        lemma_isqrt_exists(n);
        let r = isqrt(n);
        assert(r < 0x1_0000_0000_0000) by (nonlinear_arith)
            requires
                0 <= r,
                r * r <= n,
                n < 0x8000_0000_0000_0000_0000_0000,
        ;
    }
}

/// A fixed-point number: the rational `raw / 2^32`, with `raw` confined to
/// `[-MAX_RAW, MAX_RAW]`.
#[derive(Clone, Copy, Debug)]
pub struct Scalar {
    raw: i64,
}

impl Scalar {
    /// The invariant of the type: the raw value is not `i64::MIN`.
    #[verifier::type_invariant]
    pub closed spec fn inv(self) -> bool {
        self.raw > i64::MIN
    }

    /// The raw value: the number times `2^32`.
    pub closed spec fn view(self) -> int {
        self.raw as int
    }

    /// The scalar whose raw value is `v`.
    pub closed spec fn make(v: int) -> Scalar {
        Scalar { raw: v as i64 }
    }

    /// The raw value lies in the symmetric range. Every scalar that
    /// executable code can hold is well formed.
    pub open spec fn wf(self) -> bool {
        -max_raw() <= self@ <= max_raw()
    }

    /// Zero.
    pub open spec fn spec_zero() -> Scalar {
        Scalar::make(0)
    }

    /// One.
    pub open spec fn spec_one() -> Scalar {
        Scalar::make(scale())
    }

    /// The largest scalar.
    pub open spec fn spec_infinity() -> Scalar {
        Scalar::make(max_raw())
    }

    /// The smallest scalar.
    pub open spec fn spec_neg_infinity() -> Scalar {
        Scalar::make(-max_raw())
    }

    /// The scalar with the raw value `raw`, saturated.
    pub open spec fn spec_from_raw(raw: int) -> Scalar {
        Scalar::make(sat(raw))
    }

    /// The scalar that stands for the whole number `v`, saturated.
    pub open spec fn spec_from_int(v: int) -> Scalar {
        Scalar::make(sat(v * scale()))
    }

    /// The quotient of the scalars that stand for `num` and `den`.
    pub open spec fn spec_from_ratio(num: int, den: int) -> Scalar {
        Scalar::spec_from_int(num).spec_div(Scalar::spec_from_int(den))
    }

    /// Sum, saturated.
    pub open spec fn spec_add(self, rhs: Scalar) -> Scalar {
        Scalar::make(fx_add(self@, rhs@))
    }

    /// Difference, saturated.
    pub open spec fn spec_sub(self, rhs: Scalar) -> Scalar {
        Scalar::make(fx_sub(self@, rhs@))
    }

    /// Product, rounded toward zero and saturated.
    pub open spec fn spec_mul(self, rhs: Scalar) -> Scalar {
        Scalar::make(fx_mul(self@, rhs@))
    }

    /// Quotient, rounded toward zero and saturated.
    pub open spec fn spec_div(self, rhs: Scalar) -> Scalar {
        Scalar::make(fx_div(self@, rhs@))
    }

    /// Negation; exact for every well-formed scalar.
    pub open spec fn spec_neg(self) -> Scalar {
        Scalar::make(sat(-self@))
    }

    /// Absolute value; exact for every well-formed scalar.
    pub open spec fn spec_abs(self) -> Scalar {
        Scalar::make(sat(mag(self@)))
    }

    /// Square root, rounded down; zero for arguments that are not positive.
    pub open spec fn spec_sqrt(self) -> Scalar {
        Scalar::make(fx_sqrt(self@))
    }

    /// The Euclidean norm of three scalars, rounded down.
    pub open spec fn spec_hypot3(a: Scalar, b: Scalar, c: Scalar) -> Scalar {
        Scalar::make(fx_hypot3(a@, b@, c@))
    }

    /// The smaller of two scalars.
    pub open spec fn spec_min(self, rhs: Scalar) -> Scalar {
        if rhs@ < self@ {
            rhs
        } else {
            self
        }
    }

    /// The larger of two scalars.
    pub open spec fn spec_max(self, rhs: Scalar) -> Scalar {
        if rhs@ > self@ {
            rhs
        } else {
            self
        }
    }

    /// The whole part of a scalar that is not negative; zero for a negative one.
    pub open spec fn spec_trunc(self) -> int {
        if self@ < 0 {
            0
        } else {
            self@ / scale()
        }
    }
}

/// `make` and the view are inverse to each other on the raw range.
pub broadcast proof fn lemma_make_view(v: int)
    requires
        i64::MIN <= v <= i64::MAX,
    ensures
        (#[trigger] Scalar::make(v))@ == v,
{
}

/// A scalar is the one made from its own raw value.
pub broadcast proof fn lemma_view_make(s: Scalar)
    ensures
        Scalar::make(#[trigger] s@) == s,
{
}

/// The view of a scalar is a 64-bit value.
pub broadcast proof fn lemma_view_range(s: Scalar)
    ensures
        i64::MIN <= #[trigger] s@ <= i64::MAX,
{
}

/// A scalar that satisfies the invariant of the type is well formed.
pub proof fn lemma_wf(s: Scalar)
    requires
        s.inv(),
    ensures
        s.wf(),
{
}

pub broadcast group group_scalar {
    lemma_make_view,
    lemma_view_make,
    lemma_view_range,
}


/// The square of a magnitude within range stays far below `2^126`.
proof fn lemma_square_bound(m: int)
    requires
        0 <= m <= max_raw(),
    ensures
        0 <= m * m <= 0x3fff_ffff_ffff_ffff_0000_0000_0000_0001,
{
    assert(0 <= m * m <= 0x7fff_ffff_ffff_ffff * 0x7fff_ffff_ffff_ffff) by (nonlinear_arith)
        requires
            0 <= m <= 0x7fff_ffff_ffff_ffff,
    ;
}

/// A number and its magnitude have the same square.
proof fn lemma_square_mag(v: int)
    ensures
        mag(v) * mag(v) == v * v,
{
    assert((-v) * (-v) == v * v) by (nonlinear_arith);
}

/// The magnitude of a raw value.
fn raw_mag(raw: i64) -> (m: u128)
    requires
        raw > i64::MIN,
    ensures
        m == mag(raw as int),
        m <= max_raw(),
{
    if raw < 0 {
        (-raw) as u128
    } else {
        raw as u128
    }
}

/// The integer square root of a 128-bit number, by bisection.
pub fn isqrt_u128(n: u128) -> (r: u128)
    ensures
        r == isqrt(n as int),
        is_isqrt(n as int, r as int),
        r < 0x1_0000_0000_0000_0000,
{
    let mut lo: u128 = 0;
    let mut hi: u128 = 0x1_0000_0000_0000_0000;
    assert(n < hi * hi) by (nonlinear_arith)
        requires
            hi == 0x1_0000_0000_0000_0000,
            n <= u128::MAX,
    ;
    while hi - lo > 1
        invariant
            lo < hi <= 0x1_0000_0000_0000_0000,
            lo * lo <= n,
            n < hi * hi,
        decreases hi - lo,
    {
        let mid: u128 = lo + (hi - lo) / 2;
        assert(mid * mid <= 0xffff_ffff_ffff_ffff * 0xffff_ffff_ffff_ffff) by (nonlinear_arith)
            requires
                0 <= mid <= 0xffff_ffff_ffff_ffff,
        ;
        if mid * mid <= n {
            lo = mid;
        } else {
            hi = mid;
        }
    }
    proof {
        assert(hi == lo + 1);
        lemma_isqrt_is(n as int, lo as int);
    }
    lo
}

impl Scalar {
    /// Builds the scalar of sign `negative` and magnitude `cap(m)`.
    fn from_magnitude(negative: bool, m: u128) -> (r: Scalar)
        ensures
            r == Scalar::make(with_sign(negative, cap(m as int))),
    {
        let c: i64 = if m > MAX_RAW as u128 {
            MAX_RAW
        } else {
            m as i64
        };
        if negative {
            Scalar { raw: -c }
        } else {
            Scalar { raw: c }
        }
    }

    /// Zero.
    pub fn zero() -> (r: Scalar)
        ensures
            r == Scalar::spec_zero(),
            r@ == 0,
    {
        Scalar { raw: 0 }
    }

    /// One.
    pub fn one() -> (r: Scalar)
        ensures
            r == Scalar::spec_one(),
            r@ == scale(),
    {
        Scalar { raw: ONE_RAW }
    }

    /// The largest scalar, which stands for plus infinity.
    pub fn infinity() -> (r: Scalar)
        ensures
            r == Scalar::spec_infinity(),
            r@ == max_raw(),
    {
        Scalar { raw: MAX_RAW }
    }

    /// The smallest scalar, which stands for minus infinity.
    pub fn neg_infinity() -> (r: Scalar)
        ensures
            r == Scalar::spec_neg_infinity(),
            r@ == -max_raw(),
    {
        Scalar { raw: -MAX_RAW }
    }

    /// The scalar with the given raw value, saturated to the symmetric range.
    pub fn from_raw(raw: i64) -> (r: Scalar)
        ensures
            r == Scalar::spec_from_raw(raw as int),
            r@ == sat(raw as int),
    {
        if raw < -MAX_RAW {
            Scalar { raw: -MAX_RAW }
        } else {
            Scalar { raw }
        }
    }

    /// The raw value.
    pub fn raw(self) -> (r: i64)
        ensures
            r == self@,
            -max_raw() <= r <= max_raw(),
    {
        proof {
            use_type_invariant(&self);
        }
        self.raw
    }

    /// The scalar that stands for the whole number `v`, saturated.
    pub fn from_int(v: i64) -> (r: Scalar)
        ensures
            r == Scalar::spec_from_int(v as int),
            r@ == sat(v * scale()),
    {
        let wide: i128 = (v as i128) * (ONE_RAW as i128);
        if wide > MAX_RAW as i128 {
            Scalar { raw: MAX_RAW }
        } else if wide < -(MAX_RAW as i128) {
            Scalar { raw: -MAX_RAW }
        } else {
            Scalar { raw: wide as i64 }
        }
    }

    /// The scalar that stands for the count `n`, saturated.
    pub fn from_usize(n: usize) -> (r: Scalar)
        ensures
            r == Scalar::spec_from_int(n as int),
            r@ == sat(n * scale()),
    {
        if n > 0x7fff_ffff {
            Scalar { raw: MAX_RAW }
        } else {
            let wide: i64 = (n as i64) * ONE_RAW;
            Scalar { raw: wide }
        }
    }

    /// The quotient `num / den` of two whole numbers.
    pub fn from_ratio(num: i64, den: i64) -> (r: Scalar)
        ensures
            r == Scalar::spec_from_ratio(num as int, den as int),
    {
        Scalar::from_int(num) / Scalar::from_int(den)
    }

    /// The whole part of a scalar that is not negative; zero for a negative one.
    pub fn trunc(self) -> (r: u64)
        ensures
            r == self.spec_trunc(),
            r <= 0x7fff_ffff,
    {
        if self.raw < 0 {
            0
        } else {
            (self.raw / ONE_RAW) as u64
        }
    }






    /// Absolute value, which is exact.
    pub fn abs(self) -> (r: Scalar)
        ensures
            r == self.spec_abs(),
            r@ == mag(self@),
    {
        proof {
            use_type_invariant(&self);
        }
        if self.raw < 0 {
            Scalar { raw: -self.raw }
        } else {
            self
        }
    }

    /// Square root, rounded down; zero for arguments that are not positive.
    pub fn sqrt(self) -> (r: Scalar)
        ensures
            r == self.spec_sqrt(),
            r@ == fx_sqrt(self@),
            0 <= r@,
    {
        if self.raw <= 0 {
            Scalar { raw: 0 }
        } else {
            let n: u128 = (self.raw as u128) * 0x1_0000_0000;
            let root: u128 = isqrt_u128(n);
            assert(root < 0x1_0000_0000_0000) by (nonlinear_arith)
                requires
                    root * root <= n,
                    n < 0x8000_0000_0000_0000_0000_0000,
                    0 <= root,
            ;
            Scalar { raw: root as i64 }
        }
    }

    /// The Euclidean norm `sqrt(a^2 + b^2 + c^2)`, computed without
    /// intermediate rounding and rounded down.
    pub fn hypot3(a: Scalar, b: Scalar, c: Scalar) -> (r: Scalar)
        ensures
            r == Scalar::spec_hypot3(a, b, c),
            r@ == fx_hypot3(a@, b@, c@),
            0 <= r@,
    {
        proof {
            use_type_invariant(&a);
            use_type_invariant(&b);
            use_type_invariant(&c);
        }
        let ma: u128 = raw_mag(a.raw);
        let mb: u128 = raw_mag(b.raw);
        let mc: u128 = raw_mag(c.raw);
        proof {
            lemma_square_bound(ma as int);
            lemma_square_bound(mb as int);
            lemma_square_bound(mc as int);
            lemma_square_mag(a@);
            lemma_square_mag(b@);
            lemma_square_mag(c@);
        }
        let sum: u128 = ma * ma + mb * mb + mc * mc;
        let root: u128 = isqrt_u128(sum);
        Scalar::from_magnitude(false, root)
    }

    /// The smaller of two scalars.
    pub fn min(self, rhs: Scalar) -> (r: Scalar)
        ensures
            r == self.spec_min(rhs),
    {
        if rhs.raw < self.raw {
            rhs
        } else {
            self
        }
    }

    /// The larger of two scalars.
    pub fn max(self, rhs: Scalar) -> (r: Scalar)
        ensures
            r == self.spec_max(rhs),
    {
        if rhs.raw > self.raw {
            rhs
        } else {
            self
        }
    }

    /// Strictly less.
    pub fn lt(self, rhs: Scalar) -> (b: bool)
        ensures
            b == (self@ < rhs@),
    {
        self.raw < rhs.raw
    }

    /// Less or equal.
    pub fn le(self, rhs: Scalar) -> (b: bool)
        ensures
            b == (self@ <= rhs@),
    {
        self.raw <= rhs.raw
    }

    /// Strictly greater.
    pub fn gt(self, rhs: Scalar) -> (b: bool)
        ensures
            b == (self@ > rhs@),
    {
        self.raw > rhs.raw
    }

    /// Greater or equal.
    pub fn ge(self, rhs: Scalar) -> (b: bool)
        ensures
            b == (self@ >= rhs@),
    {
        self.raw >= rhs.raw
    }
}


impl core::ops::Add for Scalar {
    type Output = Scalar;

    /// Sum, saturated.
    fn add(self, rhs: Scalar) -> (r: Scalar)
        ensures
            r == self.spec_add(rhs),
            r@ == fx_add(self@, rhs@),
    {
        proof {
            use_type_invariant(&self);
            use_type_invariant(&rhs);
        }
        let s: i128 = self.raw as i128 + rhs.raw as i128;
        if s > MAX_RAW as i128 {
            Scalar { raw: MAX_RAW }
        } else if s < -(MAX_RAW as i128) {
            Scalar { raw: -MAX_RAW }
        } else {
            Scalar { raw: s as i64 }
        }
    }
}

impl vstd::std_specs::ops::AddSpecImpl for Scalar {
    open spec fn obeys_add_spec() -> bool {
        true
    }

    open spec fn add_req(self, rhs: Scalar) -> bool {
        true
    }

    open spec fn add_spec(self, rhs: Scalar) -> Scalar {
        self.spec_add(rhs)
    }
}

impl core::ops::Sub for Scalar {
    type Output = Scalar;

    /// Difference, saturated.
    fn sub(self, rhs: Scalar) -> (r: Scalar)
        ensures
            r == self.spec_sub(rhs),
            r@ == fx_sub(self@, rhs@),
    {
        proof {
            use_type_invariant(&self);
            use_type_invariant(&rhs);
        }
        let s: i128 = self.raw as i128 - rhs.raw as i128;
        if s > MAX_RAW as i128 {
            Scalar { raw: MAX_RAW }
        } else if s < -(MAX_RAW as i128) {
            Scalar { raw: -MAX_RAW }
        } else {
            Scalar { raw: s as i64 }
        }
    }
}

impl vstd::std_specs::ops::SubSpecImpl for Scalar {
    open spec fn obeys_sub_spec() -> bool {
        true
    }

    open spec fn sub_req(self, rhs: Scalar) -> bool {
        true
    }

    open spec fn sub_spec(self, rhs: Scalar) -> Scalar {
        self.spec_sub(rhs)
    }
}

impl core::ops::Mul for Scalar {
    type Output = Scalar;

    /// Product, rounded toward zero and saturated.
    fn mul(self, rhs: Scalar) -> (r: Scalar)
        ensures
            r == self.spec_mul(rhs),
            r@ == fx_mul(self@, rhs@),
    {
        proof {
            use_type_invariant(&self);
            use_type_invariant(&rhs);
        }
        let a: u128 = raw_mag(self.raw);
        let b: u128 = raw_mag(rhs.raw);
        assert(a * b <= 0x7fff_ffff_ffff_ffff * 0x7fff_ffff_ffff_ffff) by (nonlinear_arith)
            requires
                0 <= a <= 0x7fff_ffff_ffff_ffff,
                0 <= b <= 0x7fff_ffff_ffff_ffff,
        ;
        let q: u128 = (a * b) / 0x1_0000_0000;
        Scalar::from_magnitude((self.raw < 0) != (rhs.raw < 0), q)
    }
}

impl vstd::std_specs::ops::MulSpecImpl for Scalar {
    open spec fn obeys_mul_spec() -> bool {
        true
    }

    open spec fn mul_req(self, rhs: Scalar) -> bool {
        true
    }

    open spec fn mul_spec(self, rhs: Scalar) -> Scalar {
        self.spec_mul(rhs)
    }
}

impl core::ops::Div for Scalar {
    type Output = Scalar;

    /// Quotient, rounded toward zero and saturated; see `fx_div` for a zero
    /// divisor.
    fn div(self, rhs: Scalar) -> (r: Scalar)
        ensures
            r == self.spec_div(rhs),
            r@ == fx_div(self@, rhs@),
    {
        proof {
            use_type_invariant(&self);
            use_type_invariant(&rhs);
        }
        if rhs.raw == 0 {
            if self.raw == 0 {
                Scalar { raw: 0 }
            } else if self.raw < 0 {
                Scalar { raw: -MAX_RAW }
            } else {
                Scalar { raw: MAX_RAW }
            }
        } else {
            let a: u128 = raw_mag(self.raw);
            let b: u128 = raw_mag(rhs.raw);
            let q: u128 = (a * 0x1_0000_0000) / b;
            Scalar::from_magnitude((self.raw < 0) != (rhs.raw < 0), q)
        }
    }
}

impl vstd::std_specs::ops::DivSpecImpl for Scalar {
    open spec fn obeys_div_spec() -> bool {
        true
    }

    open spec fn div_req(self, rhs: Scalar) -> bool {
        true
    }

    open spec fn div_spec(self, rhs: Scalar) -> Scalar {
        self.spec_div(rhs)
    }
}

impl core::ops::Neg for Scalar {
    type Output = Scalar;

    /// Negation, which is exact.
    fn neg(self) -> (r: Scalar)
        ensures
            r == self.spec_neg(),
            r@ == -self@,
    {
        proof {
            use_type_invariant(&self);
        }
        Scalar { raw: -self.raw }
    }
}

impl vstd::std_specs::ops::NegSpecImpl for Scalar {
    open spec fn obeys_neg_spec() -> bool {
        true
    }

    open spec fn neg_req(self) -> bool {
        true
    }

    open spec fn neg_spec(self) -> Scalar {
        self.spec_neg()
    }
}

} // verus!
