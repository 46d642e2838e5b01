//! Fixed-point scalar arithmetic.
//!
//! Every quantity in the renderer (coordinates, matrix entries, color
//! channels, ray parameters) is an `Fx`: a signed 64-bit count of units of
//! `1 / SCALE`, with `SCALE = 2^32`. All operations are total: results that
//! would leave the representable range are clamped to `[-MAX_RAW, MAX_RAW]`,
//! division by zero yields zero, and the square root of a negative value is
//! zero. Each operation's contract states its result exactly, as a function
//! on raw values over `int`.

use vstd::prelude::*;

verus! {

use vstd::arithmetic::div_mod::{lemma_fundamental_div_mod, lemma_fundamental_div_mod_converse, lemma_mod_bound};

/// Number of raw units per 1.0.
pub const SCALE: i64 = 4294967296;

/// Half of `SCALE`, used for round-to-nearest.
pub const HALF_SCALE: i64 = 2147483648;

/// Raw form of the tolerance 1e-5 used by every approximate comparison.
pub const EPSILON_RAW: i64 = 42950;

/// Largest raw magnitude a scalar may hold.
pub const MAX_RAW: i64 = 9223372036854775807;

/// Absolute value over `int`.
pub open spec fn abs_int(x: int) -> int {
    if x < 0 {
        -x
    } else {
        x
    }
}

/// Clamp an unbounded integer into the representable raw range.
pub open spec fn clamped(x: int) -> int {
    if x > MAX_RAW {
        MAX_RAW as int
    } else if x < -(MAX_RAW as int) {
        -(MAX_RAW as int)
    } else {
        x
    }
}

/// Raw result of addition.
pub open spec fn add_raw(a: int, b: int) -> int {
    clamped(a + b)
}

/// Raw result of subtraction.
pub open spec fn sub_raw(a: int, b: int) -> int {
    clamped(a - b)
}

/// Raw result of negation.
pub open spec fn neg_raw(a: int) -> int {
    clamped(-a)
}

/// Round-to-nearest division of a nonnegative magnitude by `SCALE`.
pub open spec fn unscale_round(m: int) -> int {
    (m + HALF_SCALE) / (SCALE as int)
}

/// Raw result of multiplication: magnitudes multiplied, scaled back with
/// rounding, the sign reapplied, and the result clamped.
pub open spec fn mul_raw(a: int, b: int) -> int {
    let q = unscale_round(abs_int(a) * abs_int(b));
    if (a < 0) != (b < 0) {
        clamped(-q)
    } else {
        clamped(q)
    }
}

/// Raw result of division; zero when the divisor is zero.
pub open spec fn div_raw(a: int, b: int) -> int {
    if b == 0 {
        0
    } else {
        let q = (abs_int(a) * SCALE + abs_int(b) / 2) / abs_int(b);
        if (a < 0) != (b < 0) {
            clamped(-q)
        } else {
            clamped(q)
        }
    }
}

/// Integer square root, defined by counting up; `isqrt_bounds` shows it is
/// the unique `r` with `r * r <= n < (r + 1) * (r + 1)`.
pub open spec fn isqrt(n: nat) -> nat
    decreases n,
{
    if n == 0 {
        0
    } else {
        let r = isqrt((n - 1) as nat);
        if (r + 1) * (r + 1) <= n {
            r + 1
        } else {
            r
        }
    }
}

/// Raw result of the square root: zero for nonpositive input, else the
/// integer square root of the magnitude rescaled into raw units.
pub open spec fn sqrt_raw(a: int) -> int {
    if a <= 0 {
        0
    } else {
        isqrt((a * SCALE) as nat) as int
    }
}

pub proof fn isqrt_bounds(n: nat)
    ensures
        isqrt(n) * isqrt(n) <= n,
        n < (isqrt(n) + 1) * (isqrt(n) + 1),
    decreases n,
{
    reveal_with_fuel(isqrt, 2);
    if n == 0 {
        assert(isqrt(n) == 0);
        assert(n < (isqrt(n) + 1) * (isqrt(n) + 1)) by (nonlinear_arith)
            requires
                n == 0,
                isqrt(n) == 0,
        ;
    }
    if n > 0 {
        isqrt_bounds((n - 1) as nat);
        let r = isqrt((n - 1) as nat);
        if (r + 1) * (r + 1) <= n {
            assert(isqrt(n) == r + 1);
            assert(n < (r + 2) * (r + 2)) by (nonlinear_arith)
                requires
                    n - 1 < (r + 1) * (r + 1),
            ;
        } else {
            assert(isqrt(n) == r);
        }
    }
}

pub proof fn isqrt_unique(n: nat, r: nat)
    requires
        r * r <= n,
        n < (r + 1) * (r + 1),
    ensures
        r == isqrt(n),
{
    isqrt_bounds(n);
    let s = isqrt(n);
    assert(r == s) by (nonlinear_arith)
        requires
            r * r <= n,
            n < (r + 1) * (r + 1),
            s * s <= n,
            n < (s + 1) * (s + 1);
}

/// Multiplying by zero yields exactly zero.
pub proof fn lemma_mul_raw_zero(b: int)
    ensures
        mul_raw(0, b) == 0,
        mul_raw(b, 0) == 0,
{
    assert(abs_int(0) == 0);
    assert(abs_int(0) * abs_int(b) == 0) by (nonlinear_arith)
        requires
            abs_int(0) == 0;
    assert(abs_int(b) * abs_int(0) == 0) by (nonlinear_arith)
        requires
            abs_int(0) == 0;
    assert(unscale_round(0) == 0);
}

/// Multiplying an in-range value by one is exact.
pub proof fn lemma_mul_raw_one(b: int)
    requires
        -(MAX_RAW as int) <= b <= MAX_RAW as int,
    ensures
        mul_raw(SCALE as int, b) == b,
        mul_raw(b, SCALE as int) == b,
{
    let m = abs_int(b);
    lemma_fundamental_div_mod_converse(
        SCALE * m + HALF_SCALE,
        SCALE as int,
        m,
        HALF_SCALE as int,
    );
    assert(unscale_round(abs_int(SCALE as int) * m) == m);
    assert(unscale_round(m * abs_int(SCALE as int)) == m);
}

/// Dividing an in-range value by one is exact.
pub proof fn lemma_div_raw_one(a: int)
    requires
        -(MAX_RAW as int) <= a <= MAX_RAW as int,
    ensures
        div_raw(a, SCALE as int) == a,
{
    let m = abs_int(a);
    lemma_fundamental_div_mod_converse(
        m * SCALE + HALF_SCALE,
        SCALE as int,
        m,
        HALF_SCALE as int,
    );
    assert((m * SCALE + abs_int(SCALE as int) / 2) / abs_int(SCALE as int) == m);
}

/// The unit laws of fixed-point multiplication and division, quantified so
/// that they apply to any term: a factor of zero gives zero, and a factor
/// or divisor of one leaves an in-range value unchanged.
pub proof fn fx_unit_laws()
    ensures
        forall|a: int, b: int| a == 0 || b == 0 ==> #[trigger] mul_raw(a, b) == 0,
        forall|a: int, b: int|
            b == SCALE && -(MAX_RAW as int) <= a <= MAX_RAW as int ==> #[trigger] mul_raw(a, b)
                == a,
        forall|a: int, b: int|
            a == SCALE && -(MAX_RAW as int) <= b <= MAX_RAW as int ==> #[trigger] mul_raw(a, b)
                == b,
        forall|a: int, b: int|
            b == SCALE && -(MAX_RAW as int) <= a <= MAX_RAW as int ==> #[trigger] div_raw(a, b)
                == a,
{
    assert forall|a: int, b: int| a == 0 || b == 0 implies #[trigger] mul_raw(a, b) == 0 by {
        if a == 0 {
            lemma_mul_raw_zero(b);
        } else {
            lemma_mul_raw_zero(a);
        }
    }
    assert forall|a: int, b: int|
        b == SCALE && -(MAX_RAW as int) <= a <= MAX_RAW as int implies #[trigger] mul_raw(a, b)
        == a by {
        lemma_mul_raw_one(a);
    }
    assert forall|a: int, b: int|
        a == SCALE && -(MAX_RAW as int) <= b <= MAX_RAW as int implies #[trigger] mul_raw(a, b)
        == b by {
        lemma_mul_raw_one(b);
    }
    assert forall|a: int, b: int|
        b == SCALE && -(MAX_RAW as int) <= a <= MAX_RAW as int implies #[trigger] div_raw(a, b)
        == a by {
        lemma_div_raw_one(a);
    }
}

/// A fixed-point scalar: `raw / SCALE` in real terms.
#[derive(Clone, Copy, Debug)]
pub struct Fx {
    pub raw: i64,
}

/// The scalar holding a given raw value (which must already be in range).
pub open spec fn fx(raw: int) -> Fx {
    Fx { raw: raw as i64 }
}

pub open spec fn fx_add(a: Fx, b: Fx) -> Fx {
    fx(add_raw(a.raw as int, b.raw as int))
}

pub open spec fn fx_sub(a: Fx, b: Fx) -> Fx {
    fx(sub_raw(a.raw as int, b.raw as int))
}

pub open spec fn fx_neg(a: Fx) -> Fx {
    fx(neg_raw(a.raw as int))
}

pub open spec fn fx_abs(a: Fx) -> Fx {
    fx(clamped(abs_int(a.raw as int)))
}

pub open spec fn fx_mul(a: Fx, b: Fx) -> Fx {
    fx(mul_raw(a.raw as int, b.raw as int))
}

pub open spec fn fx_div(a: Fx, b: Fx) -> Fx {
    fx(div_raw(a.raw as int, b.raw as int))
}

pub open spec fn fx_sqrt(a: Fx) -> Fx {
    fx(sqrt_raw(a.raw as int))
}

/// The scalar for a whole number of units.
pub open spec fn fx_whole(n: int) -> Fx {
    fx(clamped(n * SCALE))
}

/// Approximate equality of two scalars: within 1e-5 of each other.
pub open spec fn fx_near(a: Fx, b: Fx) -> bool {
    abs_int(a.raw as int - b.raw as int) < EPSILON_RAW
}

/// Clamp an `i128` into the raw range.
fn clamp_i128(x: i128) -> (r: i64)
    ensures
        r as int == clamped(x as int),
{
    if x > MAX_RAW as i128 {
        MAX_RAW
    } else if x < -(MAX_RAW as i128) {
        -MAX_RAW
    } else {
        x as i64
    }
}

/// Clamp a nonnegative `u128` magnitude into the raw range.
fn clamp_mag(x: u128) -> (r: i64)
    ensures
        r as int == clamped(x as int),
        r >= 0,
{
    if x > MAX_RAW as u128 {
        MAX_RAW
    } else {
        x as i64
    }
}

/// Magnitude of a raw value, as a `u128`.
fn mag(x: i64) -> (r: u128)
    ensures
        r as int == abs_int(x as int),
{
    if x >= 0 {
        x as u128
    } else {
        (-(x as i128)) as u128
    }
}

fn isqrt_u128(n: u128) -> (r: u128)
    ensures
        r as nat == isqrt(n as nat),
{
    let mut lo: u128 = 0;
    let mut hi: u128 = 18446744073709551616u128;
    while lo + 1 < hi
        invariant
            lo < hi,
            hi <= 18446744073709551616u128,
            (lo as int) * (lo as int) <= n as int,
            (n as int) < (hi as int) * (hi as int),
        decreases hi - lo,
    {
        let mid = lo + (hi - lo) / 2;
        assert(mid < 18446744073709551616u128);
        assert((mid as int) * (mid as int) < 340282366920938463463374607431768211456int) by (nonlinear_arith)
            requires
                0 <= mid as int,
                (mid as int) < 18446744073709551616int;
        if mid * mid <= n {
            lo = mid;
        } else {
            hi = mid;
        }
    }
    proof {
        isqrt_unique(n as nat, lo as nat);
    }
    lo
}

impl Fx {
    /// Wrap a raw unit count.
    pub fn from_raw(raw: i64) -> (r: Fx)
        ensures
            r.raw == raw,
    {
        Fx { raw }
    }

    /// The scalar zero.
    pub fn zero() -> (r: Fx)
        ensures
            r.raw == 0,
    {
        Fx { raw: 0 }
    }

    /// The scalar one.
    pub fn one() -> (r: Fx)
        ensures
            r.raw == SCALE,
    {
        Fx { raw: SCALE }
    }

    /// A whole number of units, clamped into range.
    pub fn from_units(n: i64) -> (r: Fx)
        ensures
            r == fx_whole(n as int),
            r.raw as int == clamped(n * SCALE),
    {
        proof {
            assert((n as int) * (SCALE as int) < 170141183460469231731687303715884105727int
                && -170141183460469231731687303715884105727int < (n as int) * (SCALE as int))
                by (nonlinear_arith)
                requires
                    -9223372036854775808 <= n as int <= 9223372036854775807,
                    SCALE == 4294967296;
        }
        Fx { raw: clamp_i128(n as i128 * SCALE as i128) }
    }

    pub fn add(self, rhs: Fx) -> (r: Fx)
        ensures
            r == fx_add(self, rhs),
    {
        Fx { raw: clamp_i128(self.raw as i128 + rhs.raw as i128) }
    }

    pub fn sub(self, rhs: Fx) -> (r: Fx)
        ensures
            r == fx_sub(self, rhs),
    {
        Fx { raw: clamp_i128(self.raw as i128 - rhs.raw as i128) }
    }

    pub fn neg(self) -> (r: Fx)
        ensures
            r == fx_neg(self),
    {
        Fx { raw: clamp_i128(-(self.raw as i128)) }
    }

    pub fn abs(self) -> (r: Fx)
        ensures
            r == fx_abs(self),
    {
        if self.raw >= 0 {
            self
        } else {
            self.neg()
        }
    }

    pub fn mul(self, rhs: Fx) -> (r: Fx)
        ensures
            r == fx_mul(self, rhs),
    {
        let negative = (self.raw < 0) != (rhs.raw < 0);
        let a = mag(self.raw);
        let b = mag(rhs.raw);
        assert(a as int * (b as int) <= 170141183460469231731687303715884105727int)
            by (nonlinear_arith)
            requires
                0 <= a as int,
                (a as int) <= 9223372036854775808int,
                0 <= b as int,
                (b as int) <= 9223372036854775808int;
        let q = (a * b + HALF_SCALE as u128) / (SCALE as u128);
        let m = clamp_mag(q);
        if negative {
            Fx { raw: -m }
        } else {
            Fx { raw: m }
        }
    }

    pub fn div(self, rhs: Fx) -> (r: Fx)
        ensures
            r == fx_div(self, rhs),
    {
        if rhs.raw == 0 {
            return Fx { raw: 0 };
        }
        let negative = (self.raw < 0) != (rhs.raw < 0);
        let a = mag(self.raw);
        let b = mag(rhs.raw);
        assert((a as int) * 4294967296int <= 39614081257132168796771975168int) by (nonlinear_arith)
            requires
                0 <= a as int,
                (a as int) <= 9223372036854775808int,
        ;
        let q = (a * 4294967296u128 + b / 2) / b;
        let m = clamp_mag(q);
        if negative {
            Fx { raw: -m }
        } else {
            Fx { raw: m }
        }
    }

    pub fn sqrt(self) -> (r: Fx)
        ensures
            r == fx_sqrt(self),
    {
        if self.raw <= 0 {
            return Fx { raw: 0 };
        }
        let n = (self.raw as u128) * (SCALE as u128);
        let r = isqrt_u128(n);
        proof {
            isqrt_bounds(n as nat);
            assert(isqrt(n as nat) < 281474976710656nat) by (nonlinear_arith)
                requires
                    isqrt(n as nat) * isqrt(n as nat) <= n as nat,
                    (n as nat) < 79228162514264337593543950336nat;
        }
        Fx { raw: r as i64 }
    }

    /// Strictly-less comparison on the underlying raw values.
    pub fn lt(self, rhs: Fx) -> (r: bool)
        ensures
            r == (self.raw < rhs.raw),
    {
        self.raw < rhs.raw
    }

    /// Approximate equality: the two values differ by less than 1e-5.
    pub fn approx_eq(self, rhs: Fx) -> (r: bool)
        ensures
            r == fx_near(self, rhs),
    {
        let d = self.raw as i128 - rhs.raw as i128;
        let d = if d < 0 {
            -d
        } else {
            d
        };
        d < EPSILON_RAW as i128
    }
}

impl PartialEq for Fx {
    /// Equality is epsilon-tolerant, as everywhere in the renderer.
    fn eq(&self, other: &Self) -> (r: bool) {
        self.approx_eq(*other)
    }
}

impl vstd::std_specs::cmp::PartialEqSpecImpl for Fx {
    open spec fn obeys_eq_spec() -> bool {
        true
    }

    open spec fn eq_spec(&self, other: &Fx) -> bool {
        abs_int(self.raw as int - other.raw as int) < EPSILON_RAW
    }
}


/// Raw value of pi.
pub const PI_RAW: i64 = 13493037705;

/// Raw value of two pi.
pub const TWO_PI_RAW: i64 = 26986075409;

/// Raw value of pi over two.
pub const HALF_PI_RAW: i64 = 6746518852;

/// An angle folded into `[0, 2*pi)`.
pub open spec fn wrap_two_pi(a: int) -> int {
    if a >= 0 {
        a % (TWO_PI_RAW as int)
    } else {
        let k = (-a) % (TWO_PI_RAW as int);
        if k == 0 {
            0
        } else {
            TWO_PI_RAW - k
        }
    }
}

/// Odd Taylor polynomial for the sine, adequate on `[0, pi / 2]`.
pub open spec fn sin_poly(x: Fx) -> Fx {
    let x2 = fx_mul(x, x);
    let x3 = fx_mul(x2, x);
    let x5 = fx_mul(x3, x2);
    let x7 = fx_mul(x5, x2);
    let x9 = fx_mul(x7, x2);
    let x11 = fx_mul(x9, x2);
    fx_add(
        fx_sub(
            fx_add(
                fx_sub(x, fx_div(x3, fx_whole(6))),
                fx_div(x5, fx_whole(120)),
            ),
            fx_div(x7, fx_whole(5040)),
        ),
        fx_sub(fx_div(x9, fx_whole(362880)), fx_div(x11, fx_whole(39916800))),
    )
}

/// Sine on `[0, pi]`, folded onto the first quadrant.
pub open spec fn sin_fold(t: int) -> Fx {
    if t > HALF_PI_RAW {
        sin_poly(fx(PI_RAW - t))
    } else {
        sin_poly(fx(t))
    }
}

/// Sine of an arbitrary angle: the period is wrapped away, the sign taken
/// out, and the Taylor polynomial evaluated on the first quadrant.
pub open spec fn sin_spec(a: Fx) -> Fx {
    let w = wrap_two_pi(a.raw as int);
    let t = if w > PI_RAW {
        w - TWO_PI_RAW
    } else {
        w
    };
    if t < 0 {
        fx_neg(sin_fold(-t))
    } else {
        sin_fold(t)
    }
}

/// Cosine as the sine shifted by a quarter turn.
pub open spec fn cos_spec(a: Fx) -> Fx {
    sin_spec(fx_add(a, fx(HALF_PI_RAW as int)))
}

/// Tangent as the quotient of sine and cosine.
pub open spec fn tan_spec(a: Fx) -> Fx {
    fx_div(sin_spec(a), cos_spec(a))
}

fn wrap_two_pi_exec(a: i64) -> (r: i64)
    ensures
        r as int == wrap_two_pi(a as int),
        0 <= r < TWO_PI_RAW,
{
    if a >= 0 {
        a % TWO_PI_RAW
    } else {
        let k = ((-(a as i128)) % (TWO_PI_RAW as i128)) as i64;
        if k == 0 {
            0
        } else {
            TWO_PI_RAW - k
        }
    }
}

fn sin_poly_exec(x: Fx) -> (r: Fx)
    ensures
        r == sin_poly(x),
{
    let x2 = x.mul(x);
    let x3 = x2.mul(x);
    let x5 = x3.mul(x2);
    let x7 = x5.mul(x2);
    let x9 = x7.mul(x2);
    let x11 = x9.mul(x2);
    x.sub(x3.div(Fx::from_units(6))).add(x5.div(Fx::from_units(120))).sub(
        x7.div(Fx::from_units(5040)),
    ).add(x9.div(Fx::from_units(362880)).sub(x11.div(Fx::from_units(39916800))))
}

fn sin_fold_exec(t: i64) -> (r: Fx)
    requires
        0 <= t <= PI_RAW,
    ensures
        r == sin_fold(t as int),
{
    if t > HALF_PI_RAW {
        sin_poly_exec(Fx { raw: PI_RAW - t })
    } else {
        sin_poly_exec(Fx { raw: t })
    }
}

impl Fx {
    /// The sine of the value taken as an angle in radians. The result is
    /// within about 1e-7 of the exact sine for angles up to a few turns.
    pub fn sin(self) -> (r: Fx)
        ensures
            r == sin_spec(self),
    {
        let w = wrap_two_pi_exec(self.raw);
        let t = if w > PI_RAW {
            w - TWO_PI_RAW
        } else {
            w
        };
        if t < 0 {
            sin_fold_exec(-t).neg()
        } else {
            sin_fold_exec(t)
        }
    }

    /// The cosine of the value taken as an angle in radians.
    pub fn cos(self) -> (r: Fx)
        ensures
            r == cos_spec(self),
    {
        self.add(Fx { raw: HALF_PI_RAW }).sin()
    }

    /// The tangent of the value taken as an angle in radians.
    pub fn tan(self) -> (r: Fx)
        ensures
            r == tan_spec(self),
    {
        self.sin().div(self.cos())
    }
}


/// The whole number of units below the value: floor division of the raw
/// value by `SCALE`.
pub open spec fn floor_units_spec(a: Fx) -> int {
    (a.raw as int) / (SCALE as int)
}

/// Repeated multiplication; the zeroth power is one.
pub open spec fn pow_fx(b: Fx, n: nat) -> Fx
    decreases n,
{
    if n == 0 {
        fx(SCALE as int)
    } else {
        fx_mul(pow_fx(b, (n - 1) as nat), b)
    }
}

/// A nonpositive value rounds to exponent zero; a positive one rounds to
/// the nearest whole number of units, capped at `u32::MAX`.
pub open spec fn round_units_nonneg_spec(a: Fx) -> nat {
    if a.raw <= 0 {
        0
    } else {
        let q = (a.raw + HALF_SCALE) / (SCALE as int);
        if q > u32::MAX {
            u32::MAX as nat
        } else {
            q as nat
        }
    }
}

impl Fx {
    /// Floor of the value as a whole number of units.
    pub fn floor_units(self) -> (r: i64)
        ensures
            r as int == floor_units_spec(self),
    {
        match self.raw.checked_div_euclid(SCALE) {
            Some(q) => q,
            None => 0,
        }
    }

    /// The value raised to a whole-number power.
    pub fn powi(self, n: u32) -> (r: Fx)
        ensures
            r == pow_fx(self, n as nat),
    {
        let mut acc = Fx::one();
        let mut i: u32 = 0;
        while i < n
            invariant
                i <= n,
                acc == pow_fx(self, i as nat),
            decreases n - i,
        {
            acc = acc.mul(self);
            i = i + 1;
        }
        acc
    }

    /// The nearest whole number of units, for use as an exponent.
    pub fn round_units_nonneg(self) -> (r: u32)
        ensures
            r as nat == round_units_nonneg_spec(self),
    {
        if self.raw <= 0 {
            return 0;
        }
        let q = (self.raw as i128 + HALF_SCALE as i128) / (SCALE as i128);
        if q > u32::MAX as i128 {
            u32::MAX
        } else {
            q as u32
        }
    }
}

/// Euclidean parity of a whole number of units.
pub open spec fn units_even(u: int) -> bool {
    u % 2 == 0
}

/// Whether a whole number of units is even.
pub fn is_even_units(u: i64) -> (r: bool)
    ensures
        r == units_even(u as int),
{
    match u.checked_rem_euclid(2) {
        Some(m) => m == 0,
        None => false,
    }
}


/// Squaring a moderately sized scalar does not clamp, and the scaled
/// result differs from the exact square by at most half a unit.
pub proof fn lemma_square_err(x: int)
    requires
        abs_int(x) <= 70368744177664,
    ensures
        0 <= mul_raw(x, x),
        mul_raw(x, x) <= 1152921504606846976,
        abs_int(SCALE * mul_raw(x, x) - x * x) <= HALF_SCALE,
{
    let ax = abs_int(x);
    let n = ax * ax + HALF_SCALE;
    assert(0 <= ax * ax <= 4951760157141521099596496896int) by (nonlinear_arith)
        requires
            0 <= ax,
            ax <= 70368744177664int;
    lemma_fundamental_div_mod(n, SCALE as int);
    lemma_mod_bound(n, SCALE as int);
    let q = n / (SCALE as int);
    let r = n % (SCALE as int);
    assert(SCALE * q == ax * ax + HALF_SCALE - r);
    assert(0 <= q && q <= 1152921504606846976int) by (nonlinear_arith)
        requires
            SCALE * q == ax * ax + HALF_SCALE - r,
            0 <= r < SCALE,
            0 <= ax * ax <= 4951760157141521099596496896int,
            SCALE == 4294967296,
            HALF_SCALE == 2147483648;
    assert(x * x == ax * ax) by (nonlinear_arith)
        requires
            ax == abs_int(x),
            abs_int(x) == if x < 0 { -x } else { x };
    assert(unscale_round(ax * ax) == q);
    assert(mul_raw(x, x) == clamped(q));
    assert(clamped(q) == q);
}

/// Dividing by a scalar at least one does not clamp, and the quotient
/// times the divisor differs from the scaled dividend by at most the
/// divisor.
pub proof fn lemma_div_err(a: int, m: int)
    requires
        SCALE <= m,
        m <= 281474976710656,
        abs_int(a) <= 70368744177664,
    ensures
        abs_int(div_raw(a, m) * m - a * SCALE) <= m,
        abs_int(div_raw(a, m)) * m <= abs_int(a) * SCALE + m,
{
    let aa = abs_int(a);
    let n = aa * SCALE + m / 2;
    assert(0 <= aa * SCALE <= 302231454903657293676544int) by (nonlinear_arith)
        requires
            0 <= aa,
            aa <= 70368744177664int,
            SCALE == 4294967296;
    lemma_fundamental_div_mod(n, m);
    lemma_mod_bound(n, m);
    let q = n / m;
    let r = n % m;
    assert(m * q == aa * SCALE + m / 2 - r);
    assert(0 <= q && q * m <= aa * SCALE + m && abs_int(q * m - aa * SCALE) <= m) by (nonlinear_arith)
        requires
            m * q == aa * SCALE + m / 2 - r,
            0 <= r < m,
            0 <= aa * SCALE,
            SCALE <= m,
            0 <= m / 2 < m;
    assert(q <= 70368744177665int) by (nonlinear_arith)
        requires
            q * m <= aa * SCALE + m,
            aa <= 70368744177664int,
            SCALE <= m,
            0 <= q,
            0 < SCALE < m + 1,
            aa * SCALE <= 302231454903657293676544int;
    assert(clamped(q) == q);
    assert(clamped(-q) == -q);
    if a < 0 {
        assert(div_raw(a, m) == -q);
        assert(abs_int((-q) * m - a * SCALE) <= m) by (nonlinear_arith)
            requires
                abs_int(q * m - aa * SCALE) <= m,
                aa == -a,
                abs_int(q * m - aa * SCALE) == if q * m - aa * SCALE < 0 { -(q * m - aa * SCALE) } else { q * m - aa * SCALE },
                abs_int((-q) * m - a * SCALE) == if (-q) * m - a * SCALE < 0 { -((-q) * m - a * SCALE) } else { (-q) * m - a * SCALE };
        assert(abs_int(-q) * m <= aa * SCALE + m) by (nonlinear_arith)
            requires
                q * m <= aa * SCALE + m,
                0 <= q,
                abs_int(-q) == q;
        assert(abs_int(a) == aa);
    } else {
        assert(div_raw(a, m) == q);
        assert(abs_int(q) == q);
    }
}

} // verus!
