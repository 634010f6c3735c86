//! Fixed-point units shared by every module.
use vstd::prelude::*;

verus! {

/// One whole in ratio units: a ratio `r` stands for `r / RATIO_ONE`.
pub const RATIO_ONE: i64 = 1_000_000;

/// Identifier of an element of the host's scene.
#[derive(Clone, Copy, Debug, PartialEq, Eq, Structural, Hash)]
pub struct Entity(pub u64);

impl Entity {
    /// The identifier that a reference holds before it is bound to an element.
    pub fn placeholder() -> (e: Entity)
        ensures
            e == Entity(u64::MAX),
    {
        Entity(u64::MAX)
    }
}

/// A point or an extent in layout units.
#[derive(Clone, Copy, Debug, PartialEq, Eq, Structural, Hash)]
pub struct Vec2 {
    pub x: i64,
    pub y: i64,
}

/// The mathematical integer `v` brought into the range of `i64`.
pub open spec fn clamp_i64(v: int) -> int {
    if v < i64::MIN {
        i64::MIN as int
    } else if v > i64::MAX {
        i64::MAX as int
    } else {
        v
    }
}

/// Sum of two lengths, held at the ends of the `i64` range.
pub fn sat_add(a: i64, b: i64) -> (r: i64)
    ensures
        r == clamp_i64(a + b),
{
    let wide: i128 = a as i128 + b as i128;
    narrow(wide)
}

/// Difference of two lengths, held at the ends of the `i64` range.
pub fn sat_sub(a: i64, b: i64) -> (r: i64)
    ensures
        r == clamp_i64(a - b),
{
    let wide: i128 = a as i128 - b as i128;
    narrow(wide)
}

/// The negation of a length, held at the upper end of the `i64` range.
pub fn sat_neg(a: i64) -> (r: i64)
    ensures
        r == clamp_i64(-a),
{
    let wide: i128 = -(a as i128);
    narrow(wide)
}

/// A wide intermediate result brought back into `i64`.
pub fn narrow(wide: i128) -> (r: i64)
    ensures
        r == clamp_i64(wide as int),
{
    if wide < i64::MIN as i128 {
        i64::MIN
    } else if wide > i64::MAX as i128 {
        i64::MAX
    } else {
        wide as i64
    }
}

/// The quotient of `n` by a positive `d`, rounded down.
pub fn floor_div(n: i128, d: i128) -> (q: i128)
    requires
        d > 0,
        n > i128::MIN,
    ensures
        q == n / d,
{
    if n >= 0 {
        n / d
    } else {
        let m: i128 = -n;
        let up: i128 = m / d;
        let rest: i128 = m % d;
        proof {
            lemma_floor_of_negative(m as int, d as int);
        }
        if rest == 0 {
            -up
        } else {
            -up - 1
        }
    }
}

/// Euclidean quotient of a negative number by a positive one, from the
/// quotient and remainder of its magnitude.
pub proof fn lemma_floor_of_negative(m: int, d: int)
    requires
        m >= 0,
        d > 0,
    ensures
        (-m) / d == if m % d == 0 {
            -(m / d)
        } else {
            -(m / d) - 1
        },
{
    let q = m / d;
    let r = m % d;
    vstd::arithmetic::div_mod::lemma_fundamental_div_mod(m, d);
    if r == 0 {
        assert(-m == d * (-q) + 0) by (nonlinear_arith)
            requires
                m == d * q + r,
                r == 0,
        ;
        vstd::arithmetic::div_mod::lemma_fundamental_div_mod_converse(-m, d, -q, 0);
    } else {
        assert(-m == d * (-q - 1) + (d - r)) by (nonlinear_arith)
            requires
                m == d * q + r,
        ;
        vstd::arithmetic::div_mod::lemma_fundamental_div_mod_converse(-m, d, -q - 1, d - r);
    }
}

/// The part `t / RATIO_ONE` of `value`, rounded down.
pub open spec fn scaled(value: int, t: int) -> int {
    (value * t) / (RATIO_ONE as int)
}

/// The point at ratio `t` on the way from `from` to `to`, held at the ends of
/// the `i64` range. Ratio zero is `from`, one whole is `to`.
pub open spec fn lerp_int(from: i64, to: i64, t: i64) -> int {
    clamp_i64(from + scaled(to - from, t as int))
}

/// Linear interpolation between two lengths at ratio `t`, in millionths.
pub fn lerp_i64(from: i64, to: i64, t: i64) -> (r: i64)
    ensures
        r == lerp_int(from, to, t),
        t == 0 ==> r == from,
        t == RATIO_ONE ==> r == to,
{
    let delta: i128 = to as i128 - from as i128;
    assert(-0x1_0000_0000_0000_0000 < delta < 0x1_0000_0000_0000_0000);
    assert(-0x8000_0000_0000_0000 <= t < 0x8000_0000_0000_0000);
    assert(-0x8000_0000_0000_0000_0000_0000_0000_0000 < delta * t
        < 0x8000_0000_0000_0000_0000_0000_0000_0000) by (nonlinear_arith)
        requires
            -0x1_0000_0000_0000_0000 < delta < 0x1_0000_0000_0000_0000,
            -0x8000_0000_0000_0000 <= t < 0x8000_0000_0000_0000,
    ;
    let product: i128 = delta * (t as i128);
    let part: i128 = floor_div(product, 1_000_000i128);
    assert(t == 0 ==> product == 0) by (nonlinear_arith)
        requires
            product == delta * t,
    ;
    assert(t == RATIO_ONE ==> part == delta) by (nonlinear_arith)
        requires
            product == delta * t,
            part == product / 1_000_000,
            RATIO_ONE == 1_000_000,
    ;
    narrow(from as i128 + part)
}

impl Vec2 {
    pub open spec fn zero_spec() -> Vec2 {
        Vec2 { x: 0, y: 0 }
    }

    /// The origin, and the extent of nothing.
    pub fn zero() -> (v: Vec2)
        ensures
            v == Vec2::zero_spec(),
    {
        Vec2 { x: 0, y: 0 }
    }

    pub open spec fn is_zero(self) -> bool {
        self.x == 0 && self.y == 0
    }

    pub open spec fn add_spec(self, other: Vec2) -> Vec2 {
        Vec2 { x: clamp_i64(self.x + other.x) as i64, y: clamp_i64(self.y + other.y) as i64 }
    }

    pub open spec fn sub_spec(self, other: Vec2) -> Vec2 {
        Vec2 { x: clamp_i64(self.x - other.x) as i64, y: clamp_i64(self.y - other.y) as i64 }
    }

    /// Componentwise sum.
    pub fn plus(self, other: Vec2) -> (v: Vec2)
        ensures
            v == self.add_spec(other),
    {
        Vec2 { x: sat_add(self.x, other.x), y: sat_add(self.y, other.y) }
    }

    /// Componentwise difference.
    pub fn minus(self, other: Vec2) -> (v: Vec2)
        ensures
            v == self.sub_spec(other),
    {
        Vec2 { x: sat_sub(self.x, other.x), y: sat_sub(self.y, other.y) }
    }
}

} // verus!
