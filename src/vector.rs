use vstd::prelude::*;

verus! {

/// Integer division rounded toward zero, as Rust's `/` does on signed
/// integers: the quotient of the magnitudes, negated when the signs differ.
pub open spec fn div_toward_zero(a: int, b: int) -> int
    recommends
        b != 0,
{
    let q = abs(a) / abs(b);
    if (a < 0) == (b < 0) {
        q
    } else {
        -q
    }
}

/// The absolute value of `a`.
pub open spec fn abs(a: int) -> int {
    if a < 0 {
        -a
    } else {
        a
    }
}

/// Whether `v` is a value of `i16`.
pub open spec fn fits_i16(v: int) -> bool {
    i16::MIN <= v <= i16::MAX
}

/// Whether `v` is a value of `u16`.
pub open spec fn fits_u16(v: int) -> bool {
    0 <= v <= u16::MAX
}

/// The quotient of two `i16` values, with the divisor non-zero and the
/// quotient representable, rounded toward zero.
fn div_i16(a: i16, b: i16) -> (r: i16)
    requires
        b != 0,
        fits_i16(div_toward_zero(a as int, b as int)),
    ensures
        r == div_toward_zero(a as int, b as int),
{
    proof {
        lemma_div_toward_zero_by_euclid(a as int, b as int);
        if a == i16::MIN && b == -1 {
            assert(abs(a as int) / abs(b as int) == 32768);
        }
    }
    a / b
}

/// Rounding toward zero agrees with the Euclidean quotient of a non-negative
/// dividend, and with its negation for a negative one.
proof fn lemma_div_toward_zero_by_euclid(a: int, b: int)
    requires
        b != 0,
    ensures
        a >= 0 ==> div_toward_zero(a, b) == a / b,
        a < 0 ==> div_toward_zero(a, b) == -((-a) / b),
{
    if b < 0 {
        lemma_euclid_div_neg_divisor(abs(a), b);
    }
}

/// For a non-negative dividend, dividing by a negative divisor negates the
/// quotient by its magnitude.
proof fn lemma_euclid_div_neg_divisor(a: int, b: int)
    requires
        a >= 0,
        b < 0,
    ensures
        a / b == -(a / (-b)),
{
    let q = a / (-b);
    let r = a % (-b);
    assert(a == (-b) * q + r && 0 <= r < -b) by {
        vstd::arithmetic::div_mod::lemma_fundamental_div_mod(a, -b);
    }
    assert(a / b == -q) by (nonlinear_arith)
        requires
            a == (-b) * q + r,
            0 <= r < -b,
            b < 0,
    ;
}

// ---------------------------------------------------------------------------
// UVec2
// ---------------------------------------------------------------------------

/// A 2D vector with unsigned coordinates, for positions and sizes on a grid
/// where negative values do not occur.
#[derive(Debug, Clone, Copy, PartialEq, Eq, Structural, Hash)]
pub struct UVec2 {
    pub x: u16,
    pub y: u16,
}

impl UVec2 {
    /// A vector with the given coordinates.
    #[must_use]
    pub fn new(x: u16, y: u16) -> (r: Self)
        ensures
            r.x == x,
            r.y == y,
    {
        UVec2 { x, y }
    }
}

impl vstd::std_specs::ops::AddSpecImpl for UVec2 {
    open spec fn obeys_add_spec() -> bool {
        true
    }

    /// Neither coordinate of the sum exceeds `u16::MAX`.
    open spec fn add_req(self, rhs: UVec2) -> bool {
        fits_u16(self.x + rhs.x) && fits_u16(self.y + rhs.y)
    }

    open spec fn add_spec(self, rhs: UVec2) -> UVec2 {
        UVec2 { x: (self.x + rhs.x) as u16, y: (self.y + rhs.y) as u16 }
    }
}

impl std::ops::Add for UVec2 {
    type Output = UVec2;

    /// Field-wise sum.
    fn add(self, rhs: UVec2) -> (r: UVec2)
        ensures
            r.x == self.x + rhs.x,
            r.y == self.y + rhs.y,
    {
        UVec2 { x: self.x + rhs.x, y: self.y + rhs.y }
    }
}

impl vstd::std_specs::ops::SubSpecImpl for UVec2 {
    open spec fn obeys_sub_spec() -> bool {
        true
    }

    /// No coordinate of the difference is negative: unsigned subtraction
    /// neither wraps nor saturates.
    open spec fn sub_req(self, rhs: UVec2) -> bool {
        fits_u16(self.x - rhs.x) && fits_u16(self.y - rhs.y)
    }

    open spec fn sub_spec(self, rhs: UVec2) -> UVec2 {
        UVec2 { x: (self.x - rhs.x) as u16, y: (self.y - rhs.y) as u16 }
    }
}

impl std::ops::Sub for UVec2 {
    type Output = UVec2;

    /// Field-wise difference.
    fn sub(self, rhs: UVec2) -> (r: UVec2)
        ensures
            r.x == self.x - rhs.x,
            r.y == self.y - rhs.y,
    {
        UVec2 { x: self.x - rhs.x, y: self.y - rhs.y }
    }
}

impl vstd::std_specs::ops::MulSpecImpl<u16> for UVec2 {
    open spec fn obeys_mul_spec() -> bool {
        true
    }

    /// Neither scaled coordinate exceeds `u16::MAX`.
    open spec fn mul_req(self, rhs: u16) -> bool {
        fits_u16(self.x * rhs) && fits_u16(self.y * rhs)
    }

    open spec fn mul_spec(self, rhs: u16) -> UVec2 {
        UVec2 { x: (self.x * rhs) as u16, y: (self.y * rhs) as u16 }
    }
}

impl std::ops::Mul<u16> for UVec2 {
    type Output = UVec2;

    /// Each coordinate multiplied by the scalar.
    fn mul(self, rhs: u16) -> (r: UVec2)
        ensures
            r.x == self.x * rhs,
            r.y == self.y * rhs,
    {
        UVec2 { x: self.x * rhs, y: self.y * rhs }
    }
}

impl vstd::std_specs::ops::DivSpecImpl<u16> for UVec2 {
    open spec fn obeys_div_spec() -> bool {
        true
    }

    /// The divisor is not zero.
    open spec fn div_req(self, rhs: u16) -> bool {
        rhs != 0
    }

    open spec fn div_spec(self, rhs: u16) -> UVec2 {
        UVec2 { x: self.x / rhs, y: self.y / rhs }
    }
}

impl std::ops::Div<u16> for UVec2 {
    type Output = UVec2;

    /// Each coordinate divided by the scalar, remainder discarded.
    fn div(self, rhs: u16) -> (r: UVec2)
        ensures
            r.x == self.x / rhs,
            r.y == self.y / rhs,
    {
        UVec2 { x: self.x / rhs, y: self.y / rhs }
    }
}

impl vstd::std_specs::convert::FromSpecImpl<(u16, u16)> for UVec2 {
    open spec fn obeys_from_spec() -> bool {
        true
    }

    open spec fn from_spec(v: (u16, u16)) -> UVec2 {
        UVec2 { x: v.0, y: v.1 }
    }
}

impl std::convert::From<(u16, u16)> for UVec2 {
    /// The vector `(x, y)` from the pair `(x, y)`.
    fn from(value: (u16, u16)) -> (r: UVec2)
        ensures
            r.x == value.0,
            r.y == value.1,
    {
        UVec2 { x: value.0, y: value.1 }
    }
}

// ---------------------------------------------------------------------------
// Vec2
// ---------------------------------------------------------------------------

/// A 2D vector with signed coordinates, for positions that may be negative.
#[derive(Debug, Clone, Copy, PartialEq, Eq, Structural, Hash)]
pub struct Vec2 {
    pub x: i16,
    pub y: i16,
}

impl Vec2 {
    /// A vector with the given coordinates.
    #[must_use]
    pub fn new(x: i16, y: i16) -> (r: Self)
        ensures
            r.x == x,
            r.y == y,
    {
        Vec2 { x, y }
    }
}

impl vstd::std_specs::ops::AddSpecImpl for Vec2 {
    open spec fn obeys_add_spec() -> bool {
        true
    }

    /// Both coordinates of the sum are values of `i16`.
    open spec fn add_req(self, rhs: Vec2) -> bool {
        fits_i16(self.x + rhs.x) && fits_i16(self.y + rhs.y)
    }

    open spec fn add_spec(self, rhs: Vec2) -> Vec2 {
        Vec2 { x: (self.x + rhs.x) as i16, y: (self.y + rhs.y) as i16 }
    }
}

impl std::ops::Add for Vec2 {
    type Output = Vec2;

    /// Field-wise sum.
    fn add(self, rhs: Vec2) -> (r: Vec2)
        ensures
            r.x == self.x + rhs.x,
            r.y == self.y + rhs.y,
    {
        Vec2 { x: self.x + rhs.x, y: self.y + rhs.y }
    }
}

impl vstd::std_specs::ops::SubSpecImpl for Vec2 {
    open spec fn obeys_sub_spec() -> bool {
        true
    }

    /// Both coordinates of the difference are values of `i16`.
    open spec fn sub_req(self, rhs: Vec2) -> bool {
        fits_i16(self.x - rhs.x) && fits_i16(self.y - rhs.y)
    }

    open spec fn sub_spec(self, rhs: Vec2) -> Vec2 {
        Vec2 { x: (self.x - rhs.x) as i16, y: (self.y - rhs.y) as i16 }
    }
}

impl std::ops::Sub for Vec2 {
    type Output = Vec2;

    /// Field-wise difference.
    fn sub(self, rhs: Vec2) -> (r: Vec2)
        ensures
            r.x == self.x - rhs.x,
            r.y == self.y - rhs.y,
    {
        Vec2 { x: self.x - rhs.x, y: self.y - rhs.y }
    }
}

impl vstd::std_specs::ops::MulSpecImpl<i16> for Vec2 {
    open spec fn obeys_mul_spec() -> bool {
        true
    }

    /// Both scaled coordinates are values of `i16`.
    open spec fn mul_req(self, rhs: i16) -> bool {
        fits_i16(self.x * rhs) && fits_i16(self.y * rhs)
    }

    open spec fn mul_spec(self, rhs: i16) -> Vec2 {
        Vec2 { x: (self.x * rhs) as i16, y: (self.y * rhs) as i16 }
    }
}

impl std::ops::Mul<i16> for Vec2 {
    type Output = Vec2;

    /// Each coordinate multiplied by the scalar.
    fn mul(self, rhs: i16) -> (r: Vec2)
        ensures
            r.x == self.x * rhs,
            r.y == self.y * rhs,
    {
        Vec2 { x: self.x * rhs, y: self.y * rhs }
    }
}

impl vstd::std_specs::ops::DivSpecImpl<i16> for Vec2 {
    open spec fn obeys_div_spec() -> bool {
        true
    }

    /// The divisor is not zero and both quotients are values of `i16`
    /// (which leaves out only `i16::MIN / -1`).
    open spec fn div_req(self, rhs: i16) -> bool {
        rhs != 0 && fits_i16(div_toward_zero(self.x as int, rhs as int)) && fits_i16(
            div_toward_zero(self.y as int, rhs as int),
        )
    }

    open spec fn div_spec(self, rhs: i16) -> Vec2 {
        Vec2 {
            x: div_toward_zero(self.x as int, rhs as int) as i16,
            y: div_toward_zero(self.y as int, rhs as int) as i16,
        }
    }
}

impl std::ops::Div<i16> for Vec2 {
    type Output = Vec2;

    /// Each coordinate divided by the scalar, rounded toward zero.
    fn div(self, rhs: i16) -> (r: Vec2)
        ensures
            r.x == div_toward_zero(self.x as int, rhs as int),
            r.y == div_toward_zero(self.y as int, rhs as int),
    {
        Vec2 { x: div_i16(self.x, rhs), y: div_i16(self.y, rhs) }
    }
}

impl vstd::std_specs::convert::FromSpecImpl<(i16, i16)> for Vec2 {
    open spec fn obeys_from_spec() -> bool {
        true
    }

    open spec fn from_spec(v: (i16, i16)) -> Vec2 {
        Vec2 { x: v.0, y: v.1 }
    }
}

impl std::convert::From<(i16, i16)> for Vec2 {
    /// The vector `(x, y)` from the pair `(x, y)`.
    fn from(value: (i16, i16)) -> (r: Vec2)
        ensures
            r.x == value.0,
            r.y == value.1,
    {
        Vec2 { x: value.0, y: value.1 }
    }
}

// ---------------------------------------------------------------------------
// Vec3
// ---------------------------------------------------------------------------

/// A 3D vector with signed coordinates; `z` is the depth.
#[derive(Debug, Clone, Copy, PartialEq, Eq, Structural, Hash)]
pub struct Vec3 {
    pub x: i16,
    pub y: i16,
    pub z: i16,
}

impl Vec3 {
    /// A vector with the given coordinates.
    #[must_use]
    pub fn new(x: i16, y: i16, z: i16) -> (r: Self)
        ensures
            r.x == x,
            r.y == y,
            r.z == z,
    {
        Vec3 { x, y, z }
    }
}

impl vstd::std_specs::convert::FromSpecImpl<Vec2> for Vec3 {
    open spec fn obeys_from_spec() -> bool {
        true
    }

    open spec fn from_spec(v: Vec2) -> Vec3 {
        Vec3 { x: v.x, y: v.y, z: 0 }
    }
}

impl std::convert::From<Vec2> for Vec3 {
    /// The 2D vector lifted into 3D at depth zero.
    fn from(value: Vec2) -> (r: Vec3)
        ensures
            r.x == value.x,
            r.y == value.y,
            r.z == 0,
    {
        Vec3 { x: value.x, y: value.y, z: 0 }
    }
}

impl vstd::std_specs::ops::AddSpecImpl for Vec3 {
    open spec fn obeys_add_spec() -> bool {
        true
    }

    /// All coordinates of the sum are values of `i16`.
    open spec fn add_req(self, rhs: Vec3) -> bool {
        fits_i16(self.x + rhs.x) && fits_i16(self.y + rhs.y) && fits_i16(self.z + rhs.z)
    }

    open spec fn add_spec(self, rhs: Vec3) -> Vec3 {
        Vec3 {
            x: (self.x + rhs.x) as i16,
            y: (self.y + rhs.y) as i16,
            z: (self.z + rhs.z) as i16,
        }
    }
}

impl std::ops::Add for Vec3 {
    type Output = Vec3;

    /// Field-wise sum.
    fn add(self, rhs: Vec3) -> (r: Vec3)
        ensures
            r.x == self.x + rhs.x,
            r.y == self.y + rhs.y,
            r.z == self.z + rhs.z,
    {
        Vec3 { x: self.x + rhs.x, y: self.y + rhs.y, z: self.z + rhs.z }
    }
}

impl vstd::std_specs::ops::SubSpecImpl for Vec3 {
    open spec fn obeys_sub_spec() -> bool {
        true
    }

    /// All coordinates of the difference are values of `i16`.
    open spec fn sub_req(self, rhs: Vec3) -> bool {
        fits_i16(self.x - rhs.x) && fits_i16(self.y - rhs.y) && fits_i16(self.z - rhs.z)
    }

    open spec fn sub_spec(self, rhs: Vec3) -> Vec3 {
        Vec3 {
            x: (self.x - rhs.x) as i16,
            y: (self.y - rhs.y) as i16,
            z: (self.z - rhs.z) as i16,
        }
    }
}

impl std::ops::Sub for Vec3 {
    type Output = Vec3;

    /// Field-wise difference.
    fn sub(self, rhs: Vec3) -> (r: Vec3)
        ensures
            r.x == self.x - rhs.x,
            r.y == self.y - rhs.y,
            r.z == self.z - rhs.z,
    {
        Vec3 { x: self.x - rhs.x, y: self.y - rhs.y, z: self.z - rhs.z }
    }
}

impl vstd::std_specs::ops::MulSpecImpl<i16> for Vec3 {
    open spec fn obeys_mul_spec() -> bool {
        true
    }

    /// All scaled coordinates are values of `i16`.
    open spec fn mul_req(self, rhs: i16) -> bool {
        fits_i16(self.x * rhs) && fits_i16(self.y * rhs) && fits_i16(self.z * rhs)
    }

    open spec fn mul_spec(self, rhs: i16) -> Vec3 {
        Vec3 { x: (self.x * rhs) as i16, y: (self.y * rhs) as i16, z: (self.z * rhs) as i16 }
    }
}

impl std::ops::Mul<i16> for Vec3 {
    type Output = Vec3;

    /// Each coordinate multiplied by the scalar.
    fn mul(self, rhs: i16) -> (r: Vec3)
        ensures
            r.x == self.x * rhs,
            r.y == self.y * rhs,
            r.z == self.z * rhs,
    {
        Vec3 { x: self.x * rhs, y: self.y * rhs, z: self.z * rhs }
    }
}

impl vstd::std_specs::ops::DivSpecImpl<i16> for Vec3 {
    open spec fn obeys_div_spec() -> bool {
        true
    }

    /// The divisor is not zero and all quotients are values of `i16`
    /// (which leaves out only `i16::MIN / -1`).
    open spec fn div_req(self, rhs: i16) -> bool {
        &&& rhs != 0
        &&& fits_i16(div_toward_zero(self.x as int, rhs as int))
        &&& fits_i16(div_toward_zero(self.y as int, rhs as int))
        &&& fits_i16(div_toward_zero(self.z as int, rhs as int))
    }

    open spec fn div_spec(self, rhs: i16) -> Vec3 {
        Vec3 {
            x: div_toward_zero(self.x as int, rhs as int) as i16,
            y: div_toward_zero(self.y as int, rhs as int) as i16,
            z: div_toward_zero(self.z as int, rhs as int) as i16,
        }
    }
}

impl std::ops::Div<i16> for Vec3 {
    type Output = Vec3;

    /// Each coordinate divided by the scalar, rounded toward zero.
    fn div(self, rhs: i16) -> (r: Vec3)
        ensures
            r.x == div_toward_zero(self.x as int, rhs as int),
            r.y == div_toward_zero(self.y as int, rhs as int),
            r.z == div_toward_zero(self.z as int, rhs as int),
    {
        Vec3 { x: div_i16(self.x, rhs), y: div_i16(self.y, rhs), z: div_i16(self.z, rhs) }
    }
}

impl vstd::std_specs::convert::FromSpecImpl<(i16, i16, i16)> for Vec3 {
    open spec fn obeys_from_spec() -> bool {
        true
    }

    open spec fn from_spec(v: (i16, i16, i16)) -> Vec3 {
        Vec3 { x: v.0, y: v.1, z: v.2 }
    }
}

impl std::convert::From<(i16, i16, i16)> for Vec3 {
    /// The vector `(x, y, z)` from the triple `(x, y, z)`.
    fn from(value: (i16, i16, i16)) -> (r: Vec3)
        ensures
            r.x == value.0,
            r.y == value.1,
            r.z == value.2,
    {
        Vec3 { x: value.0, y: value.1, z: value.2 }
    }
}

} // verus!
