//! Laws relating the vector operators, stated over the specifications that
//! the operators' own postconditions use.
use vstd::prelude::*;
use vstd::std_specs::convert::FromSpec;
use vstd::std_specs::ops::{AddSpec, DivSpec, MulSpec, SubSpec};
use crate::vector::{abs, div_toward_zero, UVec2, Vec2, Vec3};

verus! {

/// Adding `b` to an unsigned vector and then subtracting `b` again gives
/// back the vector, whenever the sum does not overflow.
pub proof fn lemma_uvec2_add_then_sub(a: UVec2, b: UVec2)
    requires
        a.add_req(b),
    ensures
        a.add_spec(b).sub_req(b),
        a.add_spec(b).sub_spec(b) == a,
{
}

/// Scaling an unsigned vector by a non-zero scalar and then dividing by the
/// same scalar gives back the vector, whenever the product does not
/// overflow.
pub proof fn lemma_uvec2_mul_then_div(v: UVec2, s: u16)
    requires
        s != 0,
        v.mul_req(s),
    ensures
        v.mul_spec(s).div_req(s),
        v.mul_spec(s).div_spec(s) == v,
{
    vstd::arithmetic::div_mod::lemma_div_by_multiple(v.x as int, s as int);
    vstd::arithmetic::div_mod::lemma_div_by_multiple(v.y as int, s as int);
}

/// Dividing a multiple of `s` by `s`, rounding toward zero, is exact.
proof fn lemma_div_toward_zero_of_multiple(x: int, s: int)
    requires
        s != 0,
    ensures
        div_toward_zero(x * s, s) == x,
{
    assert(abs(x * s) == abs(x) * abs(s)) by (nonlinear_arith);
    vstd::arithmetic::div_mod::lemma_div_by_multiple(abs(x), abs(s));
    if x != 0 {
        assert((x * s < 0) == ((x < 0) != (s < 0))) by (nonlinear_arith)
            requires
                x != 0,
                s != 0,
        ;
    }
}

/// Scaling a signed vector by a non-zero scalar and then dividing by the
/// same scalar gives back the vector, whenever the product does not
/// overflow.
pub proof fn lemma_vec2_mul_then_div(v: Vec2, s: i16)
    requires
        s != 0,
        v.mul_req(s),
    ensures
        v.mul_spec(s).div_req(s),
        v.mul_spec(s).div_spec(s) == v,
{
    lemma_div_toward_zero_of_multiple(v.x as int, s as int);
    lemma_div_toward_zero_of_multiple(v.y as int, s as int);
}

/// Scaling a 3D vector by a non-zero scalar and then dividing by the same
/// scalar gives back the vector, whenever the product does not overflow.
pub proof fn lemma_vec3_mul_then_div(v: Vec3, s: i16)
    requires
        s != 0,
        v.mul_req(s),
    ensures
        v.mul_spec(s).div_req(s),
        v.mul_spec(s).div_spec(s) == v,
{
    lemma_div_toward_zero_of_multiple(v.x as int, s as int);
    lemma_div_toward_zero_of_multiple(v.y as int, s as int);
    lemma_div_toward_zero_of_multiple(v.z as int, s as int);
}

/// A vector built from a pair holds the pair's first value as `x` and its
/// second as `y`.
pub proof fn lemma_uvec2_from_pair(x: u16, y: u16)
    ensures
        UVec2::from_spec((x, y)).x == x,
        UVec2::from_spec((x, y)).y == y,
{
}

/// A signed vector built from a pair holds the pair's first value as `x`
/// and its second as `y`.
pub proof fn lemma_vec2_from_pair(x: i16, y: i16)
    ensures
        Vec2::from_spec((x, y)).x == x,
        Vec2::from_spec((x, y)).y == y,
{
}

/// A 3D vector built from a triple holds its values in order as `x`, `y`
/// and `z`.
pub proof fn lemma_vec3_from_triple(x: i16, y: i16, z: i16)
    ensures
        Vec3::from_spec((x, y, z)).x == x,
        Vec3::from_spec((x, y, z)).y == y,
        Vec3::from_spec((x, y, z)).z == z,
{
}

} // verus!
