//! Projection of 3D input onto the touch plane.
//!
//! Samples are expressed in the plane's own coordinate frame: the plane spans
//! the `z = 0` surface, its normal is the `+z` axis, and depth counts along
//! the negative normal, so a sample pressed behind the front face has
//! positive depth.  A ray sample is intersected with the surface; a point
//! sample is taken as it stands.

use vstd::prelude::*;
use crate::fixed::{div_signed, div_trunc, div_signed_i128, div_trunc_i128, lemma_div_signed_bound, lemma_div_trunc_bound, lemma_mul_bound, COORD_LIMIT, SCALE};

verus! {

/// A ray whose direction's normal component has magnitude at most this is
/// treated as parallel to the plane (10^-4 in units of `SCALE`).
pub const PARALLEL_EPS: i64 = 100;

/// Magnitude bound on every component of a projected sample, implied by
/// `COORD_LIMIT` on the inputs.
pub const PROJ_LIMIT: i64 = 200_000_000_000_000;

/// A position or direction in plane-local fixed-point coordinates.
#[derive(Clone, Copy, Debug, PartialEq, Eq, Structural)]
pub struct Vec3Fx {
    pub x: i64,
    pub y: i64,
    pub z: i64,
}

/// One interaction source for one tick.
#[derive(Clone, Copy, Debug, PartialEq, Eq, Structural)]
pub enum InputSample {
    /// A cast ray: a pointer or controller aimed at the plane.
    Ray { origin: Vec3Fx, direction: Vec3Fx },
    /// A bare point: a fingertip or controller tip.
    Point { position: Vec3Fx },
}

/// A sample projected onto the plane: plane-local coordinates in meters of
/// `SCALE` units, and the depth behind the front face.
#[derive(Clone, Copy, Debug, PartialEq, Eq, Structural)]
pub struct Projection {
    pub x: i64,
    pub y: i64,
    pub depth: i64,
}

pub open spec fn vec3_in_bounds(v: Vec3Fx) -> bool {
    &&& -COORD_LIMIT <= v.x <= COORD_LIMIT
    &&& -COORD_LIMIT <= v.y <= COORD_LIMIT
    &&& -COORD_LIMIT <= v.z <= COORD_LIMIT
}

pub open spec fn sample_in_bounds(s: InputSample) -> bool {
    match s {
        InputSample::Ray { origin, direction } => vec3_in_bounds(origin) && vec3_in_bounds(direction),
        InputSample::Point { position } => vec3_in_bounds(position),
    }
}

/// What `project` computes, over unbounded integers.
///
/// For a ray, the denominator is the direction's component along the plane
/// normal; a magnitude of at most `PARALLEL_EPS` means the ray runs parallel
/// to the plane and hits nothing.  The parameter `t` places the intersection
/// `origin + direction * t` on the surface; a negative `t` puts it behind the
/// origin, which also hits nothing.  The intersection lies on the surface, so
/// its depth is zero.  A point sample projects to its own coordinates, at
/// depth `-z`: depth counts along the negative normal.
pub open spec fn spec_project(s: InputSample) -> Option<(int, int, int)> {
    match s {
        InputSample::Point { position } => Some(
            (position.x as int, position.y as int, -(position.z as int)),
        ),
        InputSample::Ray { origin, direction } => {
            let denom = direction.z as int;
            if -(PARALLEL_EPS as int) <= denom <= PARALLEL_EPS as int {
                None
            } else {
                let t = div_signed(-(origin.z as int) * (SCALE as int), denom);
                if t < 0 {
                    None
                } else {
                    Some(
                        (
                            origin.x + div_trunc(direction.x * t, SCALE as int),
                            origin.y + div_trunc(direction.y * t, SCALE as int),
                            0,
                        ),
                    )
                }
            }
        },
    }
}

/// Plane-local projection of one sample: `Some (x, y, depth)` when the
/// sample meets the surface, `None` when it misses.
pub fn project(s: &InputSample) -> (r: Option<Projection>)
    requires
        sample_in_bounds(*s),
    ensures
        match r {
            Some(p) => {
                &&& spec_project(*s) == Some((p.x as int, p.y as int, p.depth as int))
                &&& -PROJ_LIMIT <= p.x <= PROJ_LIMIT
                &&& -PROJ_LIMIT <= p.y <= PROJ_LIMIT
                &&& -PROJ_LIMIT <= p.depth <= PROJ_LIMIT
            },
            None => spec_project(*s) is None,
        },
{
    match s {
        InputSample::Point { position } => Some(
            Projection { x: position.x, y: position.y, depth: -position.z },
        ),
        InputSample::Ray { origin, direction } => {
            let denom: i64 = direction.z;
            if -PARALLEL_EPS <= denom && denom <= PARALLEL_EPS {
                None
            } else {
                proof {
                    lemma_mul_bound(
                        -(origin.z as int),
                        SCALE as int,
                        COORD_LIMIT as int,
                        SCALE as int,
                    );
                }
                let num: i128 = -(origin.z as i128) * (SCALE as i128);
                let t: i128 = div_signed_i128(num, denom as i128);
                proof {
                    lemma_div_signed_bound(num as int, denom as int, 100_000_000_000_000);
                    vstd::arithmetic::div_mod::lemma_div_is_ordered_by_denominator(
                        100_000_000_000_000,
                        101,
                        vstd::math::abs(denom as int) as int,
                    );
                }
                if t < 0 {
                    None
                } else {
                    proof {
                        lemma_mul_bound(
                            direction.x as int,
                            t as int,
                            COORD_LIMIT as int,
                            990_099_009_901,
                        );
                        lemma_mul_bound(
                            direction.y as int,
                            t as int,
                            COORD_LIMIT as int,
                            990_099_009_901,
                        );
                    }
                    let tx: i128 = (direction.x as i128) * t;
                    let ty: i128 = (direction.y as i128) * t;
                    proof {
                        lemma_div_trunc_bound(tx as int, SCALE as int, 99_009_900_990_100_000_000);
                        lemma_div_trunc_bound(ty as int, SCALE as int, 99_009_900_990_100_000_000);
                    }
                    let px: i128 = (origin.x as i128) + div_trunc_i128(tx, SCALE as i128);
                    let py: i128 = (origin.y as i128) + div_trunc_i128(ty, SCALE as i128);
                    Some(Projection { x: px as i64, y: py as i64, depth: 0 })
                }
            }
        },
    }
}

/// A ray parallel to the plane projects to nothing.
pub proof fn lemma_parallel_ray_misses(origin: Vec3Fx, direction: Vec3Fx)
    requires
        -PARALLEL_EPS <= direction.z <= PARALLEL_EPS,
    ensures
        spec_project(InputSample::Ray { origin, direction }) is None,
{
}

/// A ray whose intersection parameter `t` comes out negative — the surface
/// lies behind the ray's origin — projects to nothing.
pub proof fn lemma_ray_behind_origin_misses(origin: Vec3Fx, direction: Vec3Fx)
    requires
        div_signed(-(origin.z as int) * (SCALE as int), direction.z as int) < 0,
    ensures
        spec_project(InputSample::Ray { origin, direction }) is None,
{
}

} // verus!
