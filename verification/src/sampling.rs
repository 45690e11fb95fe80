//! Random sampling helpers: the uniform unit draw and the rejection samplers
//! for the unit ball and unit disc.
//!
//! Randomness enters the tracer in exactly three places: diffuse scatter
//! directions, the dielectric reflect-or-refract choice, and the axis pick of
//! the hierarchy builder. All of them draw through `rand::random` below;
//! nothing is assumed about the values drawn, so every contract downstream
//! holds for every possible outcome.

use vstd::prelude::*;

use crate::algebra::{dot_vv, sq_len3, Vector3T};
use crate::fx::{Fx, SCALE};

verus! {

/// Relies on rand::random of the rand crate: draws a value of the requested
/// type from the thread-local generator. Nothing can be promised of a random
/// value, so this carries no contract. The thread generator's very first use
/// in a thread can abort the process if the operating system's randomness
/// source is unavailable — an environmental failure of the same kind as
/// resource exhaustion, outside any contract here.
pub assume_specification<T>[ rand::random::<T> ]() -> (r: T)
    where
        rand::distributions::Standard: rand::distributions::Distribution<T>,
;

/// A uniform fixed-point sample in `[0, 1)`: each of the `SCALE` raw values
/// below one is equally likely.
pub fn rnd_unit() -> (r: Fx)
    ensures
        0 <= r@ < SCALE,
{
    let v: u64 = rand::random::<u64>();
    let raw: i64 = (v % 65536) as i64;
    Fx::from_raw(raw)
}

/// A uniformly chosen axis index: 0, 1 or 2.
pub fn rnd_axis() -> (r: u64)
    ensures
        r < 3,
{
    let v: u64 = rand::random::<u64>();
    v % 3
}

impl Vector3T {
    /// A random point strictly inside the unit ball, by rejection from the
    /// cube `[-1, 1)^3`.
    pub fn rnd_in_unit_sphere() -> (res: Vector3T)
        ensures
            sq_len3(res.x@, res.y@, res.z@) < SCALE,
    {
        let two = Fx::from_int(2);
        let sub = Vector3T { x: Fx::one(), y: Fx::one(), z: Fx::one() };
        let mut tries: u64 = 0;
        while tries < 4096
            invariant
                two@ == 2 * (SCALE as int),
                sub.x@ == SCALE && sub.y@ == SCALE && sub.z@ == SCALE,
            decreases 4096 - tries,
        {
            let x = Vector3T { x: rnd_unit(), y: rnd_unit(), z: rnd_unit() }.scale(two).minus(sub);
            let q = x.squared_length();
            if q.lt(Fx::one()) {
                return x;
            }
            tries = tries + 1;
        }
        // Rejection accepts more than half the cube, so this is unreachable in
        // any practical sense; the centre point keeps the bound regardless.
        Vector3T { x: Fx::zero(), y: Fx::zero(), z: Fx::zero() }
    }

    /// A random point strictly inside the unit disc of the xy plane, by
    /// rejection from the square `[-1, 1)^2`.
    pub fn rnd_in_unit_disc() -> (res: Vector3T)
        ensures
            sq_len3(res.x@, res.y@, res.z@) < SCALE,
            res.z@ == 0,
    {
        let two = Fx::from_int(2);
        let sub = Vector3T { x: Fx::one(), y: Fx::one(), z: Fx::zero() };
        let mut tries: u64 = 0;
        while tries < 4096
            invariant
                two@ == 2 * (SCALE as int),
                sub.x@ == SCALE && sub.y@ == SCALE && sub.z@ == 0,
            decreases 4096 - tries,
        {
            let p = Vector3T { x: rnd_unit(), y: rnd_unit(), z: Fx::zero() }.scale(two).minus(sub);
            let q = dot_vv(&p, &p);
            proof {
                assert(0int / 65536int == 0);
            }
            if q.lt(Fx::one()) {
                return p;
            }
            tries = tries + 1;
        }
        // As above: kept only to bound the loop; the centre of the disc.
        Vector3T { x: Fx::zero(), y: Fx::zero(), z: Fx::zero() }
    }
}

} // verus!
