//! Rays and axis-aligned boxes.

use vstd::prelude::*;
use crate::error::PickError;
use crate::vector::{Axis, Point, Vector3, HALF_UNIT, WORLD_LIMIT};

verus! {

/// The points `origin + t * direction`: the mathematical value of a
/// [`Ray`].
pub struct Line {
    pub origin: Point,
    pub direction: Point,
}

impl Line {
    /// The direction is not the zero vector.
    pub open spec fn valid(self) -> bool {
        !self.direction.is_zero()
    }

    /// Origin and direction are within the world's limit.
    pub open spec fn in_world(self) -> bool {
        self.origin.within(WORLD_LIMIT as int) && self.direction.within(WORLD_LIMIT as int)
    }
}

/// The closed box between two corners: the mathematical value of an
/// [`AxisAlignedBox`].
pub struct Cuboid {
    pub lo: Point,
    pub hi: Point,
}

impl Cuboid {
    /// The lower corner is not above the upper corner on any axis.
    pub open spec fn valid(self) -> bool {
        &&& self.lo.x <= self.hi.x
        &&& self.lo.y <= self.hi.y
        &&& self.lo.z <= self.hi.z
    }

    /// Both corners are within the world's limit.
    pub open spec fn in_world(self) -> bool {
        self.lo.within(WORLD_LIMIT as int) && self.hi.within(WORLD_LIMIT as int)
    }

    /// The cube of one grid unit around `center`.
    pub open spec fn unit_cube(center: Point) -> Cuboid {
        Cuboid { lo: center.shifted(-HALF_UNIT), hi: center.shifted(HALF_UNIT as int) }
    }

    /// `p` lies in the box, faces included.
    pub open spec fn contains(self, p: Point) -> bool {
        &&& self.lo.x <= p.x <= self.hi.x
        &&& self.lo.y <= p.y <= self.hi.y
        &&& self.lo.z <= p.z <= self.hi.z
    }

    /// `p` lies in the box and on none of its faces.
    pub open spec fn strictly_contains(self, p: Point) -> bool {
        &&& self.lo.x < p.x < self.hi.x
        &&& self.lo.y < p.y < self.hi.y
        &&& self.lo.z < p.z < self.hi.z
    }

    /// The box has some thickness along `axis`.
    pub open spec fn thick(self, axis: Axis) -> bool {
        self.lo.get(axis) < self.hi.get(axis)
    }
}

/// A ray with a direction other than zero, inside the world. The point at
/// parameter `t` is `origin + t * direction`, so a parameter is a distance
/// in grid units where the direction is one grid unit long.
#[derive(Clone, Copy, Debug)]
pub struct Ray {
    origin: Vector3,
    direction: Vector3,
}

impl View for Ray {
    type V = Line;

    closed spec fn view(&self) -> Line {
        Line { origin: self.origin@, direction: self.direction@ }
    }
}

impl Ray {
    /// What holds of every ray.
    #[verifier::type_invariant]
    pub open spec fn wf(self) -> bool {
        self@.valid() && self@.in_world()
    }

    /// What [`Ray::new`] makes of an origin and a direction: a zero
    /// direction is refused first, then a coordinate beyond the world's
    /// limit.
    pub open spec fn checked(origin: Point, direction: Point) -> Result<Line, PickError> {
        let line = Line { origin, direction };
        if direction.is_zero() {
            Err(PickError::ZeroDirection)
        } else if !line.in_world() {
            Err(PickError::OutOfWorld)
        } else {
            Ok(line)
        }
    }

    /// The ray from `origin` along `direction`, or the reason why there is
    /// no such ray.
    pub fn new(origin: Vector3, direction: Vector3) -> (r: Result<Ray, PickError>)
        ensures
            match r {
                Ok(ray) => Ray::checked(origin@, direction@) == Ok::<Line, PickError>(ray@),
                Err(e) => Ray::checked(origin@, direction@) == Err::<Line, PickError>(e),
            },
    {
        if direction.is_zero() {
            Err(PickError::ZeroDirection)
        } else if !origin.in_world() || !direction.in_world() {
            Err(PickError::OutOfWorld)
        } else {
            Ok(Ray { origin, direction })
        }
    }

    /// Where the ray starts.
    pub fn origin(&self) -> (o: Vector3)
        ensures
            o@ == self@.origin,
    {
        self.origin
    }

    /// The way the ray points.
    pub fn direction(&self) -> (d: Vector3)
        ensures
            d@ == self@.direction,
    {
        self.direction
    }
}

/// A closed axis-aligned box inside the world.
#[derive(Clone, Copy, Debug)]
pub struct AxisAlignedBox {
    min: Vector3,
    max: Vector3,
}

impl View for AxisAlignedBox {
    type V = Cuboid;

    closed spec fn view(&self) -> Cuboid {
        Cuboid { lo: self.min@, hi: self.max@ }
    }
}

impl AxisAlignedBox {
    /// What holds of every box.
    #[verifier::type_invariant]
    pub open spec fn wf(self) -> bool {
        self@.valid() && self@.in_world()
    }

    /// What [`AxisAlignedBox::new`] makes of two corners: a corner beyond
    /// the world's limit is refused first, then corners in the wrong order.
    pub open spec fn checked(min: Point, max: Point) -> Result<Cuboid, PickError> {
        let cuboid = Cuboid { lo: min, hi: max };
        if !cuboid.in_world() {
            Err(PickError::OutOfWorld)
        } else if !cuboid.valid() {
            Err(PickError::InvertedBox)
        } else {
            Ok(cuboid)
        }
    }

    /// The box between `min` and `max`, or the reason why there is no such
    /// box.
    pub fn new(min: Vector3, max: Vector3) -> (r: Result<AxisAlignedBox, PickError>)
        ensures
            match r {
                Ok(b) => AxisAlignedBox::checked(min@, max@) == Ok::<Cuboid, PickError>(b@),
                Err(e) => AxisAlignedBox::checked(min@, max@) == Err::<Cuboid, PickError>(e),
            },
    {
        if !min.in_world() || !max.in_world() {
            Err(PickError::OutOfWorld)
        } else if min.x > max.x || min.y > max.y || min.z > max.z {
            Err(PickError::InvertedBox)
        } else {
            Ok(AxisAlignedBox { min, max })
        }
    }

    /// The cube of one grid unit around `center`, or
    /// [`PickError::OutOfWorld`] if a corner of it is beyond the world's
    /// limit.
    pub fn unit_cube(center: Vector3) -> (r: Result<AxisAlignedBox, PickError>)
        ensures
            match r {
                Ok(b) => b@ == Cuboid::unit_cube(center@) && b@.in_world(),
                Err(e) => e == PickError::OutOfWorld && !Cuboid::unit_cube(center@).in_world(),
            },
    {
        if !center.in_world() {
            return Err(PickError::OutOfWorld);
        }
        let min = Vector3::new(center.x - HALF_UNIT, center.y - HALF_UNIT, center.z - HALF_UNIT);
        let max = Vector3::new(center.x + HALF_UNIT, center.y + HALF_UNIT, center.z + HALF_UNIT);
        if !min.in_world() || !max.in_world() {
            Err(PickError::OutOfWorld)
        } else {
            Ok(AxisAlignedBox { min, max })
        }
    }

    /// The lower corner.
    pub fn min(&self) -> (v: Vector3)
        ensures
            v@ == self@.lo,
    {
        self.min
    }

    /// The upper corner.
    pub fn max(&self) -> (v: Vector3)
        ensures
            v@ == self@.hi,
    {
        self.max
    }
}

} // verus!
