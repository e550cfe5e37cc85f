//! Linear-algebra value types for the engine: positions and displacements in
//! two and three dimensions, with translation, component-wise minimum and
//! maximum, and linear interpolation.
//!
//! Coordinates are plain machine integers. Interpolation parameters are
//! rationals given as a numerator and a positive denominator, so `t == 1/2`
//! is written as the pair `(1, 2)`; results round toward zero.

use vstd::prelude::*;
use vstd::arithmetic::div_mod::{
    lemma_div_is_ordered, lemma_div_multiples_vanish, lemma_div_nonincreasing,
    lemma_div_pos_is_pos,
};

verus! {

/// Coarse screen position for UI/HUD use, where whole pixels are enough.
#[allow(dead_code)]
#[derive(Debug, Copy, Clone)]
pub struct Postion {
    x: u32,
    y: u32,
}

/// A point in 2D space.
#[derive(Debug, Copy, Clone, PartialEq, Eq, Structural)]
pub struct Pos2D {
    pub x: i32,
    pub y: i32,
}

/// A point in 3D space.
#[derive(Debug, Copy, Clone, PartialEq, Eq, Structural)]
pub struct Pos3D {
    pub x: i32,
    pub y: i32,
    pub z: i32,
}

/// A displacement in 2D space, applied to a point by addition.
#[derive(Debug, Copy, Clone, PartialEq, Eq, Structural)]
pub struct Vec2D {
    pub dx: i32,
    pub dy: i32,
}

/// A displacement in 3D space.
#[derive(Debug, Copy, Clone, PartialEq, Eq, Structural)]
pub struct Vec3D {
    pub dx: i32,
    pub dy: i32,
    pub dz: i32,
}

/// The smaller of two integers.
pub open spec fn min_int(a: int, b: int) -> int {
    if a <= b {
        a
    } else {
        b
    }
}

/// The larger of two integers.
pub open spec fn max_int(a: int, b: int) -> int {
    if a >= b {
        a
    } else {
        b
    }
}

/// Division rounding toward zero, the behaviour of machine division; only
/// used with positive divisors.
pub open spec fn div_trunc(a: int, b: int) -> int {
    if a >= 0 {
        a / b
    } else {
        -((-a) / b)
    }
}

/// One interpolated coordinate: `a + (b - a) * num / den`, the integer form
/// of `a + (b - a) * t` for `t == num / den`.
pub open spec fn lerp_int(a: int, b: int, num: int, den: int) -> int {
    a + div_trunc((b - a) * num, den)
}

/// Builds a 2D point from its coordinates.
pub fn pos2d(x: i32, y: i32) -> (p: Pos2D)
    ensures
        p == (Pos2D { x, y }),
{
    Pos2D::new(x, y)
}

impl Pos2D {
    /// Builds a point from its coordinates.
    pub fn new(x: i32, y: i32) -> (p: Self)
        ensures
            p == (Pos2D { x, y }),
    {
        Self { x, y }
    }

    /// Copies a point.
    pub fn new_from_self(&self) -> (p: Self)
        ensures
            p == *self,
    {
        Self::new(self.x, self.y)
    }

    /// The origin.
    pub fn zero() -> (p: Self)
        ensures
            p == (Pos2D { x: 0, y: 0 }),
    {
        Self { x: 0, y: 0 }
    }

    /// Getter for the x coordinate.
    pub fn x(&self) -> (r: i32)
        ensures
            r == self.x,
    {
        self.x
    }

    /// Getter for the y coordinate.
    pub fn y(&self) -> (r: i32)
        ensures
            r == self.y,
    {
        self.y
    }

    /// Assigns a new x coordinate.
    pub fn set_x(&mut self, x: i32)
        ensures
            *final(self) == (Pos2D { x, y: old(self).y }),
    {
        self.x = x
    }

    /// Assigns a new y coordinate.
    pub fn set_y(&mut self, y: i32)
        ensures
            *final(self) == (Pos2D { x: old(self).x, y }),
    {
        self.y = y
    }

    /// Assigns both coordinates at once.
    pub fn set(&mut self, x: i32, y: i32)
        ensures
            *final(self) == (Pos2D { x, y }),
    {
        self.x = x;
        self.y = y;
    }

    /// The component-wise minimum of two points as a spec value.
    pub open spec fn min_spec(self, rhs: Pos2D) -> Pos2D {
        Pos2D { x: min_int(self.x as int, rhs.x as int) as i32, y: min_int(
            self.y as int,
            rhs.y as int,
        ) as i32 }
    }

    /// The component-wise maximum of two points as a spec value.
    pub open spec fn max_spec(self, rhs: Pos2D) -> Pos2D {
        Pos2D { x: max_int(self.x as int, rhs.x as int) as i32, y: max_int(
            self.y as int,
            rhs.y as int,
        ) as i32 }
    }

    /// A new point with the smaller x and the smaller y of the two points.
    pub fn min(self, rhs: Pos2D) -> (r: Pos2D)
        ensures
            r == self.min_spec(rhs),
    {
        Self {
            x: if self.x <= rhs.x {
                self.x
            } else {
                rhs.x
            },
            y: if self.y <= rhs.y {
                self.y
            } else {
                rhs.y
            },
        }
    }

    /// A new point with the larger x and the larger y of the two points.
    pub fn max(self, rhs: Pos2D) -> (r: Pos2D)
        ensures
            r == self.max_spec(rhs),
    {
        Self {
            x: if self.x >= rhs.x {
                self.x
            } else {
                rhs.x
            },
            y: if self.y >= rhs.y {
                self.y
            } else {
                rhs.y
            },
        }
    }

    /// Shifts the point by a distance along the x axis.
    pub fn translate_x(&mut self, tx: i32)
        requires
            i32::MIN <= old(self).x + tx <= i32::MAX,
        ensures
            *final(self) == (Pos2D { x: (old(self).x + tx) as i32, y: old(self).y }),
    {
        self.x = self.x + tx;
    }

    /// Shifts the point by a distance along the y axis.
    pub fn translate_y(&mut self, ty: i32)
        requires
            i32::MIN <= old(self).y + ty <= i32::MAX,
        ensures
            *final(self) == (Pos2D { x: old(self).x, y: (old(self).y + ty) as i32 }),
    {
        self.y = self.y + ty;
    }

    /// Shifts the point by a distance along both axes.
    pub fn translate(&mut self, tx: i32, ty: i32)
        requires
            i32::MIN <= old(self).x + tx <= i32::MAX,
            i32::MIN <= old(self).y + ty <= i32::MAX,
        ensures
            *final(self) == (Pos2D {
                x: (old(self).x + tx) as i32,
                y: (old(self).y + ty) as i32,
            }),
    {
        self.x = self.x + tx;
        self.y = self.y + ty;
    }

    /// Translates the point by a displacement vector.
    pub fn add(self, rhs: Vec2D) -> (r: Pos2D)
        requires
            i32::MIN <= self.x + rhs.dx <= i32::MAX,
            i32::MIN <= self.y + rhs.dy <= i32::MAX,
        ensures
            r == (Pos2D { x: (self.x + rhs.dx) as i32, y: (self.y + rhs.dy) as i32 }),
    {
        Pos2D { x: self.x + rhs.dx, y: self.y + rhs.dy }
    }

    /// Translates the point in place by a displacement vector.
    pub fn add_assign(&mut self, rhs: Vec2D)
        requires
            i32::MIN <= old(self).x + rhs.dx <= i32::MAX,
            i32::MIN <= old(self).y + rhs.dy <= i32::MAX,
        ensures
            *final(self) == (Pos2D {
                x: (old(self).x + rhs.dx) as i32,
                y: (old(self).y + rhs.dy) as i32,
            }),
    {
        self.x = self.x + rhs.dx;
        self.y = self.y + rhs.dy;
    }

    /// Multiplies two points component-wise.
    pub fn mul(self, rhs: Pos2D) -> (r: Pos2D)
        requires
            i32::MIN <= self.x * rhs.x <= i32::MAX,
            i32::MIN <= self.y * rhs.y <= i32::MAX,
        ensures
            r == (Pos2D { x: (self.x * rhs.x) as i32, y: (self.y * rhs.y) as i32 }),
    {
        Pos2D { x: self.x * rhs.x, y: self.y * rhs.y }
    }

    /// Linear interpolation between two points: the point a fraction
    /// `t_num / t_den` of the way from `start` to `end`. The fraction is not
    /// clamped, so values outside `[0, 1]` extrapolate.
    pub fn lerp(start: Pos2D, end: Pos2D, t_num: i32, t_den: i32) -> (r: Pos2D)
        requires
            t_den >= 1,
            i32::MIN <= lerp_int(start.x as int, end.x as int, t_num as int, t_den as int)
                <= i32::MAX,
            i32::MIN <= lerp_int(start.y as int, end.y as int, t_num as int, t_den as int)
                <= i32::MAX,
        ensures
            r.x == lerp_int(start.x as int, end.x as int, t_num as int, t_den as int),
            r.y == lerp_int(start.y as int, end.y as int, t_num as int, t_den as int),
    {
        Pos2D {
            x: lerp_coord(start.x, end.x, t_num, t_den),
            y: lerp_coord(start.y, end.y, t_num, t_den),
        }
    }

    /// The `steps + 1` evenly spaced points from `start` to `end`, both
    /// included: entry `i` interpolates with `t == i / steps`.
    pub fn lerp_steps(start: Pos2D, end: Pos2D, steps: u32) -> (r: Vec<Pos2D>)
        requires
            1 <= steps <= i32::MAX,
        ensures
            r@.len() == steps + 1,
            forall|i: int|
                0 <= i <= steps ==> {
                    &&& #[trigger] r@[i].x == lerp_int(
                        start.x as int,
                        end.x as int,
                        i,
                        steps as int,
                    )
                    &&& r@[i].y == lerp_int(start.y as int, end.y as int, i, steps as int)
                },
            r@[0] == start,
            r@[steps as int] == end,
    {
        let mut v: Vec<Pos2D> = Vec::new();
        let mut i: u32 = 0;
        while i <= steps
            invariant
                0 <= i <= steps + 1,
                1 <= steps <= i32::MAX,
                v@.len() == i,
                forall|j: int|
                    0 <= j < i ==> {
                        &&& #[trigger] v@[j].x == lerp_int(
                            start.x as int,
                            end.x as int,
                            j,
                            steps as int,
                        )
                        &&& v@[j].y == lerp_int(start.y as int, end.y as int, j, steps as int)
                    },
            decreases steps + 1 - i,
        {
            proof {
                lemma_lerp_in_range(start.x as int, end.x as int, i as int, steps as int);
                lemma_lerp_in_range(start.y as int, end.y as int, i as int, steps as int);
            }
            v.push(Pos2D::lerp(start, end, i as i32, steps as i32));
            i = i + 1;
        }
        proof {
            lemma_lerp_endpoints(start.x as int, end.x as int, steps as int);
            lemma_lerp_endpoints(start.y as int, end.y as int, steps as int);
            assert(v@[0].x == lerp_int(start.x as int, end.x as int, 0, steps as int));
            assert(v@[steps as int].x == lerp_int(
                start.x as int,
                end.x as int,
                steps as int,
                steps as int,
            ));
            assert(v@[0] == start);
            assert(v@[steps as int] == end);
        }
        v
    }
}

impl Pos3D {
    /// Builds a point from its coordinates.
    pub fn new(x: i32, y: i32, z: i32) -> (p: Self)
        ensures
            p == (Pos3D { x, y, z }),
    {
        Self { x, y, z }
    }

    /// The origin.
    pub fn zero() -> (p: Self)
        ensures
            p == (Pos3D { x: 0, y: 0, z: 0 }),
    {
        Self { x: 0, y: 0, z: 0 }
    }

    /// Getter for the x coordinate.
    pub fn x(&self) -> (r: i32)
        ensures
            r == self.x,
    {
        self.x
    }

    /// Getter for the y coordinate.
    pub fn y(&self) -> (r: i32)
        ensures
            r == self.y,
    {
        self.y
    }

    /// Getter for the z coordinate.
    pub fn z(&self) -> (r: i32)
        ensures
            r == self.z,
    {
        self.z
    }

    /// Assigns a new x coordinate.
    pub fn set_x(&mut self, x: i32)
        ensures
            *final(self) == (Pos3D { x, ..*old(self) }),
    {
        self.x = x
    }

    /// Assigns a new y coordinate.
    pub fn set_y(&mut self, y: i32)
        ensures
            *final(self) == (Pos3D { y, ..*old(self) }),
    {
        self.y = y
    }

    /// Assigns a new z coordinate.
    pub fn set_z(&mut self, z: i32)
        ensures
            *final(self) == (Pos3D { z, ..*old(self) }),
    {
        self.z = z
    }

    /// Assigns all three coordinates at once.
    pub fn set(&mut self, x: i32, y: i32, z: i32)
        ensures
            *final(self) == (Pos3D { x, y, z }),
    {
        *self = Self { x, y, z }
    }

    /// The component-wise minimum of two points as a spec value.
    pub open spec fn min_spec(self, rhs: Pos3D) -> Pos3D {
        Pos3D {
            x: min_int(self.x as int, rhs.x as int) as i32,
            y: min_int(self.y as int, rhs.y as int) as i32,
            z: min_int(self.z as int, rhs.z as int) as i32,
        }
    }

    /// The component-wise maximum of two points as a spec value.
    pub open spec fn max_spec(self, rhs: Pos3D) -> Pos3D {
        Pos3D {
            x: max_int(self.x as int, rhs.x as int) as i32,
            y: max_int(self.y as int, rhs.y as int) as i32,
            z: max_int(self.z as int, rhs.z as int) as i32,
        }
    }

    /// A new point with the smaller coordinate of the two points in each
    /// component.
    pub fn min(self, rhs: Pos3D) -> (r: Pos3D)
        ensures
            r == self.min_spec(rhs),
    {
        Self {
            x: if self.x <= rhs.x {
                self.x
            } else {
                rhs.x
            },
            y: if self.y <= rhs.y {
                self.y
            } else {
                rhs.y
            },
            z: if self.z <= rhs.z {
                self.z
            } else {
                rhs.z
            },
        }
    }

    /// A new point with the larger coordinate of the two points in each
    /// component.
    pub fn max(self, rhs: Pos3D) -> (r: Pos3D)
        ensures
            r == self.max_spec(rhs),
    {
        Self {
            x: if self.x >= rhs.x {
                self.x
            } else {
                rhs.x
            },
            y: if self.y >= rhs.y {
                self.y
            } else {
                rhs.y
            },
            z: if self.z >= rhs.z {
                self.z
            } else {
                rhs.z
            },
        }
    }

    /// Shifts the point by a distance along the x axis.
    pub fn translate_x(&mut self, tx: i32)
        requires
            i32::MIN <= old(self).x + tx <= i32::MAX,
        ensures
            *final(self) == (Pos3D { x: (old(self).x + tx) as i32, ..*old(self) }),
    {
        self.x = self.x + tx;
    }

    /// Shifts the point by a distance along the y axis.
    pub fn translate_y(&mut self, ty: i32)
        requires
            i32::MIN <= old(self).y + ty <= i32::MAX,
        ensures
            *final(self) == (Pos3D { y: (old(self).y + ty) as i32, ..*old(self) }),
    {
        self.y = self.y + ty;
    }

    /// Shifts the point by a distance along the z axis.
    pub fn translate_z(&mut self, tz: i32)
        requires
            i32::MIN <= old(self).z + tz <= i32::MAX,
        ensures
            *final(self) == (Pos3D { z: (old(self).z + tz) as i32, ..*old(self) }),
    {
        self.z = self.z + tz;
    }

    /// Shifts the point by a distance along all three axes.
    pub fn translate(&mut self, tx: i32, ty: i32, tz: i32)
        requires
            i32::MIN <= old(self).x + tx <= i32::MAX,
            i32::MIN <= old(self).y + ty <= i32::MAX,
            i32::MIN <= old(self).z + tz <= i32::MAX,
        ensures
            *final(self) == (Pos3D {
                x: (old(self).x + tx) as i32,
                y: (old(self).y + ty) as i32,
                z: (old(self).z + tz) as i32,
            }),
    {
        *self = self.add(Vec3D::new(tx, ty, tz))
    }

    /// Translates the point by a displacement vector.
    pub fn add(self, rhs: Vec3D) -> (r: Pos3D)
        requires
            i32::MIN <= self.x + rhs.dx <= i32::MAX,
            i32::MIN <= self.y + rhs.dy <= i32::MAX,
            i32::MIN <= self.z + rhs.dz <= i32::MAX,
        ensures
            r == (Pos3D {
                x: (self.x + rhs.dx) as i32,
                y: (self.y + rhs.dy) as i32,
                z: (self.z + rhs.dz) as i32,
            }),
    {
        Pos3D { x: self.x + rhs.dx, y: self.y + rhs.dy, z: self.z + rhs.dz }
    }

    /// Translates the point in place by a displacement vector.
    pub fn add_assign(&mut self, rhs: Vec3D)
        requires
            i32::MIN <= old(self).x + rhs.dx <= i32::MAX,
            i32::MIN <= old(self).y + rhs.dy <= i32::MAX,
            i32::MIN <= old(self).z + rhs.dz <= i32::MAX,
        ensures
            *final(self) == (Pos3D {
                x: (old(self).x + rhs.dx) as i32,
                y: (old(self).y + rhs.dy) as i32,
                z: (old(self).z + rhs.dz) as i32,
            }),
    {
        self.x = self.x + rhs.dx;
        self.y = self.y + rhs.dy;
        self.z = self.z + rhs.dz;
    }

    /// Linear interpolation between two points: the point a fraction
    /// `t_num / t_den` of the way from `start` to `end`.
    pub fn lerp(start: Pos3D, end: Pos3D, t_num: i32, t_den: i32) -> (r: Pos3D)
        requires
            t_den >= 1,
            i32::MIN <= lerp_int(start.x as int, end.x as int, t_num as int, t_den as int)
                <= i32::MAX,
            i32::MIN <= lerp_int(start.y as int, end.y as int, t_num as int, t_den as int)
                <= i32::MAX,
            i32::MIN <= lerp_int(start.z as int, end.z as int, t_num as int, t_den as int)
                <= i32::MAX,
        ensures
            r.x == lerp_int(start.x as int, end.x as int, t_num as int, t_den as int),
            r.y == lerp_int(start.y as int, end.y as int, t_num as int, t_den as int),
            r.z == lerp_int(start.z as int, end.z as int, t_num as int, t_den as int),
    {
        Pos3D {
            x: lerp_coord(start.x, end.x, t_num, t_den),
            y: lerp_coord(start.y, end.y, t_num, t_den),
            z: lerp_coord(start.z, end.z, t_num, t_den),
        }
    }

    /// The `steps + 1` evenly spaced points from `start` to `end`, both
    /// included: entry `i` interpolates with `t == i / steps`.
    pub fn lerp_steps(start: Pos3D, end: Pos3D, steps: u32) -> (r: Vec<Pos3D>)
        requires
            1 <= steps <= i32::MAX,
        ensures
            r@.len() == steps + 1,
            forall|i: int|
                0 <= i <= steps ==> {
                    &&& #[trigger] r@[i].x == lerp_int(
                        start.x as int,
                        end.x as int,
                        i,
                        steps as int,
                    )
                    &&& r@[i].y == lerp_int(start.y as int, end.y as int, i, steps as int)
                    &&& r@[i].z == lerp_int(start.z as int, end.z as int, i, steps as int)
                },
            r@[0] == start,
            r@[steps as int] == end,
    {
        let mut v: Vec<Pos3D> = Vec::new();
        let mut i: u32 = 0;
        while i <= steps
            invariant
                0 <= i <= steps + 1,
                1 <= steps <= i32::MAX,
                v@.len() == i,
                forall|j: int|
                    0 <= j < i ==> {
                        &&& #[trigger] v@[j].x == lerp_int(
                            start.x as int,
                            end.x as int,
                            j,
                            steps as int,
                        )
                        &&& v@[j].y == lerp_int(start.y as int, end.y as int, j, steps as int)
                        &&& v@[j].z == lerp_int(start.z as int, end.z as int, j, steps as int)
                    },
            decreases steps + 1 - i,
        {
            proof {
                lemma_lerp_in_range(start.x as int, end.x as int, i as int, steps as int);
                lemma_lerp_in_range(start.y as int, end.y as int, i as int, steps as int);
                lemma_lerp_in_range(start.z as int, end.z as int, i as int, steps as int);
            }
            v.push(Pos3D::lerp(start, end, i as i32, steps as i32));
            i = i + 1;
        }
        proof {
            lemma_lerp_endpoints(start.x as int, end.x as int, steps as int);
            lemma_lerp_endpoints(start.y as int, end.y as int, steps as int);
            lemma_lerp_endpoints(start.z as int, end.z as int, steps as int);
            assert(v@[0].x == lerp_int(start.x as int, end.x as int, 0, steps as int));
            assert(v@[steps as int].x == lerp_int(
                start.x as int,
                end.x as int,
                steps as int,
                steps as int,
            ));
            assert(v@[0] == start);
            assert(v@[steps as int] == end);
        }
        v
    }
}

impl Vec2D {
    /// Builds a displacement from its components.
    pub fn new(dx: i32, dy: i32) -> (v: Vec2D)
        ensures
            v == (Vec2D { dx, dy }),
    {
        Vec2D { dx, dy }
    }

    /// Getter for the x displacement.
    pub fn dx(&self) -> (r: i32)
        ensures
            r == self.dx,
    {
        self.dx
    }

    /// Getter for the y displacement.
    pub fn dy(&self) -> (r: i32)
        ensures
            r == self.dy,
    {
        self.dy
    }

    /// Assigns a new x displacement.
    pub fn set_dx(&mut self, dx: i32)
        ensures
            *final(self) == (Vec2D { dx, dy: old(self).dy }),
    {
        self.dx = dx
    }

    /// Assigns a new y displacement.
    pub fn set_dy(&mut self, dy: i32)
        ensures
            *final(self) == (Vec2D { dx: old(self).dx, dy }),
    {
        self.dy = dy
    }

    /// Assigns both components at once.
    pub fn set(&mut self, dx: i32, dy: i32)
        ensures
            *final(self) == (Vec2D { dx, dy }),
    {
        self.dx = dx;
        self.dy = dy;
    }

    /// Scales the displacement by an integer factor.
    pub fn mul(self, rhs: i32) -> (r: Vec2D)
        requires
            i32::MIN <= self.dx * rhs <= i32::MAX,
            i32::MIN <= self.dy * rhs <= i32::MAX,
        ensures
            r == (Vec2D { dx: (self.dx * rhs) as i32, dy: (self.dy * rhs) as i32 }),
    {
        Self { dx: self.dx * rhs, dy: self.dy * rhs }
    }

    /// Adds two displacements.
    pub fn add(self, rhs: Vec2D) -> (r: Vec2D)
        requires
            i32::MIN <= self.dx + rhs.dx <= i32::MAX,
            i32::MIN <= self.dy + rhs.dy <= i32::MAX,
        ensures
            r == (Vec2D { dx: (self.dx + rhs.dx) as i32, dy: (self.dy + rhs.dy) as i32 }),
    {
        Self { dx: self.dx + rhs.dx, dy: self.dy + rhs.dy }
    }

    /// Adds a displacement in place.
    pub fn add_assign(&mut self, rhs: Vec2D)
        requires
            i32::MIN <= old(self).dx + rhs.dx <= i32::MAX,
            i32::MIN <= old(self).dy + rhs.dy <= i32::MAX,
        ensures
            *final(self) == (Vec2D {
                dx: (old(self).dx + rhs.dx) as i32,
                dy: (old(self).dy + rhs.dy) as i32,
            }),
    {
        self.dx = self.dx + rhs.dx;
        self.dy = self.dy + rhs.dy;
    }

    /// Subtracts one displacement from another.
    pub fn sub(self, rhs: Vec2D) -> (r: Vec2D)
        requires
            i32::MIN <= self.dx - rhs.dx <= i32::MAX,
            i32::MIN <= self.dy - rhs.dy <= i32::MAX,
        ensures
            r == (Vec2D { dx: (self.dx - rhs.dx) as i32, dy: (self.dy - rhs.dy) as i32 }),
    {
        Self { dx: self.dx - rhs.dx, dy: self.dy - rhs.dy }
    }

    /// Subtracts a displacement in place.
    pub fn sub_assign(&mut self, rhs: Vec2D)
        requires
            i32::MIN <= old(self).dx - rhs.dx <= i32::MAX,
            i32::MIN <= old(self).dy - rhs.dy <= i32::MAX,
        ensures
            *final(self) == (Vec2D {
                dx: (old(self).dx - rhs.dx) as i32,
                dy: (old(self).dy - rhs.dy) as i32,
            }),
    {
        self.dx = self.dx - rhs.dx;
        self.dy = self.dy - rhs.dy;
    }

    /// Lifts the displacement into 3D with the given z component.
    pub fn to_vec3d(self, dz: i32) -> (r: Vec3D)
        ensures
            r == (Vec3D { dx: self.dx, dy: self.dy, dz }),
    {
        Vec3D { dx: self.dx, dy: self.dy, dz }
    }
}

impl Vec3D {
    /// Builds a displacement from its components.
    pub fn new(dx: i32, dy: i32, dz: i32) -> (v: Vec3D)
        ensures
            v == (Vec3D { dx, dy, dz }),
    {
        Self { dx, dy, dz }
    }
}

/// Law: translating a point by `(tx, ty)` and then by `(-tx, -ty)` restores
/// the original point. Here `q` is `p` after the first translation and `r`
/// is `q` after the second, as `translate` describes them.
pub proof fn lemma_translate_round_trip(p: Pos2D, q: Pos2D, r: Pos2D, tx: i32, ty: i32)
    requires
        i32::MIN <= p.x + tx <= i32::MAX,
        i32::MIN <= p.y + ty <= i32::MAX,
        q == (Pos2D { x: (p.x + tx) as i32, y: (p.y + ty) as i32 }),
        r == (Pos2D { x: (q.x - tx) as i32, y: (q.y - ty) as i32 }),
    ensures
        r == p,
{
}

/// Law: component-wise minimum and maximum of 2D points are commutative, and
/// the minimum never exceeds the maximum in either component.
pub proof fn lemma_min_max_2d(a: Pos2D, b: Pos2D)
    ensures
        a.min_spec(b) == b.min_spec(a),
        a.max_spec(b) == b.max_spec(a),
        a.min_spec(b).x <= a.max_spec(b).x,
        a.min_spec(b).y <= a.max_spec(b).y,
{
}

/// Law: component-wise minimum and maximum of 3D points are commutative, and
/// the minimum never exceeds the maximum in any component.
pub proof fn lemma_min_max_3d(a: Pos3D, b: Pos3D)
    ensures
        a.min_spec(b) == b.min_spec(a),
        a.max_spec(b) == b.max_spec(a),
        a.min_spec(b).x <= a.max_spec(b).x,
        a.min_spec(b).y <= a.max_spec(b).y,
        a.min_spec(b).z <= a.max_spec(b).z,
{
}

/// Law: interpolation with `t == 0` yields the start point and interpolation
/// with `t == 1` (numerator equal to denominator) yields the end point, in
/// both coordinates.
pub proof fn lemma_lerp_endpoints_2d(start: Pos2D, end: Pos2D, den: int)
    requires
        den >= 1,
    ensures
        lerp_int(start.x as int, end.x as int, 0, den) == start.x,
        lerp_int(start.y as int, end.y as int, 0, den) == start.y,
        lerp_int(start.x as int, end.x as int, den, den) == end.x,
        lerp_int(start.y as int, end.y as int, den, den) == end.y,
{
    lemma_lerp_endpoints(start.x as int, end.x as int, den);
    lemma_lerp_endpoints(start.y as int, end.y as int, den);
}

/// One interpolated coordinate, rounding toward zero.
fn lerp_coord(a: i32, b: i32, num: i32, den: i32) -> (r: i32)
    requires
        den >= 1,
        i32::MIN <= lerp_int(a as int, b as int, num as int, den as int) <= i32::MAX,
    ensures
        r == lerp_int(a as int, b as int, num as int, den as int),
{
    let delta: i64 = (b as i64) - (a as i64);
    proof {
        assert((delta as int) * (num as int) <= 0x100000000int * 0x80000000int
            && (delta as int) * (num as int) >= -(0x100000000int * 0x80000000int))
            by (nonlinear_arith)
            requires
                -0x100000000 <= delta as int <= 0x100000000,
                -0x80000000 <= num as int <= 0x80000000,
        ;
    }
    let prod: i128 = (delta as i128) * (num as i128);
    let mag: u128 = if prod >= 0 {
        prod as u128
    } else {
        (-prod) as u128
    };
    let q_mag: u128 = mag / (den as u128);
    proof {
        lemma_div_nonincreasing(mag as int, den as int);
        lemma_div_pos_is_pos(mag as int, den as int);
    }
    let q: i128 = if prod >= 0 {
        q_mag as i128
    } else {
        -(q_mag as i128)
    };
    assert(q == div_trunc((b - a) * num, den as int));
    (a as i128 + q) as i32
}

/// Law: interpolating with `t == 0` returns the start coordinate and with
/// `t == 1` (numerator equal to denominator) returns the end coordinate.
pub proof fn lemma_lerp_endpoints(a: int, b: int, den: int)
    requires
        den >= 1,
    ensures
        lerp_int(a, b, 0, den) == a,
        lerp_int(a, b, den, den) == b,
{
    let d = b - a;
    assert(d * 0 == 0) by (nonlinear_arith);
    assert(0int / den == 0);
    if d >= 0 {
        lemma_div_multiples_vanish(d, den);
        assert(den * d == d * den) by (nonlinear_arith);
        assert((d * den) / den == d);
    } else {
        lemma_div_multiples_vanish(-d, den);
        assert(den * (-d) == -(d * den)) by (nonlinear_arith);
        assert((-(d * den)) / den == -d);
    }
}

/// Law: for a fraction between 0 and 1, the interpolated coordinate lies
/// between the two endpoints.
pub proof fn lemma_lerp_in_range(a: int, b: int, num: int, den: int)
    requires
        den >= 1,
        0 <= num <= den,
    ensures
        min_int(a, b) <= lerp_int(a, b, num, den) <= max_int(a, b),
{
    let d = b - a;
    if d >= 0 {
        assert(0 <= d * num <= d * den) by (nonlinear_arith)
            requires
                0 <= d,
                0 <= num <= den,
        ;
        lemma_div_pos_is_pos(d * num, den);
        lemma_div_is_ordered(d * num, d * den, den);
        lemma_div_multiples_vanish(d, den);
        assert(den * d == d * den) by (nonlinear_arith);
        assert(0 <= (d * num) / den <= d);
    } else {
        let m = -d;
        assert(0 <= m * num <= m * den) by (nonlinear_arith)
            requires
                0 <= m,
                0 <= num <= den,
        ;
        assert(d * num == -(m * num)) by (nonlinear_arith)
            requires
                m == -d,
        ;
        lemma_div_pos_is_pos(m * num, den);
        lemma_div_is_ordered(m * num, m * den, den);
        lemma_div_multiples_vanish(m, den);
        assert(den * m == m * den) by (nonlinear_arith);
        assert(0 <= (m * num) / den <= m);
    }
}

} // verus!
