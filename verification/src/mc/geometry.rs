//! Locations, directions and rotations in the 2-D plane.
//!
//! Coordinates are exact integers.  A direction is a vector of unit
//! squared length, which in the exact model singles out the four axis
//! directions; a rotation is given by an exact cosine/sine pair of unit
//! squared length and is an orthogonal transform, so it preserves the
//! squared length of every vector it is applied to.

use vstd::prelude::*;

verus! {

/// The X-component of rotating the vector `(dx, dy)` by the angle whose
/// cosine is `c` and whose sine is `s`.
pub open spec fn rot_x(dx: int, dy: int, c: int, s: int) -> int {
    dx * c - dy * s
}

/// The Y-component of rotating the vector `(dx, dy)` by the angle whose
/// cosine is `c` and whose sine is `s`.
pub open spec fn rot_y(dx: int, dy: int, c: int, s: int) -> int {
    dx * s + dy * c
}

/// Rotating by an angle and then by its opposite restores the vector:
/// the rotation matrix of `(c, -s)` is inverse to that of `(c, s)`
/// whenever `(c, s)` has unit squared length.
pub proof fn lemma_rotation_round_trip(dx: int, dy: int, c: int, s: int)
    requires
        c * c + s * s == 1,
    ensures
        rot_x(rot_x(dx, dy, c, s), rot_y(dx, dy, c, s), c, -s) == dx,
        rot_y(rot_x(dx, dy, c, s), rot_y(dx, dy, c, s), c, -s) == dy,
{
    assert((dx * c - dy * s) * c - (dx * s + dy * c) * (-s) == dx * (c * c + s * s)
        && (dx * c - dy * s) * (-s) + (dx * s + dy * c) * c == dy * (c * c + s * s))
        by (nonlinear_arith);
}

/// Every rotation by a unit cosine/sine pair preserves the squared
/// length of the vector it is applied to.
pub proof fn lemma_rotation_preserves_norm(dx: int, dy: int, c: int, s: int)
    requires
        c * c + s * s == 1,
    ensures
        rot_x(dx, dy, c, s) * rot_x(dx, dy, c, s) + rot_y(dx, dy, c, s) * rot_y(dx, dy, c, s)
            == dx * dx + dy * dy,
{
    assert((dx * c - dy * s) * (dx * c - dy * s) + (dx * s + dy * c) * (dx * s + dy * c) == dx
        * dx + dy * dy) by (nonlinear_arith)
        requires
            c * c + s * s == 1,
    ;
}

/// Type that describes a location in 2D-space.
#[derive(Clone, Copy, Debug, PartialEq, Eq, Structural)]
pub struct Point {
    x: i64,
    y: i64,
}

impl Point {
    /// The mathematical X-coordinate.
    pub closed spec fn xk(self) -> int {
        self.x as int
    }

    /// The mathematical Y-coordinate.
    pub closed spec fn yk(self) -> int {
        self.y as int
    }

    pub fn new(x: i64, y: i64) -> (r: Self)
        ensures
            r.xk() == x,
            r.yk() == y,
    {
        Point { x, y }
    }

    /// Returns the X-coordinate of the point.
    pub fn x(&self) -> (r: i64)
        ensures
            r == self.xk(),
    {
        self.x
    }

    /// Returns the Y-coordinate of the point.
    pub fn y(&self) -> (r: i64)
        ensures
            r == self.yk(),
    {
        self.y
    }

    /// Sets the X-coordinate of the point to a new value.
    pub fn set_x(&mut self, x: i64)
        ensures
            final(self).xk() == x,
            final(self).yk() == old(self).yk(),
    {
        self.x = x;
    }

    /// Sets the Y-coordinate of the point to a new value.
    pub fn set_y(&mut self, y: i64)
        ensures
            final(self).xk() == old(self).xk(),
            final(self).yk() == y,
    {
        self.y = y;
    }

    /// Moves the point a certain distance in a given direction: each
    /// coordinate grows by the matching direction component times the
    /// length.
    pub fn step(&mut self, d: &Direction, length: i64)
        requires
            d.wf(),
            i64::MIN < length,
            i64::MIN <= old(self).xk() + d.dxk() * length <= i64::MAX,
            i64::MIN <= old(self).yk() + d.dyk() * length <= i64::MAX,
        ensures
            final(self).xk() == old(self).xk() + d.dxk() * length,
            final(self).yk() == old(self).yk() + d.dyk() * length,
    {
        proof {
            d.lemma_components_small();
            assert(i64::MIN <= d.dxk() * length <= i64::MAX && i64::MIN <= d.dyk() * length
                <= i64::MAX) by (nonlinear_arith)
                requires
                    -1 <= d.dxk() <= 1,
                    -1 <= d.dyk() <= 1,
                    i64::MIN < length <= i64::MAX,
            ;
        }
        self.x = self.x + d.dx * length;
        self.y = self.y + d.dy * length;
    }

    /// Returns the coordinates of this point as a tuple.
    pub fn to_tuple(&self) -> (r: (i64, i64))
        ensures
            r.0 == self.xk(),
            r.1 == self.yk(),
    {
        (self.x, self.y)
    }
}

/// Whether `after` is `before` moved by exactly `l` along `dir`.
pub open spec fn is_step_by(before: Point, dir: Direction, after: Point, l: int) -> bool {
    after.xk() == before.xk() + dir.dxk() * l && after.yk() == before.yk() + dir.dyk() * l
}

/// Whether stepping from `p` along `dir` by `l` stays inside the
/// representable plane.
pub open spec fn step_in_plane(p: Point, dir: Direction, l: int) -> bool {
    &&& i64::MIN <= p.xk() + dir.dxk() * l <= i64::MAX
    &&& i64::MIN <= p.yk() + dir.dyk() * l <= i64::MAX
}

/// Whether `after` lies on the ray from `before` along `dir`: the
/// location moved forward by some non-negative length.
pub open spec fn moved_along(before: Point, dir: Direction, after: Point) -> bool {
    exists|l: int| 0 <= l && #[trigger] is_step_by(before, dir, after, l)
}

/// Every coordinate of a point lies in the machine-integer range.
pub broadcast proof fn lemma_point_in_range(p: Point)
    ensures
        i64::MIN <= #[trigger] p.xk() <= i64::MAX,
        i64::MIN <= #[trigger] p.yk() <= i64::MAX,
{
}

/// Type that describes a direction in 2D-space.
///
/// `Direction`s are similar to `Point`s, but their squared length is
/// exactly `1`, which in the exact integer model singles out the four
/// axis directions.
#[derive(Clone, Copy, Debug, PartialEq, Eq, Structural)]
pub struct Direction {
    dx: i64,
    dy: i64,
}

impl Direction {
    /// The mathematical X-component.
    pub closed spec fn dxk(self) -> int {
        self.dx as int
    }

    /// The mathematical Y-component.
    pub closed spec fn dyk(self) -> int {
        self.dy as int
    }

    /// A direction is a vector of unit squared length.
    pub open spec fn wf(self) -> bool {
        self.dxk() * self.dxk() + self.dyk() * self.dyk() == 1
    }

    /// The components of a unit vector are each at most one in
    /// magnitude.
    pub proof fn lemma_components_small(&self)
        requires
            self.wf(),
        ensures
            -1 <= self.dxk() <= 1,
            -1 <= self.dyk() <= 1,
    {
        assert(-1 <= self.dxk() <= 1 && -1 <= self.dyk() <= 1) by (nonlinear_arith)
            requires
                self.dxk() * self.dxk() + self.dyk() * self.dyk() == 1,
        ;
    }

    /// Creates a new direction from the given unit vector.
    pub fn new(dx: i64, dy: i64) -> (r: Self)
        requires
            dx * dx + dy * dy == 1,
        ensures
            r.wf(),
            r.dxk() == dx,
            r.dyk() == dy,
    {
        Direction { dx, dy }
    }

    /// Returns the X-component of the vector describing the direction.
    pub fn dx(&self) -> (r: i64)
        ensures
            r == self.dxk(),
    {
        self.dx
    }

    /// Returns the Y-component of the vector describing the direction.
    pub fn dy(&self) -> (r: i64)
        ensures
            r == self.dyk(),
    {
        self.dy
    }

    /// Rotates the direction by a given rotation.  A positive sine
    /// rotates the direction counter-clockwise.
    pub fn rotate(&mut self, by: &Rotation)
        requires
            old(self).wf(),
            by.wf(),
        ensures
            final(self).wf(),
            final(self).dxk() == rot_x(old(self).dxk(), old(self).dyk(), by.ck(), by.sk()),
            final(self).dyk() == rot_y(old(self).dxk(), old(self).dyk(), by.ck(), by.sk()),
    {
        proof {
            self.lemma_components_small();
            by.lemma_components_small();
            lemma_rotation_preserves_norm(self.dxk(), self.dyk(), by.ck(), by.sk());
            assert(-1 <= self.dxk() * by.ck() <= 1 && -1 <= self.dyk() * by.sk() <= 1 && -1
                <= self.dxk() * by.sk() <= 1 && -1 <= self.dyk() * by.ck() <= 1)
                by (nonlinear_arith)
                requires
                    -1 <= self.dxk() <= 1,
                    -1 <= self.dyk() <= 1,
                    -1 <= by.ck() <= 1,
                    -1 <= by.sk() <= 1,
            ;
        }
        let dx = self.dx * by.c - self.dy * by.s;
        let dy = self.dx * by.s + self.dy * by.c;
        self.dx = dx;
        self.dy = dy;
    }
}

/// An exact rotation of the plane, given by the cosine and the sine of
/// its angle; the pair has unit squared length.
#[derive(Clone, Copy, Debug, PartialEq, Eq, Structural)]
pub struct Rotation {
    c: i64,
    s: i64,
}

impl Rotation {
    /// The mathematical cosine.
    pub closed spec fn ck(self) -> int {
        self.c as int
    }

    /// The mathematical sine.
    pub closed spec fn sk(self) -> int {
        self.s as int
    }

    /// The cosine/sine pair lies on the unit circle.
    pub open spec fn wf(self) -> bool {
        self.ck() * self.ck() + self.sk() * self.sk() == 1
    }

    /// The components of a unit pair are each at most one in magnitude.
    pub proof fn lemma_components_small(&self)
        requires
            self.wf(),
        ensures
            -1 <= self.ck() <= 1,
            -1 <= self.sk() <= 1,
    {
        assert(-1 <= self.ck() <= 1 && -1 <= self.sk() <= 1) by (nonlinear_arith)
            requires
                self.ck() * self.ck() + self.sk() * self.sk() == 1,
        ;
    }

    /// Creates the rotation with the given cosine and sine.
    pub fn new(c: i64, s: i64) -> (r: Self)
        requires
            c * c + s * s == 1,
        ensures
            r.wf(),
            r.ck() == c,
            r.sk() == s,
    {
        Rotation { c, s }
    }

    /// Returns the cosine of the rotation's angle.
    pub fn cos(&self) -> (r: i64)
        ensures
            r == self.ck(),
    {
        self.c
    }

    /// Returns the sine of the rotation's angle.
    pub fn sin(&self) -> (r: i64)
        ensures
            r == self.sk(),
    {
        self.s
    }

    /// The rotation by the opposite angle, which undoes this one.
    pub fn inverse(&self) -> (r: Self)
        requires
            self.wf(),
        ensures
            r.wf(),
            r.ck() == self.ck(),
            r.sk() == -self.sk(),
    {
        proof {
            self.lemma_components_small();
            assert(self.ck() * self.ck() + (-self.sk()) * (-self.sk()) == 1) by (nonlinear_arith)
                requires
                    self.ck() * self.ck() + self.sk() * self.sk() == 1,
            ;
        }
        Rotation { c: self.c, s: -self.s }
    }
}

} // verus!
