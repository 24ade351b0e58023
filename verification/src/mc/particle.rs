//! The particle that is transported: a photon.

use vstd::prelude::*;
use crate::mc::geometry::{rot_x, rot_y, Direction, Point, Rotation};

verus! {

broadcast use crate::mc::geometry::lemma_point_in_range;

/// Type that represents a photon ("light particle").
///
/// Photons, according to this simulation program, have three properties:
/// a location, a direction, and a positive energy.  A photon is created
/// by some source, travels in its direction for a while, and interacts
/// with the medium: scattering may change its direction and energy,
/// absorption ends its lifecycle.
#[derive(Debug)]
pub struct Photon {
    location: Point,
    direction: Direction,
    energy: i64,
}

/// The error type returned by the moving functions of `Photon`.
#[derive(Clone, Copy, Debug, PartialEq, Eq, Structural)]
pub enum Error {
    /// A move was requested that needs backward or undefined motion.
    WrongDirection,
}

impl Photon {
    /// The photon's location.
    pub closed spec fn loc(self) -> Point {
        self.location
    }

    /// The photon's direction.
    pub closed spec fn dir(self) -> Direction {
        self.direction
    }

    /// The photon's energy on the mathematical model.
    pub closed spec fn energy_k(self) -> int {
        self.energy as int
    }

    /// A photon carries a unit direction and a positive energy.
    pub open spec fn wf(self) -> bool {
        self.dir().wf() && self.energy_k() >= 1
    }

    /// Creates a new photon with the given properties.
    pub fn new(location: Point, direction: Direction, energy: i64) -> (r: Self)
        requires
            direction.wf(),
            energy >= 1,
        ensures
            r.wf(),
            r.loc() == location,
            r.dir() == direction,
            r.energy_k() == energy,
    {
        Photon { location, direction, energy }
    }

    /// Immutably borrows the location of the photon.
    pub fn location(&self) -> (r: &Point)
        ensures
            *r == self.loc(),
    {
        &self.location
    }

    /// Immutably borrows the direction of the photon.
    pub fn direction(&self) -> (r: &Direction)
        ensures
            *r == self.dir(),
    {
        &self.direction
    }

    /// Returns the energy of the photon.
    pub fn energy(&self) -> (r: i64)
        ensures
            r == self.energy_k(),
    {
        self.energy
    }

    /// Rotates the direction of the photon; its location and energy are
    /// untouched.
    pub fn rotate(&mut self, by: &Rotation)
        requires
            old(self).wf(),
            by.wf(),
        ensures
            final(self).wf(),
            final(self).loc() == old(self).loc(),
            final(self).energy_k() == old(self).energy_k(),
            final(self).dir().dxk() == rot_x(
                old(self).dir().dxk(),
                old(self).dir().dyk(),
                by.ck(),
                by.sk(),
            ),
            final(self).dir().dyk() == rot_y(
                old(self).dir().dxk(),
                old(self).dir().dyk(),
                by.ck(),
                by.sk(),
            ),
    {
        self.direction.rotate(by);
    }

    /// Sets the energy of the photon to a new value.
    pub fn set_energy(&mut self, energy: i64)
        requires
            old(self).wf(),
            energy >= 1,
        ensures
            final(self).wf(),
            final(self).loc() == old(self).loc(),
            final(self).dir() == old(self).dir(),
            final(self).energy_k() == energy,
    {
        self.energy = energy;
    }

    /// Moves the photon for a given length into its current direction.
    ///
    /// This updates the photon's location and leaves its other
    /// parameters untouched.  A length of zero or less fails with
    /// [`Error::WrongDirection`] and moves nothing.
    pub fn step(&mut self, length: i64) -> (r: Result<(), Error>)
        requires
            old(self).wf(),
            length > 0 ==> i64::MIN <= old(self).loc().xk() + old(self).dir().dxk() * length
                <= i64::MAX && i64::MIN <= old(self).loc().yk() + old(self).dir().dyk() * length
                <= i64::MAX,
        ensures
            final(self).wf(),
            final(self).dir() == old(self).dir(),
            final(self).energy_k() == old(self).energy_k(),
            length <= 0 ==> r is Err && *final(self) == *old(self),
            length > 0 ==> r is Ok && final(self).loc().xk() == old(self).loc().xk() + old(
                self,
            ).dir().dxk() * length && final(self).loc().yk() == old(self).loc().yk() + old(
                self,
            ).dir().dyk() * length,
    {
        if length > 0 {
            self.location.step(&self.direction, length);
            Ok(())
        } else {
            Err(Error::WrongDirection)
        }
    }

    /// Moves the photon into its current direction until it reaches a
    /// certain value on the X-axis.
    ///
    /// This fails with [`Error::WrongDirection`], and moves nothing, if
    /// the given value cannot be reached: the photon's direction points
    /// away from it or runs parallel to the Y-axis.
    pub fn go_to_x(&mut self, x: i64) -> (r: Result<(), Error>)
        requires
            old(self).wf(),
            -i64::MAX <= x - old(self).loc().xk() <= i64::MAX,
        ensures
            final(self).wf(),
            final(self).dir() == old(self).dir(),
            final(self).energy_k() == old(self).energy_k(),
            r is Ok <==> (x - old(self).loc().xk()) * old(self).dir().dxk() > 0,
            r is Ok ==> final(self).loc().xk() == x && final(self).loc().yk() == old(
                self,
            ).loc().yk(),
            r is Err ==> *final(self) == *old(self),
    {
        let dxv = x - self.location.x();
        let dirx = self.direction.dx();
        if dirx == 0 {
            proof {
                assert((x - self.loc().xk()) * self.dir().dxk() == 0) by (nonlinear_arith)
                    requires
                        self.dir().dxk() == 0,
                ;
            }
            return Err(Error::WrongDirection);
        }
        proof {
            self.direction.lemma_components_small();
            assert(self.dir().dyk() == 0) by (nonlinear_arith)
                requires
                    self.dir().dxk() * self.dir().dxk() + self.dir().dyk() * self.dir().dyk()
                        == 1,
                    self.dir().dxk() == 1 || self.dir().dxk() == -1,
            ;
        }
        let scale = if dirx == 1 {
            dxv
        } else {
            -dxv
        };
        proof {
            let dk = self.dir().dxk();
            assert(dk * (scale as int) == dxv as int && (dxv as int) * dk == (scale as int) && (
            self.dir().dyk()) * (scale as int) == 0) by (nonlinear_arith)
                requires
                    self.dir().dyk() == 0,
                    (dk == 1 && scale == dxv) || (dk == -1 && scale as int == -(dxv as int)),
            ;
        }
        self.step(scale)
    }

    /// Moves the photon into its current direction until it reaches a
    /// certain value on the Y-axis.
    ///
    /// This fails with [`Error::WrongDirection`], and moves nothing, if
    /// the given value cannot be reached: the photon's direction points
    /// away from it or runs parallel to the X-axis.
    pub fn go_to_y(&mut self, y: i64) -> (r: Result<(), Error>)
        requires
            old(self).wf(),
            -i64::MAX <= y - old(self).loc().yk() <= i64::MAX,
        ensures
            final(self).wf(),
            final(self).dir() == old(self).dir(),
            final(self).energy_k() == old(self).energy_k(),
            r is Ok <==> (y - old(self).loc().yk()) * old(self).dir().dyk() > 0,
            r is Ok ==> final(self).loc().yk() == y && final(self).loc().xk() == old(
                self,
            ).loc().xk(),
            r is Err ==> *final(self) == *old(self),
    {
        let dyv = y - self.location.y();
        let diry = self.direction.dy();
        if diry == 0 {
            proof {
                assert((y - self.loc().yk()) * self.dir().dyk() == 0) by (nonlinear_arith)
                    requires
                        self.dir().dyk() == 0,
                ;
            }
            return Err(Error::WrongDirection);
        }
        proof {
            self.direction.lemma_components_small();
            assert(self.dir().dxk() == 0) by (nonlinear_arith)
                requires
                    self.dir().dxk() * self.dir().dxk() + self.dir().dyk() * self.dir().dyk()
                        == 1,
                    self.dir().dyk() == 1 || self.dir().dyk() == -1,
            ;
        }
        let scale = if diry == 1 {
            dyv
        } else {
            -dyv
        };
        proof {
            let dk = self.dir().dyk();
            assert(dk * (scale as int) == dyv as int && (dyv as int) * dk == (scale as int) && (
            self.dir().dxk()) * (scale as int) == 0) by (nonlinear_arith)
                requires
                    self.dir().dxk() == 0,
                    (dk == 1 && scale == dyv) || (dk == -1 && scale as int == -(dyv as int)),
            ;
        }
        self.step(scale)
    }
}

} // verus!
