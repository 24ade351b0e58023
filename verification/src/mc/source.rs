//! Photon sources.

use vstd::prelude::*;
use crate::mc::geometry::{Direction, Point};
use crate::mc::particle::Photon;
use crate::sample::RandomSource;

verus! {

/// The common trait of all photon sources.
///
/// A source owns a location and an energy; every emitted photon starts
/// there with that energy, pointing in some random direction.
pub trait Source<R: RandomSource> {
    /// The coordinates photons are emitted from.
    spec fn location_spec(&self) -> (int, int);

    /// The energy photons are emitted with.
    spec fn energy_spec(&self) -> int;

    /// Emits a photon at the source's location with the source's energy,
    /// into a random direction.
    fn emit_photon(&self, rng: &mut R) -> (p: Photon)
        ensures
            p.wf(),
            p.loc().xk() == self.location_spec().0,
            p.loc().yk() == self.location_spec().1,
            p.energy_k() == self.energy_spec(),
    ;
}

/// An isotropic point source of monoenergetic photons: every emitted
/// photon points along one of the four axis directions, each drawn with
/// the same probability.
pub struct SimpleSource {
    location: Point,
    energy: i64,
}

impl SimpleSource {
    /// The source's location.
    pub closed spec fn loc_of(self) -> Point {
        self.location
    }

    /// The source's photon energy.
    pub closed spec fn energy_of(self) -> int {
        self.energy as int
    }

    #[verifier::type_invariant]
    spec fn type_inv(self) -> bool {
        self.energy >= 1
    }

    /// Creates a new source at the given location.
    ///
    /// The returned source produces photons of the given energy.
    pub fn new(location: Point, energy: i64) -> (r: Self)
        requires
            energy >= 1,
        ensures
            r.loc_of() == location,
            r.energy_of() == energy,
    {
        Self { location, energy }
    }

    /// Returns the source's location.
    pub fn location(&self) -> (r: &Point)
        ensures
            *r == self.loc_of(),
    {
        &self.location
    }

    /// Returns the energy of the source's photons.
    pub fn energy(&self) -> (r: i64)
        ensures
            r == self.energy_of(),
    {
        self.energy
    }
}

impl<R: RandomSource> Source<R> for SimpleSource {
    open spec fn location_spec(&self) -> (int, int) {
        (self.loc_of().xk(), self.loc_of().yk())
    }

    open spec fn energy_spec(&self) -> int {
        self.energy_of()
    }

    /// Emits a photon into a random axis direction, using `rng` as the
    /// source of randomness.
    fn emit_photon(&self, rng: &mut R) -> Photon {
        proof {
            use_type_invariant(self);
        }
        let q = rng.uniform(0, 4);
        let direction = if q == 0 {
            Direction::new(1, 0)
        } else if q == 1 {
            Direction::new(0, 1)
        } else if q == 2 {
            Direction::new(-1, 0)
        } else {
            Direction::new(0, -1)
        };
        Photon::new(self.location, direction, self.energy)
    }
}

/// Like [`SimpleSource`], but it emits photons only into one hemisphere:
/// that of the positive X-axis.  Hence, this source cannot generate
/// photons going to the left.
pub struct EastPointingSource(SimpleSource);

impl EastPointingSource {
    /// The source's location.
    pub closed spec fn loc_of(self) -> Point {
        self.0.loc_of()
    }

    /// The source's photon energy.
    pub closed spec fn energy_of(self) -> int {
        self.0.energy_of()
    }

    /// Creates a new source at the given location.
    ///
    /// The returned source produces photons of the given energy.
    pub fn new(location: Point, energy: i64) -> (r: Self)
        requires
            energy >= 1,
        ensures
            r.loc_of() == location,
            r.energy_of() == energy,
    {
        EastPointingSource(SimpleSource::new(location, energy))
    }

    /// Returns the source's location.
    pub fn location(&self) -> (r: &Point)
        ensures
            *r == self.loc_of(),
    {
        self.0.location()
    }

    /// Returns the energy of the source's photons.
    pub fn energy(&self) -> (r: i64)
        ensures
            r == self.energy_of(),
    {
        self.0.energy()
    }
}

impl<R: RandomSource> Source<R> for EastPointingSource {
    open spec fn location_spec(&self) -> (int, int) {
        (self.loc_of().xk(), self.loc_of().yk())
    }

    open spec fn energy_spec(&self) -> int {
        self.energy_of()
    }

    /// Emits a photon into a random direction of the eastern hemisphere,
    /// using `rng` as the source of randomness.
    fn emit_photon(&self, rng: &mut R) -> (p: Photon)
        ensures
            p.dir().dxk() >= 0,
    {
        proof {
            use_type_invariant(&self.0);
        }
        let dy = rng.uniform(-1, 2);
        let direction = if dy == 0 {
            Direction::new(1, 0)
        } else if dy == 1 {
            Direction::new(0, 1)
        } else {
            Direction::new(0, -1)
        };
        Photon::new(*self.0.location(), direction, self.0.energy())
    }
}

} // verus!
