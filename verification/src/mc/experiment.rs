//! The experiment description and the transport engine.
//!
//! An [`Experiment`] describes a setup: which material fills the plane
//! where, which free-path law and which interactions each material has.
//! [`simulate_particle`] drives photons from the experiment's source
//! through the setup until one is detected.

use vstd::prelude::*;
use crate::contains::Contains;
use crate::mc::geometry::{is_step_by, moved_along, step_in_plane, Point, Rotation};
use crate::mc::particle::Photon;
use crate::mc::source::{EastPointingSource, Source};
use crate::sample::RandomSource;

verus! {

broadcast use crate::mc::geometry::lemma_point_in_range;

/// The type of all materials that can exist at a given point.
#[derive(Clone, Copy, Debug, PartialEq, Eq, Structural)]
pub enum Material {
    /// A non-interactive material.
    Air,
    /// A highly absorbing material.
    Absorber,
    /// A material that can detect photons.
    Detector,
}

/// The type returned by [`Experiment::get_mean_free_path`].
#[derive(Clone, Copy, Debug, PartialEq, Eq, Structural)]
pub enum FreePath {
    /// The free path should always be this exact value.
    Fix(i64),
    /// The free path should follow an exponential-like law with the
    /// given mean.
    Exp(i64),
}

impl FreePath {
    /// A fixed path is never negative; the mean of a drawn path is
    /// positive and small enough to draw from.
    pub open spec fn wf(self) -> bool {
        match self {
            FreePath::Fix(l) => l >= 0,
            FreePath::Exp(m) => 1 <= m <= 0x2000_0000_0000_0000,
        }
    }
}

/// The type of all possible outcomes of an interaction.
#[derive(Clone, Copy, Debug, PartialEq, Eq, Structural)]
pub enum Event {
    /// No interaction occurred.
    Nothing,
    /// Coherent scattering occurred.
    CoherentScatter,
    /// Incoherent scattering occurred.
    IncoherentScatter,
    /// The photon was absorbed.
    Absorbed,
}

/// The outcome of one transport step.
#[derive(Clone, Copy, Debug, PartialEq, Eq, Structural)]
pub enum ParticleStatus {
    /// The particle has been lost, e.g. due to absorption.
    Lost,
    /// The particle is still propagating through the experiment.
    Propagating,
    /// The particle has been absorbed by the detector material.
    Detected,
}

/// The status a drawn event resolves to at a given material: no
/// interaction and both kinds of scattering keep the photon
/// propagating; absorption detects it exactly in detector material and
/// loses it everywhere else.
pub open spec fn classify_event_spec(material: Material, event: Event) -> ParticleStatus {
    match event {
        Event::Nothing => ParticleStatus::Propagating,
        Event::CoherentScatter => ParticleStatus::Propagating,
        Event::IncoherentScatter => ParticleStatus::Propagating,
        Event::Absorbed => if material == Material::Detector {
            ParticleStatus::Detected
        } else {
            ParticleStatus::Lost
        },
    }
}

/// Resolves a drawn event at the material it was drawn in into the
/// particle's status.
pub fn classify_event(material: Material, event: Event) -> (st: ParticleStatus)
    ensures
        st == classify_event_spec(material, event),
{
    match event {
        Event::Nothing => ParticleStatus::Propagating,
        Event::CoherentScatter => ParticleStatus::Propagating,
        Event::IncoherentScatter => ParticleStatus::Propagating,
        Event::Absorbed => {
            match material {
                Material::Detector => ParticleStatus::Detected,
                _ => ParticleStatus::Lost,
            }
        },
    }
}

/// The trait of all types that describe an experiment.
///
/// This trait provides an interface through which [`simulate_particle`]
/// may query the information that is necessary to correctly simulate a
/// particle's path through the setup.
pub trait Experiment<R: RandomSource> {
    type Source: Source<R>;

    /// The X-coordinate at which the experiment begins.
    spec fn x_start_spec(&self) -> int;

    /// The material at each point of the plane.
    spec fn material_spec(&self, x: int, y: int) -> Material;

    /// The free-path law at each material and energy.
    spec fn free_path_spec(&self, material: Material, energy: int) -> FreePath;

    /// Returns a reference to the photon source of the experiment.
    ///
    /// By design, this trait currently allows only one source to be
    /// used.
    fn source(&self) -> &Self::Source;

    /// Returns the X-coordinate at which the experiment begins.
    ///
    /// This trait assumes that the particle source lies somewhere to the
    /// left and particles enter the setup from this side; the purpose of
    /// `x_start` is to filter out particles that move away from the
    /// experiment as early as possible.
    fn x_start(&self) -> (r: i64)
        ensures
            r as int == self.x_start_spec(),
    ;

    /// Describes the setup of the experiment: the material of the object
    /// that takes up space at any given location.
    fn get_material(&self, location: &Point) -> (m: Material)
        ensures
            m == self.material_spec(location.xk(), location.yk()),
    ;

    /// Returns the free-path law associated with a material, which may
    /// depend on the particle's energy.
    fn get_mean_free_path(&self, material: Material, energy: i64) -> (fp: FreePath)
        requires
            energy >= 1,
        ensures
            fp.wf(),
            fp == self.free_path_spec(material, energy as int),
    ;

    /// Randomly decides what kind of interaction with the medium occurs,
    /// if any.  This decision may depend on the medium's material, the
    /// particle's energy, and a source of randomness.
    fn gen_event(&self, material: Material, energy: i64, rng: &mut R) -> Event
        requires
            energy >= 1,
    ;

    /// Returns a random rotation due to elastic scattering.  The results
    /// should be distributed symmetrically around the unrotated
    /// direction.
    fn gen_coherent_scatter(&self, material: Material, energy: i64, rng: &mut R) -> (r: Rotation)
        requires
            energy >= 1,
        ensures
            r.wf(),
    ;

    /// Returns the result of an inelastic-scattering event: by which
    /// rotation the particle is scattered *and* its new, still positive
    /// energy.
    fn gen_incoherent_scatter(&self, material: Material, energy: i64, rng: &mut R) -> (r: (
        Rotation,
        i64,
    ))
        requires
            energy >= 1,
        ensures
            r.0.wf(),
            r.1 >= 1,
    ;
}

/// Simulates a single photon passing through an experiment.
///
/// This creates photons at the experiment's source and simulates their
/// paths through the experiment; photons that get lost on the way are
/// replaced by fresh ones.  The first photon to reach the detector and
/// be absorbed there is returned: it lies in detector material on or
/// beyond the start line.  `budget` bounds the total number of emissions
/// and transport steps; if it runs out before any photon is detected —
/// which, for a well-configured experiment, is probabilistically
/// ever-rarer as the budget grows — `None` is reported.
pub fn simulate_particle<E: Experiment<R>, R: RandomSource>(exp: &E, rng: &mut R, budget: u64) -> (r:
    Option<Photon>)
    ensures
        match r {
            Some(p) => p.wf() && p.loc().xk() >= exp.x_start_spec() && exp.material_spec(
                p.loc().xk(),
                p.loc().yk(),
            ) == Material::Detector,
            None => true,
        },
{
    let mut remaining: u64 = budget;
    while remaining > 0
        decreases remaining,
    {
        let ghost entry = remaining;
        remaining = remaining - 1;
        // Get a photon.
        let mut photon = exp.source().emit_photon(rng);
        // Make sure it's headed towards the experiment.
        let x_start = exp.x_start();
        let reachable = match x_start.checked_sub(photon.location().x()) {
            Some(d) => d != i64::MIN,
            None => false,
        };
        if !reachable {
            continue ;
        }
        if photon.go_to_x(x_start).is_err() {
            continue ;
        }
        // Propagate it until it hits the detector or gets lost.  If it
        // gets detected, the function is done; otherwise a fresh photon
        // is emitted.
        while remaining > 0
            invariant_except_break
                photon.wf(),
                photon.loc().xk() >= exp.x_start_spec(),
                remaining < entry,
            ensures
                remaining < entry,
            decreases remaining,
        {
            remaining = remaining - 1;
            match propagate(exp, &mut photon, rng) {
                ParticleStatus::Propagating => {},
                ParticleStatus::Detected => {
                    return Some(photon);
                },
                ParticleStatus::Lost => {
                    break ;
                },
            }
        }
    }
    None
}

/// Private function that iterates a particle by one time step.
///
/// This samples the free path of the particle and moves it by this
/// distance — except that a fixed free path of zero resolves the
/// interaction in place, without motion, and a step that would leave the
/// representable region of the plane loses the particle.  Then an
/// interaction with the medium is simulated: the particle may scatter,
/// be absorbed, or go on unhindered.  The return value classifies the
/// drawn event as [`classify_event`] does; the photon only ever moves
/// forward along its incoming direction, unless the particle keeps
/// propagating its direction and energy are untouched, unless it is
/// lost it lies on or beyond the start line, and a detected particle
/// lies in detector material.
fn propagate<E: Experiment<R>, R: RandomSource>(exp: &E, photon: &mut Photon, rng: &mut R) -> (st:
    ParticleStatus)
    requires
        old(photon).wf(),
    ensures
        final(photon).wf(),
        moved_along(old(photon).loc(), old(photon).dir(), final(photon).loc()),
        st != ParticleStatus::Propagating ==> final(photon).dir() == old(photon).dir()
            && final(photon).energy_k() == old(photon).energy_k(),
        st != ParticleStatus::Lost ==> final(photon).loc().xk() >= exp.x_start_spec(),
        st == ParticleStatus::Detected ==> exp.material_spec(
            final(photon).loc().xk(),
            final(photon).loc().yk(),
        ) == Material::Detector,
        (match exp.free_path_spec(
            exp.material_spec(old(photon).loc().xk(), old(photon).loc().yk()),
            old(photon).energy_k(),
        ) {
            FreePath::Fix(l) => {
                &&& (l == 0 ==> final(photon).loc() == old(photon).loc())
                &&& (0 < l && step_in_plane(old(photon).loc(), old(photon).dir(), l as int)
                    ==> is_step_by(old(photon).loc(), old(photon).dir(), final(photon).loc(), l as int))
            },
            FreePath::Exp(_) => true,
        }),
{
    let ghost start = old(photon).loc();
    let ghost heading = old(photon).dir();
    // Move the particle by one free path.
    let material = exp.get_material(photon.location());
    let scale: i64 = match exp.get_mean_free_path(material, photon.energy()) {
        FreePath::Fix(s) => s,
        FreePath::Exp(mean) => rng.exponential(mean),
    };
    if scale > 0 {
        proof {
            photon.dir().lemma_components_small();
        }
        let dirx = photon.direction().dx();
        let diry = photon.direction().dy();
        let sx: i64 = if dirx == 1 {
            scale
        } else if dirx == -1 {
            -scale
        } else {
            0
        };
        let sy: i64 = if diry == 1 {
            scale
        } else if diry == -1 {
            -scale
        } else {
            0
        };
        proof {
            let dk = photon.dir().dxk();
            let ek = photon.dir().dyk();
            assert(dk * (scale as int) == sx as int && ek * (scale as int) == sy as int)
                by (nonlinear_arith)
                requires
                    (dk == 1 && sx == scale) || (dk == -1 && sx as int == -(scale as int)) || (dk
                        == 0 && sx == 0),
                    (ek == 1 && sy == scale) || (ek == -1 && sy as int == -(scale as int)) || (ek
                        == 0 && sy == 0),
            ;
        }
        let inside = photon.location().x().checked_add(sx).is_some()
            && photon.location().y().checked_add(sy).is_some();
        if !inside {
            // The step leaves the representable region of the plane,
            // which lies beyond every detector.
            proof {
                assert(photon.dir().dxk() * 0 == 0 && photon.dir().dyk() * 0 == 0);
                assert(is_step_by(start, heading, photon.loc(), 0));
                assert(!step_in_plane(start, heading, scale as int));
            }
            return ParticleStatus::Lost;
        }
        let moved = photon.step(scale);
        proof {
            assert(moved is Ok);
            assert(is_step_by(start, heading, photon.loc(), scale as int));
        }
    } else {
        proof {
            assert(photon.dir().dxk() * 0 == 0 && photon.dir().dyk() * 0 == 0);
            assert(is_step_by(start, heading, photon.loc(), 0));
        }
    }
    proof {
        assert(moved_along(start, heading, photon.loc()));
    }
    // If it left the experiment, stop.
    if photon.location().x() < exp.x_start() {
        return ParticleStatus::Lost;
    }
    // Find the next interaction at the new location, resolve its kind,
    // and apply what scattering does to the photon.
    let material = exp.get_material(photon.location());
    let event = exp.gen_event(material, photon.energy(), rng);
    match event {
        Event::CoherentScatter => {
            let angle = exp.gen_coherent_scatter(material, photon.energy(), rng);
            photon.rotate(&angle);
        },
        Event::IncoherentScatter => {
            let (angle, energy) = exp.gen_incoherent_scatter(material, photon.energy(), rng);
            photon.rotate(&angle);
            photon.set_energy(energy);
        },
        _ => {},
    }
    classify_event(material, event)
}

/// A minimal beam line: open air from the start line up to a detector
/// wall at a fixed X-coordinate.  Air never interacts and propagates
/// photons with a drawn free path; the detector wall absorbs — and so
/// detects — immediately, with a fixed free path of zero.
pub struct BeamLine {
    source: EastPointingSource,
    x_start: i64,
    detector_x: i64,
    air_mean_free_path: i64,
}

impl BeamLine {
    /// The X-coordinate at which the beam line begins.
    pub closed spec fn x_start_of(self) -> int {
        self.x_start as int
    }

    /// The X-coordinate of the detector wall.
    pub closed spec fn detector_x_of(self) -> int {
        self.detector_x as int
    }

    /// The mean free path of the air before the wall.
    pub closed spec fn air_mean_free_path_of(self) -> i64 {
        self.air_mean_free_path
    }

    #[verifier::type_invariant]
    spec fn type_inv(self) -> bool {
        1 <= self.air_mean_free_path <= 0x2000_0000_0000_0000
    }

    /// The free-path law of each material: the detector wall resolves
    /// interactions in place, and the air before it draws a path around
    /// its mean free path.
    pub fn mean_free_path_for(&self, material: Material) -> (fp: FreePath)
        ensures
            fp == (match material {
                Material::Detector => FreePath::Fix(0),
                _ => FreePath::Exp(self.air_mean_free_path_of()),
            }),
            fp.wf(),
    {
        proof {
            use_type_invariant(&*self);
        }
        match material {
            Material::Detector => FreePath::Fix(0),
            _ => FreePath::Exp(self.air_mean_free_path),
        }
    }

    /// Creates a beam line from a source, the start line, the detector
    /// wall, and the mean free path of the air in between.
    pub fn new(source: EastPointingSource, x_start: i64, detector_x: i64, air_mean_free_path: i64) -> (r:
        Self)
        requires
            1 <= air_mean_free_path <= 0x2000_0000_0000_0000,
        ensures
            r.x_start_of() == x_start,
            r.detector_x_of() == detector_x,
    {
        BeamLine { source, x_start, detector_x, air_mean_free_path }
    }
}

impl<R: RandomSource> Experiment<R> for BeamLine {
    type Source = EastPointingSource;

    open spec fn x_start_spec(&self) -> int {
        self.x_start_of()
    }

    open spec fn free_path_spec(&self, material: Material, energy: int) -> FreePath {
        match material {
            Material::Detector => FreePath::Fix(0),
            _ => FreePath::Exp(self.air_mean_free_path_of()),
        }
    }

    open spec fn material_spec(&self, x: int, y: int) -> Material {
        if x >= self.detector_x_of() {
            Material::Detector
        } else {
            Material::Air
        }
    }

    fn source(&self) -> &EastPointingSource {
        &self.source
    }

    fn x_start(&self) -> i64 {
        self.x_start
    }

    fn get_material(&self, location: &Point) -> Material {
        if location.x() >= self.detector_x {
            Material::Detector
        } else {
            Material::Air
        }
    }

    fn get_mean_free_path(&self, material: Material, energy: i64) -> FreePath {
        self.mean_free_path_for(material)
    }

    fn gen_event(&self, material: Material, energy: i64, rng: &mut R) -> (r: Event)
        ensures
            r == (match material {
                Material::Detector => Event::Absorbed,
                _ => Event::Nothing,
            }),
    {
        match material {
            Material::Detector => Event::Absorbed,
            _ => Event::Nothing,
        }
    }

    fn gen_coherent_scatter(&self, material: Material, energy: i64, rng: &mut R) -> (r: Rotation)
        ensures
            r.ck() == 1,
            r.sk() == 0,
    {
        Rotation::new(1, 0)
    }

    fn gen_incoherent_scatter(&self, material: Material, energy: i64, rng: &mut R) -> (r: (
        Rotation,
        i64,
    ))
        ensures
            r.0.ck() == 1,
            r.0.sk() == 0,
            r.1 == energy,
    {
        (Rotation::new(1, 0), energy)
    }
}

/// The photon energy the collimator assigns after an incoherent
/// scatter with angle cosine `mu`: the Compton energy, floored at one
/// so that the photon stays alive, with energies beyond the formulas'
/// range passed through unchanged.
pub open spec fn scattered_energy(energy: int, mu: int) -> int {
    if energy > crate::crosssection::MAX_ENERGY as int {
        energy
    } else if crate::crosssection::compton_spec(energy, mu) == 0 {
        1
    } else {
        crate::crosssection::compton_spec(energy, mu)
    }
}

/// A collimator study: a slab with a hole sits between the start line
/// and a detector wall.  Photons through the hole fly on in air; those
/// that hit the slab scatter coherently or incoherently, or are
/// absorbed, drawn by fixed process weights.
pub struct Collimator {
    source: EastPointingSource,
    x_start: i64,
    slab_x: (i64, i64),
    hole_y: (i64, i64),
    detector_x: i64,
    air_step: i64,
    slab_mean_free_path: i64,
    coherent_weight: i64,
    incoherent_weight: i64,
    absorption_weight: i64,
}

impl Collimator {
    /// The X-coordinate at which the study begins.
    pub closed spec fn x_start_of(self) -> int {
        self.x_start as int
    }

    /// The X-coordinate of the detector wall; the detector fills the
    /// plane strictly beyond it.
    pub closed spec fn detector_x_of(self) -> int {
        self.detector_x as int
    }

    /// The slab's X-span.
    pub closed spec fn slab_x_of(self) -> (int, int) {
        (self.slab_x.0 as int, self.slab_x.1 as int)
    }

    /// The hole's Y-span.
    pub closed spec fn hole_y_of(self) -> (int, int) {
        (self.hole_y.0 as int, self.hole_y.1 as int)
    }

    /// The fixed step photons take through air.
    pub closed spec fn air_step_of(self) -> i64 {
        self.air_step
    }

    /// The mean free path inside the slab.
    pub closed spec fn slab_mean_free_path_of(self) -> i64 {
        self.slab_mean_free_path
    }

    /// The relative rate of coherent scattering in the slab.
    pub closed spec fn coherent_weight_of(self) -> i64 {
        self.coherent_weight
    }

    /// The relative rate of incoherent scattering in the slab.
    pub closed spec fn incoherent_weight_of(self) -> i64 {
        self.incoherent_weight
    }

    /// The relative rate of absorption in the slab.
    pub closed spec fn absorption_weight_of(self) -> i64 {
        self.absorption_weight
    }

    #[verifier::type_invariant]
    spec fn type_inv(self) -> bool {
        &&& 1 <= self.air_step
        &&& 1 <= self.slab_mean_free_path <= 0x2000_0000_0000_0000
        &&& 0 <= self.coherent_weight
        &&& 0 <= self.incoherent_weight
        &&& 0 <= self.absorption_weight
        &&& 1 <= self.coherent_weight + self.incoherent_weight + self.absorption_weight
            <= i64::MAX
    }

    /// Creates a collimator study.
    ///
    /// The slab spans `slab_x` with a hole over `hole_y`; the three
    /// weights give the relative rates of coherent scattering,
    /// incoherent scattering, and absorption in the slab, and at least
    /// one of them must be positive.
    pub fn new(
        source: EastPointingSource,
        x_start: i64,
        slab_x: (i64, i64),
        hole_y: (i64, i64),
        detector_x: i64,
        air_step: i64,
        slab_mean_free_path: i64,
        weights: (i64, i64, i64),
    ) -> (r: Self)
        requires
            1 <= air_step,
            1 <= slab_mean_free_path <= 0x2000_0000_0000_0000,
            0 <= weights.0,
            0 <= weights.1,
            0 <= weights.2,
            1 <= weights.0 + weights.1 + weights.2 <= i64::MAX,
        ensures
            r.x_start_of() == x_start,
            r.detector_x_of() == detector_x,
            r.slab_x_of() == (slab_x.0 as int, slab_x.1 as int),
            r.hole_y_of() == (hole_y.0 as int, hole_y.1 as int),
    {
        Collimator {
            source,
            x_start,
            slab_x,
            hole_y,
            detector_x,
            air_step,
            slab_mean_free_path,
            coherent_weight: weights.0,
            incoherent_weight: weights.1,
            absorption_weight: weights.2,
        }
    }

    /// The free-path law of each material: the detector wall resolves
    /// interactions in place, air passes photons on in fixed steps, and
    /// the slab draws a path around its mean free path.
    pub fn mean_free_path_for(&self, material: Material) -> (fp: FreePath)
        ensures
            fp == (match material {
                Material::Detector => FreePath::Fix(0),
                Material::Air => FreePath::Fix(self.air_step_of()),
                Material::Absorber => FreePath::Exp(self.slab_mean_free_path_of()),
            }),
            fp.wf(),
    {
        proof {
            use_type_invariant(&*self);
        }
        match material {
            Material::Detector => FreePath::Fix(0),
            Material::Air => FreePath::Fix(self.air_step),
            Material::Absorber => FreePath::Exp(self.slab_mean_free_path),
        }
    }

    /// Draws which process takes place in the slab, each with
    /// probability proportional to its weight; the drawn process always
    /// has a positive weight.
    fn choose_slab_process<R: RandomSource>(&self, rng: &mut R) -> (r: Event)
        ensures
            match r {
                Event::CoherentScatter => self.coherent_weight_of() > 0,
                Event::IncoherentScatter => self.incoherent_weight_of() > 0,
                Event::Absorbed => self.absorption_weight_of() > 0,
                Event::Nothing => false,
            },
    {
        proof {
            use_type_invariant(&*self);
        }
        let weights = vec![self.coherent_weight, self.incoherent_weight, self.absorption_weight];
        proof {
            let ws = crate::sample::int_values(weights@);
            assert(ws =~= seq![
                self.coherent_weight as int,
                self.incoherent_weight as int,
                self.absorption_weight as int,
            ]);
            assert(ws.drop_last() =~= seq![
                self.coherent_weight as int,
                self.incoherent_weight as int,
            ]);
            assert(ws.drop_last().drop_last() =~= seq![self.coherent_weight as int]);
            assert(ws.drop_last().drop_last().drop_last() =~= Seq::<int>::empty());
            assert(crate::sample::sum_of(Seq::<int>::empty()) == 0);
            assert(crate::sample::sum_of(ws.drop_last().drop_last()) == self.coherent_weight);
            assert(crate::sample::sum_of(ws.drop_last()) == self.coherent_weight
                + self.incoherent_weight);
            assert(crate::sample::sum_of(ws) == self.coherent_weight + self.incoherent_weight
                + self.absorption_weight);
        }
        match crate::sample::weighted_choice(rng, &weights) {
            0 => Event::CoherentScatter,
            1 => Event::IncoherentScatter,
            _ => Event::Absorbed,
        }
    }
}

impl<R: RandomSource> Experiment<R> for Collimator {
    type Source = EastPointingSource;

    open spec fn x_start_spec(&self) -> int {
        self.x_start_of()
    }

    open spec fn free_path_spec(&self, material: Material, energy: int) -> FreePath {
        match material {
            Material::Detector => FreePath::Fix(0),
            Material::Air => FreePath::Fix(self.air_step_of()),
            Material::Absorber => FreePath::Exp(self.slab_mean_free_path_of()),
        }
    }

    open spec fn material_spec(&self, x: int, y: int) -> Material {
        if self.slab_x_of().0 <= x <= self.slab_x_of().1 && !(self.hole_y_of().0 <= y
            <= self.hole_y_of().1) {
            Material::Absorber
        } else if x > self.detector_x_of() {
            Material::Detector
        } else {
            Material::Air
        }
    }

    fn source(&self) -> &EastPointingSource {
        &self.source
    }

    fn x_start(&self) -> i64 {
        self.x_start
    }

    fn get_material(&self, location: &Point) -> Material {
        let (x, y) = location.to_tuple();
        if self.slab_x.contains(x) && !self.hole_y.contains(y) {
            Material::Absorber
        } else if x > self.detector_x {
            Material::Detector
        } else {
            Material::Air
        }
    }

    fn get_mean_free_path(&self, material: Material, energy: i64) -> FreePath {
        self.mean_free_path_for(material)
    }

    fn gen_event(&self, material: Material, energy: i64, rng: &mut R) -> (r: Event)
        ensures
            match material {
                Material::Detector => r == Event::Absorbed,
                Material::Air => r == Event::Nothing,
                Material::Absorber => (match r {
                    Event::CoherentScatter => self.coherent_weight_of() > 0,
                    Event::IncoherentScatter => self.incoherent_weight_of() > 0,
                    Event::Absorbed => self.absorption_weight_of() > 0,
                    Event::Nothing => false,
                }),
            },
    {
        match material {
            Material::Detector => Event::Absorbed,
            Material::Air => Event::Nothing,
            Material::Absorber => self.choose_slab_process(rng),
        }
    }

    fn gen_coherent_scatter(&self, material: Material, energy: i64, rng: &mut R) -> (r: Rotation)
        ensures
            -1 <= r.ck() <= 1,
    {
        // Elastic scattering turns the photon by an angle whose cosine
        // is drawn over the angular grid, with a random sign.
        let mu = rng.uniform(-1, 2);
        crate::crosssection::rotation_from_mu(mu, rng.coin())
    }

    fn gen_incoherent_scatter(&self, material: Material, energy: i64, rng: &mut R) -> (r: (
        Rotation,
        i64,
    ))
        ensures
            -1 <= r.0.ck() <= 1,
            r.1 as int == scattered_energy(energy as int, r.0.ck()),
    {
        let mu = rng.uniform(-1, 2);
        let rotation = crate::crosssection::rotation_from_mu(mu, rng.coin());
        // The Compton formula needs a representable energy, and the
        // photon must keep a positive one: out-of-range energies pass
        // through, and a fully transferred energy is floored at one.
        let energy_after = if energy > crate::crosssection::MAX_ENERGY {
            energy
        } else {
            let scattered = crate::crosssection::IncoherentCrossSection::compton_scatter(
                energy,
                mu,
            );
            if scattered == 0 {
                1
            } else {
                scattered
            }
        };
        (rotation, energy_after)
    }
}

} // verus!
