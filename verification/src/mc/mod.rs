//! The Monte-Carlo transport core: geometry, particles, sources, and the
//! experiment-driven transport engine.

pub mod experiment;
pub mod geometry;
pub mod particle;
pub mod source;

pub use experiment::{
    classify_event, simulate_particle, BeamLine, Collimator, Event, Experiment, FreePath,
    Material, ParticleStatus,
};
pub use geometry::{Direction, Point, Rotation};
pub use particle::{Error, Photon};
pub use source::{EastPointingSource, SimpleSource, Source};
