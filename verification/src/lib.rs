//! A Monte-Carlo particle-transport toolkit: photons travel through a
//! piecewise-homogeneous 2-D setup and are scattered or absorbed until a
//! detector classifies them, with a generic statistics accumulator and a
//! rejection sampler around it.
//!
//! All quantities are modelled as exact integers; the floating-point
//! front-ends live outside this crate.
#![allow(unused_imports)]

use vstd::prelude::*;

pub mod contains;
pub mod crosssection;
pub mod function;
pub mod histogram;
pub mod integrate;
pub mod mc;
pub mod sample;
pub mod statistics;

pub use contains::Contains;
pub use crosssection::{CoherentCrossSection, IncoherentCrossSection, RejectionSampler};
pub use function::Function;
pub use histogram::Histogram;
pub use integrate::{integrate, Integrate};
pub use sample::{RandomSource, SeededRandom, ThreadRandom};
pub use statistics::{Stat, Statistics};
