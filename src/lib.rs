//! The decisions of a GPU-instanced 2D particle system, stated and proved:
//! when a spawner emits and when it is done (`spawner`), how keyframed
//! curves are ordered and sampled (`curve`, `easing`), how the instances of
//! all spawners share one buffer (`batch`) and which particles a bounding
//! box is measured over (`bounds`); and, for the effect editor, its log
//! pane (`log`), the fingerprint of edited shader text (`checksum`), what a
//! dropped file is taken for (`files`) and split-screen viewports
//! (`camera`).
//!
//! The floating-point kinematics of the particles run outside this crate,
//! which hands them these decisions.
use vstd::prelude::*;

pub mod easing;
pub mod spawner;
pub mod curve;
pub mod batch;
pub mod bounds;
pub mod log;
pub mod checksum;
pub mod camera;
pub mod values;
pub mod files;
