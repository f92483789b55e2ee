//! Build-phase logic of a buildpack that installs a function runtime, detects
//! the single function of a project and describes how to launch it.
//!
//! Every decision the phase makes is a verified function of this crate; the
//! program around it performs the downloads, spawns the detector and talks to
//! the platform.
use vstd::prelude::*;

pub mod fingerprint;
pub mod toml_doc;
pub mod layer;
pub mod provision;
pub mod text;
pub mod detect;
pub mod launch;
pub mod log;
