//! Core decision logic of a stereo volume/pan fader.
//!
//! The audio path of the fader multiplies every sample by a gain that is
//! interpolated from precomputed volume and pan curves and ramped linearly
//! across each buffer.  The floating-point arithmetic of that path lives in
//! the surrounding (unverified) plugin shell; this crate verifies the exact
//! decisions around it: which output channel receives which kind of gain,
//! and the text shown to the user for each parameter.

pub mod channels;
pub mod params;
pub mod text;
