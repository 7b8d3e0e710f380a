//! Named shared-memory segments: the decisions behind creating, registering
//! and tearing down OS-backed segments, together with the frame buffer,
//! input mapping and audio configuration choice of the emulator front end
//! that hands such memory out.

pub mod naming;
pub mod registry;
pub mod manager;
pub mod display;
pub mod audio;
