//! Orchestration logic for a stereoscopic camera rig.
//!
//! The rig is idle, streams a low-latency stereo preview, or records both
//! sensors to disk. This crate holds the decisions: the configuration model,
//! the processing graphs that each mode asks for, the protocol that retires
//! a running graph, and the actor that sequences all of it. Performing the
//! media work itself is left to the embedding program.

pub mod camera;
pub mod frontend;
pub mod hotspot;
