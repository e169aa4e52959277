//! The Wi-Fi access point through which the rig is reached in the field.
//!
//! Bringing the access point up or down is the work of the platform's own
//! tools. What is decided here is which steps that takes.

pub mod linux;
pub mod pattern;
pub mod windows;
