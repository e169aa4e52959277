//! The camera orchestrator and its parts.

pub mod actor;
pub mod actor_laws;
pub mod clock;
pub mod configuration;
pub mod factory;
pub mod factory_laws;
pub mod graph;
pub mod retire;
pub mod text;

pub use actor::{CameraActor, CameraActorMessage, CameraState};
pub use configuration::{Configuration, NullableConfiguration};
