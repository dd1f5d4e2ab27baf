//! Host-side orchestration of a DQCsim simulation: the accelerator run-state
//! machine, the host/accelerator message queues, plugin pipeline wiring and
//! side-channel command dispatch.

pub mod error;
pub mod log;
pub mod ctypes;
pub mod configuration;
pub mod types;
pub mod state;
pub mod host;
pub mod protocol;
pub mod plugin;
pub mod pipeline;
pub mod simulation;
pub mod wiring;
