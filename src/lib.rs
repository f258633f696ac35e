//! Real-time execution core: a fixed-timestep frame scheduler, an
//! edge-triggered keyboard state machine, and the orchestration that binds
//! them to a platform event source and a canvas.
pub mod demo;
pub mod engine;
