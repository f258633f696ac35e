//! The engine: input, scheduling, canvas capabilities and orchestration.
pub mod canvas;
pub mod error;
pub mod input;
pub mod render_loop;
pub mod state;
pub mod world;
