//! Decoding of the per-frame command streams that the scene engine hands to
//! its host: operand stacks, camera registry, colour state, and the drawing
//! and measurement operations that the host carries out.
pub mod command;
pub mod frame;
pub mod input;
pub mod laws;
pub mod renderer;
pub mod ui_state;
