//! The things that are drawn.

pub mod mesh_renderer;
pub mod particle_system;
