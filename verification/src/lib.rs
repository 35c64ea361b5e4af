//! Host-side core of a small OpenGL particle demo.
//!
//! Nothing in this crate talks to a GPU. Every operation is a function from
//! plain values to plain values: it returns the OpenGL calls to issue, as
//! [`gl_call::GlCall`] values, and where the next decision depends on what the
//! driver answers it takes that answer as a [`gl_call::GlReply`]. The caller
//! owns the context and performs the calls.

pub mod context;
pub mod conversation;
pub mod definitions;
pub mod engine;
pub mod extensions;
pub mod gl_call;
pub mod gl_check;
pub mod gl_types;
pub mod input;
pub mod objects;
pub mod particles;
pub mod program;
pub mod traits;
