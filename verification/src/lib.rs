//! A cached OpenGL renderer: what to tell the driver, and when.
pub mod bindings;
pub mod buffer;
pub mod cache;
pub mod call;
pub mod contents;
pub mod context;
pub mod convert;
pub mod driver;
pub mod gl;
pub mod laws;
pub mod pipeline;
pub mod program;
pub mod render_pass;
pub mod shader;
pub mod text;
pub mod types;
