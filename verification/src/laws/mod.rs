//! What holds of the renderer as a whole.
pub mod building;
pub mod cache;
pub mod conversation;
pub mod drawing;
pub mod effects;
pub mod frame;
pub mod inputs;
pub mod layout;
pub mod looks;
pub mod picture;
pub mod records;
pub mod settings;
pub mod sums;
pub mod uniforms;
pub mod values;
