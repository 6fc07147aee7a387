//! Forward rendering passes that record what the GPU is asked to do.
//!
//! A pass is built once against a [`factory::Factory`], which notes the
//! resources the pass needs, and is then applied any number of times per
//! frame to an [`encoder::Encoder`], which notes clear, upload and draw
//! commands in order. A backend creates the noted resources and replays the
//! noted commands; nothing in this crate touches a device.

pub mod math;
pub mod light;
pub mod scene;
pub mod encoder;
pub mod target;
pub mod shaders;
pub mod factory;
pub mod pass;
