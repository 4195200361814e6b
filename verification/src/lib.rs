//! A verified core for an instanced-model renderer.
//!
//! The library owns everything the renderer decides on plain data: sizing and
//! validation, the named registries of pipelines and models, instance-set
//! bookkeeping, camera state, frame planning, and the pixel-level encode and
//! decode boundaries. The host layer drives a GPU from the plans produced
//! here; it performs no decisions of its own.

pub mod camera;
pub mod context;
pub mod error;
pub mod export;
pub mod gateways;
pub mod image_loader;
pub mod instance;
pub mod model_builder;
pub mod model_loader;
pub mod plan;
pub mod registry;
pub mod size;
pub mod state;
pub mod texture;
pub mod vertex;
