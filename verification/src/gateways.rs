//! The boundary traits the renderer consumes: an image loader and a model
//! loader. Implementations live outside the core (they read files, archives
//! or anything else); the core takes their plain-value results and validates
//! everything it relies on.

use vstd::prelude::*;
use crate::error::RenderError;

verus! {

/// What an image loader delivers: raw RGBA8 pixel bytes and the pixel
/// dimensions, width first.
pub struct ImageLoaderGatewayResult {
    pub data: Vec<u8>,
    pub dimensions: (u32, u32),
}

/// A source of decoded images, keyed by an identifier. Failures of an
/// implementation are reported as `TextureDecodeFailed` by the operations
/// that consume one.
pub trait ImageLoaderGateway {
    fn load_sync(&self, id: &str) -> Result<ImageLoaderGatewayResult, RenderError>;
}

/// One material of a model source: a name and the still-encoded bytes of its
/// diffuse texture image. The core decodes the bytes itself.
pub struct MaterialSource {
    pub name: String,
    pub diffuse_texture_bytes: Vec<u8>,
}

/// One mesh of a model source, as flat component lists: positions three to a
/// vertex, texture coordinates two to a vertex (already in the texture-space
/// convention of the renderer, v growing downwards), normals three to a
/// vertex or absent, triangle indices, and the index of the mesh's material
/// if it names one. All scalar components are IEEE-754 single-precision bit
/// patterns.
pub struct MeshSource {
    pub name: String,
    pub positions: Vec<u32>,
    pub texcoords: Vec<u32>,
    pub normals: Vec<u32>,
    pub indices: Vec<u32>,
    pub material_id: Option<usize>,
}

/// A whole model source: its meshes and its materials.
pub struct ModelSource {
    pub meshes: Vec<MeshSource>,
    pub materials: Vec<MaterialSource>,
}

/// A source of model geometry, keyed by a file reference. Failures of an
/// implementation are reported as `ModelLoadFailed` by the operations that
/// consume one.
pub trait ModelLoaderGateway {
    fn load_model_sync(&self, file_name: &str) -> Result<ModelSource, RenderError>;
}

} // verus!
