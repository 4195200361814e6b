//! The records the renderer keeps per pipeline and per model, and the
//! identifier lookups over them.

use vstd::prelude::*;
use crate::instance::Instance;
use crate::texture::TextureData;
use crate::vertex::ModelVertexBits;

verus! {

/// Relies on str's PartialEq: two string slices compare equal exactly when
/// their character sequences are equal.
#[verifier::external_body]
pub(crate) fn str_eq(a: &str, b: &str) -> (r: bool)
    ensures
        r == (a@ == b@),
{
    a == b
}

/// One mesh of a loaded model: its interleaved vertices, its triangle
/// indices, and the index of the material it draws with.
#[verifier::ext_equal]
pub struct MeshRecord {
    pub name: String,
    pub vertices: Vec<ModelVertexBits>,
    pub indices: Vec<u32>,
    pub material: usize,
}

impl MeshRecord {
    /// The mesh draws with a material the model actually has.
    pub open spec fn wf(self, material_count: int) -> bool {
        (self.material as int) < material_count
    }
}

/// One loaded model: the drawable unit a pipeline keeps under an identifier.
/// The instance list is the only part replaced after creation.
#[verifier::ext_equal]
pub struct ModelRecord {
    pub id: String,
    pub meshes: Vec<MeshRecord>,
    pub materials: Vec<TextureData>,
    pub instances: Vec<Instance>,
}

impl ModelRecord {
    /// Every mesh references one of the model's materials, and every
    /// material's pixels match its dimensions.
    pub open spec fn wf(self) -> bool {
        &&& forall|i: int|
            0 <= i < self.meshes@.len() ==> self.meshes@[i].wf(self.materials@.len() as int)
        &&& forall|i: int| 0 <= i < self.materials@.len() ==> self.materials@[i].wf()
    }
}

/// One pipeline: a named rendering strategy with its registry of loaded
/// models. A pipeline that is not camera-aware keeps no camera uniform, and
/// camera updates pass it by.
#[verifier::ext_equal]
pub struct PipelineRecord {
    pub id: String,
    pub camera_aware: bool,
    pub models: Vec<ModelRecord>,
}

impl PipelineRecord {
    /// Whether a model with the given identifier is registered.
    pub open spec fn has_model(self, mid: Seq<char>) -> bool {
        exists|i: int| 0 <= i < self.models@.len() && self.models@[i].id@ == mid
    }

    /// No two models share an identifier.
    pub open spec fn model_ids_unique(self) -> bool {
        forall|i: int, j: int|
            0 <= i < j < self.models@.len() ==> self.models@[i].id@ != self.models@[j].id@
    }

    pub open spec fn wf(self) -> bool {
        &&& self.model_ids_unique()
        &&& forall|i: int| 0 <= i < self.models@.len() ==> self.models@[i].wf()
    }
}

/// Finds the position of the model with the given identifier, if any.
pub(crate) fn find_model_index(models: &Vec<ModelRecord>, id: &str) -> (r: Option<usize>)
    ensures
        (match r {
            Some(i) => (i as int) < models@.len() && models@[i as int].id@ == id@,
            None => forall|i: int| 0 <= i < models@.len() ==> models@[i].id@ != id@,
        }),
{
    let mut i: usize = 0;
    while i < models.len()
        invariant
            i <= models@.len(),
            forall|k: int| 0 <= k < i ==> models@[k].id@ != id@,
        decreases models@.len() - i,
    {
        if str_eq(models[i].id.as_str(), id) {
            return Some(i);
        }
        i = i + 1;
    }
    None
}

/// Finds the position of the pipeline with the given identifier, if any.
pub(crate) fn find_pipeline_index(pipelines: &Vec<PipelineRecord>, id: &str) -> (r: Option<usize>)
    ensures
        (match r {
            Some(i) => (i as int) < pipelines@.len() && pipelines@[i as int].id@ == id@,
            None => forall|i: int| 0 <= i < pipelines@.len() ==> pipelines@[i].id@ != id@,
        }),
{
    let mut i: usize = 0;
    while i < pipelines.len()
        invariant
            i <= pipelines@.len(),
            forall|k: int| 0 <= k < i ==> pipelines@[k].id@ != id@,
        decreases pipelines@.len() - i,
    {
        if str_eq(pipelines[i].id.as_str(), id) {
            return Some(i);
        }
        i = i + 1;
    }
    None
}

} // verus!
