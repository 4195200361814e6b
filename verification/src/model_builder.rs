//! Turning a model source into a validated model record: vertices assembled,
//! textures decoded, material references checked, and nothing accepted
//! partially.

use vstd::prelude::*;
use crate::error::RenderError;
use crate::gateways::{MaterialSource, MeshSource, ModelSource};
use crate::image_loader::{decode_image_bytes, rgba_decoding};
use crate::instance::Instance;
use crate::registry::{MeshRecord, ModelRecord};
use crate::texture::TextureData;
use crate::vertex::{assembled_vertices, build_vertices, components_consistent};

verus! {

/// The material a mesh source draws with: the one it names, or the first
/// material when it names none.
pub open spec fn mesh_material_index(src: MeshSource) -> usize {
    match src.material_id {
        Some(k) => k,
        None => 0usize,
    }
}

/// Whether one mesh source can become a mesh record: its component lists
/// agree and its material reference stays within the model's materials.
pub open spec fn mesh_source_buildable(src: MeshSource, material_count: int) -> bool {
    &&& components_consistent(src.positions@, src.texcoords@, src.normals@)
    &&& (mesh_material_index(src) as int) < material_count
}

/// Whether a whole model source can become a model record: every mesh is
/// buildable and every material's texture bytes decode as an image.
pub open spec fn source_buildable(source: ModelSource) -> bool {
    &&& forall|i: int|
        0 <= i < source.meshes@.len() ==> mesh_source_buildable(
            source.meshes@[i],
            source.materials@.len() as int,
        )
    &&& forall|i: int|
        0 <= i < source.materials@.len() ==> rgba_decoding(
            source.materials@[i].diffuse_texture_bytes@,
        ) is Some
}

/// How a built mesh record relates to its source: same name and indices,
/// vertices assembled from the component lists, and the material reference
/// resolved.
pub open spec fn mesh_matches_source(mesh: MeshRecord, src: MeshSource) -> bool {
    &&& mesh.name@ == src.name@
    &&& mesh.indices@ == src.indices@
    &&& mesh.vertices@ == assembled_vertices(src.positions@, src.texcoords@, src.normals@)
    &&& mesh.material == mesh_material_index(src)
}

/// How a built material relates to its source: exactly the decoding of the
/// source's texture bytes.
pub open spec fn material_matches_source(tex: TextureData, src: MaterialSource) -> bool {
    rgba_decoding(src.diffuse_texture_bytes@) == Some((tex.pixels@, tex.width, tex.height))
}

/// How a whole built model relates to its source: mesh for mesh and material
/// for material.
pub open spec fn model_matches_source(m: ModelRecord, source: ModelSource) -> bool {
    &&& m.meshes@.len() == source.meshes@.len()
    &&& forall|i: int|
        0 <= i < source.meshes@.len() ==> mesh_matches_source(m.meshes@[i], source.meshes@[i])
    &&& m.materials@.len() == source.materials@.len()
    &&& forall|i: int|
        0 <= i < source.materials@.len() ==> material_matches_source(
            m.materials@[i],
            source.materials@[i],
        )
}

/// Builds the model record a load operation registers: decodes every
/// material texture, assembles every mesh, and resolves material references.
/// Succeeds exactly on buildable sources; any flaw fails the whole build as
/// a failed model load, and nothing of a failed build survives.
pub fn build_model_record(model_id: &str, source: ModelSource, instances: Vec<Instance>) -> (r:
    Result<ModelRecord, RenderError>)
    ensures
        r is Ok <==> source_buildable(source),
        r matches Ok(m) ==> m.wf() && m.id@ == model_id@ && m.instances@ == instances@
            && model_matches_source(m, source),
        r matches Err(e) ==> e == RenderError::ModelLoadFailed,
{
    let mut materials: Vec<TextureData> = Vec::new();
    let mut k: usize = 0;
    while k < source.materials.len()
        invariant
            k <= source.materials@.len(),
            materials@.len() == k,
            forall|i: int|
                0 <= i < k ==> material_matches_source(
                    materials@[i],
                    source.materials@[i],
                ) && materials@[i].wf(),
        decreases source.materials@.len() - k,
    {
        match decode_image_bytes(&source.materials[k].diffuse_texture_bytes) {
            Ok(res) => {
                let (width, height) = res.dimensions;
                materials.push(TextureData { pixels: res.data, width, height });
            },
            Err(_) => {
                proof {
                    assert(!source_buildable(source)) by {
                        if source_buildable(source) {
                            assert(rgba_decoding(
                                source.materials@[k as int].diffuse_texture_bytes@,
                            ) is Some);
                        }
                    }
                }
                return Err(RenderError::ModelLoadFailed);
            },
        }
        k = k + 1;
    }

    let material_count: usize = materials.len();
    let mut meshes: Vec<MeshRecord> = Vec::new();
    let mut j: usize = 0;
    while j < source.meshes.len()
        invariant
            j <= source.meshes@.len(),
            meshes@.len() == j,
            material_count == source.materials@.len(),
            materials@.len() == material_count,
            forall|i: int|
                0 <= i < material_count ==> material_matches_source(
                    materials@[i],
                    source.materials@[i],
                ) && materials@[i].wf(),
            forall|i: int|
                0 <= i < j ==> mesh_matches_source(meshes@[i], source.meshes@[i])
                    && meshes@[i].wf(material_count as int),
            forall|i: int|
                0 <= i < j ==> mesh_source_buildable(
                    #[trigger] source.meshes@[i],
                    material_count as int,
                ),
        decreases source.meshes@.len() - j,
    {
        let src = &source.meshes[j];
        let vertices = match build_vertices(&src.positions, &src.texcoords, &src.normals) {
            Ok(v) => v,
            Err(e) => {
                proof {
                    assert(!source_buildable(source)) by {
                        if source_buildable(source) {
                            assert(mesh_source_buildable(
                                source.meshes@[j as int],
                                source.materials@.len() as int,
                            ));
                        }
                    }
                }
                return Err(e);
            },
        };
        let material: usize = match src.material_id {
            Some(m) => m,
            None => 0,
        };
        if material >= material_count {
            proof {
                assert(material == mesh_material_index(source.meshes@[j as int]));
                assert(!source_buildable(source)) by {
                    if source_buildable(source) {
                        assert(mesh_source_buildable(
                            source.meshes@[j as int],
                            source.materials@.len() as int,
                        ));
                    }
                }
            }
            return Err(RenderError::ModelLoadFailed);
        }
        let name = src.name.clone();
        let indices = src.indices.clone();
        proof {
            assert(indices@ =~= source.meshes@[j as int].indices@);
        }
        meshes.push(MeshRecord { name, vertices, indices, material });
        j = j + 1;
    }

    let record = ModelRecord { id: model_id.to_owned(), meshes, materials, instances };
    proof {
        assert forall|i: int| 0 <= i < source.materials@.len() implies rgba_decoding(
            (#[trigger] source.materials@[i]).diffuse_texture_bytes@,
        ) is Some by {
            assert(material_matches_source(record.materials@[i], source.materials@[i]));
        }
        assert forall|i: int| 0 <= i < source.meshes@.len() implies mesh_source_buildable(
            #[trigger] source.meshes@[i],
            source.materials@.len() as int,
        ) by {
            assert(mesh_source_buildable(source.meshes@[i], material_count as int));
        }
    }
    Ok(record)
}

} // verus!
