//! The orchestration state: the render target, the camera, and the named
//! pipelines with their model registries, together with the operations a
//! caller drives frames through.

use vstd::prelude::*;
use crate::camera::{default_camera, PerspectiveCamera};
use crate::error::RenderError;
use crate::gateways::ModelLoaderGateway;
use crate::instance::{Instance, Vec3Bits};
use crate::model_builder::build_model_record;
use crate::registry::{find_model_index, find_pipeline_index, ModelRecord, PipelineRecord};
use crate::size::{validate_size, Dimensions};

verus! {

/// Where frames go: a live window surface, or an offscreen texture whose
/// frames are exported to an image file at a configured path.
pub enum RenderTargetDesc {
    Windowed { size: Dimensions },
    Offscreen { size: Dimensions, output_path: String },
}

impl RenderTargetDesc {
    /// The pixel size of the target.
    pub open spec fn size_spec(self) -> Dimensions {
        match self {
            RenderTargetDesc::Windowed { size } => size,
            RenderTargetDesc::Offscreen { size, .. } => size,
        }
    }

    pub fn size(&self) -> (s: Dimensions)
        ensures
            s == self.size_spec(),
    {
        match self {
            RenderTargetDesc::Windowed { size } => *size,
            RenderTargetDesc::Offscreen { size, .. } => *size,
        }
    }
}

/// Whether a sequence of identifiers contains the given one.
pub open spec fn contains_id(ids: Seq<String>, id: Seq<char>) -> bool {
    exists|k: int| 0 <= k < ids.len() && ids[k]@ == id
}

/// The renderer's state: one target, one camera, and the named pipelines.
/// Between operations it is always ready for the next frame; a failed
/// operation returns its error and leaves every loaded model and instance
/// list untouched.
#[verifier::ext_equal]
pub struct CoreState {
    pub target: RenderTargetDesc,
    pub camera: PerspectiveCamera,
    pub pipelines: Vec<PipelineRecord>,
}

impl CoreState {
    /// No two pipelines share an identifier.
    pub open spec fn pipeline_ids_unique(self) -> bool {
        forall|i: int, j: int|
            0 <= i < j < self.pipelines@.len() ==> self.pipelines@[i].id@ != self.pipelines@[j].id@
    }

    /// The state's invariant: a valid target size, distinct pipeline
    /// identifiers, and well-formed pipelines throughout.
    pub open spec fn wf(self) -> bool {
        &&& self.target.size_spec().is_valid()
        &&& self.pipeline_ids_unique()
        &&& forall|i: int| 0 <= i < self.pipelines@.len() ==> self.pipelines@[i].wf()
    }

    /// Whether a pipeline with the given identifier is registered.
    pub open spec fn has_pipeline(self, pid: Seq<char>) -> bool {
        exists|i: int| 0 <= i < self.pipelines@.len() && self.pipelines@[i].id@ == pid
    }

    /// Whether the given pipeline is registered and has the given model.
    pub open spec fn has_model(self, pid: Seq<char>, mid: Seq<char>) -> bool {
        exists|i: int|
            0 <= i < self.pipelines@.len() && self.pipelines@[i].id@ == pid
                && self.pipelines@[i].has_model(mid)
    }

    /// Builds the renderer's state for a target: rejects a zero-sided size
    /// as `InvalidSize`; otherwise registers one empty pipeline per distinct
    /// requested identifier and the default camera for the target's size.
    pub fn new(target: RenderTargetDesc, pipeline_ids: Vec<String>) -> (r: Result<
        CoreState,
        RenderError,
    >)
        ensures
            !target.size_spec().is_valid() ==> r == Err::<CoreState, RenderError>(
                RenderError::InvalidSize,
            ),
            target.size_spec().is_valid() ==> (r matches Ok(s) && s.wf() && s.target == target
                && s.camera == default_camera(target.size_spec()) && (forall|pid: Seq<char>|
                s.has_pipeline(pid) <==> contains_id(pipeline_ids@, pid)) && (forall|i: int|
                0 <= i < s.pipelines@.len() ==> s.pipelines@[i].models@.len() == 0
                    && s.pipelines@[i].camera_aware)),
    {
        let size = target.size();
        if let Err(e) = validate_size(&size) {
            return Err(e);
        }
        let camera = crate::camera::make_camera(size);
        let mut pipelines: Vec<PipelineRecord> = Vec::new();
        let mut k: usize = 0;
        while k < pipeline_ids.len()
            invariant
                k <= pipeline_ids@.len(),
                forall|i: int, j: int|
                    0 <= i < j < pipelines@.len() ==> pipelines@[i].id@ != pipelines@[j].id@,
                forall|i: int|
                    0 <= i < pipelines@.len() ==> pipelines@[i].models@.len() == 0
                        && pipelines@[i].camera_aware,
                forall|i: int|
                    0 <= i < pipelines@.len() ==> contains_id(
                        pipeline_ids@.take(k as int),
                        #[trigger] pipelines@[i].id@,
                    ),
                forall|k2: int|
                    0 <= k2 < k ==> exists|i: int|
                        0 <= i < pipelines@.len() && pipelines@[i].id@
                            == (#[trigger] pipeline_ids@[k2])@,
            decreases pipeline_ids@.len() - k,
        {
            let ghost pre = pipelines@;
            let id = &pipeline_ids[k];
            let found = find_pipeline_index(&pipelines, id.as_str());
            if found.is_none() {
                pipelines.push(
                    PipelineRecord { id: id.clone(), camera_aware: true, models: Vec::new() },
                );
            }
            k = k + 1;
            proof {
                assert forall|k2: int| 0 <= k2 < k implies exists|i: int|
                    0 <= i < pipelines@.len() && pipelines@[i].id@
                        == (#[trigger] pipeline_ids@[k2])@ by {
                    if k2 == k - 1 {
                        if found is Some {
                            let i = found->0 as int;
                            assert(0 <= i < pipelines@.len() && pipelines@[i].id@
                                == pipeline_ids@[k2]@);
                        } else {
                            let i = pipelines@.len() - 1;
                            assert(0 <= i < pipelines@.len() && pipelines@[i].id@
                                == pipeline_ids@[k2]@);
                        }
                    } else {
                        let i = choose|i: int|
                            0 <= i < pre.len() && (#[trigger] pre[i]).id@ == pipeline_ids@[k2]@;
                        assert(0 <= i < pipelines@.len() && pipelines@[i].id@
                            == pipeline_ids@[k2]@);
                    }
                }
                assert forall|i: int| 0 <= i < pipelines@.len() implies contains_id(
                    pipeline_ids@.take(k as int),
                    #[trigger] pipelines@[i].id@,
                ) by {
                    let pid = pipelines@[i].id@;
                    if i < pre.len() {
                        assert(pipelines@[i] == pre[i]);
                        assert(contains_id(pipeline_ids@.take(k - 1), pid));
                        let k2 = choose|k2: int|
                            0 <= k2 < k - 1 && (#[trigger] pipeline_ids@.take(k - 1)[k2])@ == pid;
                        assert(pipeline_ids@.take(k as int)[k2]@ == pid);
                    } else {
                        assert(pid == pipeline_ids@[k - 1]@);
                        assert(pipeline_ids@.take(k as int)[k - 1]@ == pid);
                    }
                }
            }
        }
        proof {
            assert(pipeline_ids@.take(k as int) =~= pipeline_ids@);
        }
        let s = CoreState { target, camera, pipelines };
        proof {
            assert forall|pid: Seq<char>| s.has_pipeline(pid) implies contains_id(
                pipeline_ids@,
                pid,
            ) by {
                let i = choose|i: int|
                    0 <= i < s.pipelines@.len() && s.pipelines@[i].id@ == pid;
                assert(contains_id(pipeline_ids@, s.pipelines@[i].id@));
            }
        }
        Ok(s)
    }

    /// Builds the state for a windowed target of the given size.
    pub fn create_windowed(size: Dimensions, pipeline_ids: Vec<String>) -> (r: Result<
        CoreState,
        RenderError,
    >)
        ensures
            !size.is_valid() ==> r == Err::<CoreState, RenderError>(RenderError::InvalidSize),
            size.is_valid() ==> (r matches Ok(s) && s.wf() && s.target == (
            RenderTargetDesc::Windowed { size }) && s.camera == default_camera(size) && (forall|
                pid: Seq<char>,
            |
                s.has_pipeline(pid) <==> contains_id(pipeline_ids@, pid)) && (forall|i: int|
                0 <= i < s.pipelines@.len() ==> s.pipelines@[i].models@.len() == 0
                    && s.pipelines@[i].camera_aware)),
    {
        Self::new(RenderTargetDesc::Windowed { size }, pipeline_ids)
    }

    /// Builds the state for an offscreen target of the given size whose
    /// frames are exported to the given path.
    pub fn create_offscreen(size: Dimensions, pipeline_ids: Vec<String>, output_path: String) -> (r:
        Result<CoreState, RenderError>)
        ensures
            !size.is_valid() ==> r == Err::<CoreState, RenderError>(RenderError::InvalidSize),
            size.is_valid() ==> (r matches Ok(s) && s.wf() && s.target == (
            RenderTargetDesc::Offscreen { size, output_path }) && s.camera == default_camera(size)
                && (forall|pid: Seq<char>|
                s.has_pipeline(pid) <==> contains_id(pipeline_ids@, pid)) && (forall|i: int|
                0 <= i < s.pipelines@.len() ==> s.pipelines@[i].models@.len() == 0
                    && s.pipelines@[i].camera_aware)),
    {
        Self::new(RenderTargetDesc::Offscreen { size, output_path }, pipeline_ids)
    }

    /// How a pipeline looks after a model is installed in it: an existing
    /// model under the same identifier is replaced in place, any other
    /// registration is untouched, and a new identifier is appended.
    pub open spec fn pipeline_with_model(
        pre: PipelineRecord,
        post: PipelineRecord,
        model: ModelRecord,
    ) -> bool {
        &&& post.id == pre.id
        &&& post.camera_aware == pre.camera_aware
        &&& if pre.has_model(model.id@) {
            &&& post.models@.len() == pre.models@.len()
            &&& forall|j: int|
                0 <= j < pre.models@.len() && pre.models@[j].id@ != model.id@
                    ==> post.models@[j] == pre.models@[j]
            &&& forall|j: int|
                0 <= j < pre.models@.len() && pre.models@[j].id@ == model.id@
                    ==> post.models@[j] == model
        } else {
            post.models@ == pre.models@.push(model)
        }
    }

    /// How the state looks after a model is installed in one pipeline:
    /// every other pipeline, the camera and the target are untouched.
    pub open spec fn with_model_installed(
        pre: CoreState,
        post: CoreState,
        pid: Seq<char>,
        model: ModelRecord,
    ) -> bool {
        &&& post.target == pre.target
        &&& post.camera == pre.camera
        &&& post.pipelines@.len() == pre.pipelines@.len()
        &&& forall|i: int|
            0 <= i < pre.pipelines@.len() && pre.pipelines@[i].id@ != pid ==> post.pipelines@[i]
                == pre.pipelines@[i]
        &&& forall|i: int|
            0 <= i < pre.pipelines@.len() && pre.pipelines@[i].id@ == pid
                ==> Self::pipeline_with_model(pre.pipelines@[i], post.pipelines@[i], model)
    }

    /// Installs a built model into the pipeline with the given identifier,
    /// replacing any model already registered under the model's identifier.
    /// With no such pipeline, fails as `PipelineNotFound` and changes
    /// nothing.
    pub fn install_model(&mut self, pipeline_id: &str, model: ModelRecord) -> (r: Result<
        (),
        RenderError,
    >)
        requires
            old(self).wf(),
            model.wf(),
        ensures
            final(self).wf(),
            !old(self).has_pipeline(pipeline_id@) ==> r == Err::<(), RenderError>(
                RenderError::PipelineNotFound,
            ) && *final(self) == *old(self),
            old(self).has_pipeline(pipeline_id@) ==> r == Ok::<(), RenderError>(())
                && Self::with_model_installed(*old(self), *final(self), pipeline_id@, model),
    {
        let pi = match find_pipeline_index(&self.pipelines, pipeline_id) {
            None => {
                return Err(RenderError::PipelineNotFound);
            },
            Some(pi) => pi,
        };
        let existing = find_model_index(&self.pipelines[pi].models, model.id.as_str());
        let mut pipeline = self.pipelines.remove(pi);
        let ghost pre_pipeline = pipeline;
        match existing {
            Some(mi) => {
                let _replaced = pipeline.models.remove(mi);
                pipeline.models.insert(mi, model);
                proof {
                    assert forall|j: int|
                        0 <= j < pre_pipeline.models@.len() && pre_pipeline.models@[j].id@
                            != pre_pipeline.models@[mi as int].id@ implies pipeline.models@[j]
                        == pre_pipeline.models@[j] by {}
                }
            },
            None => {
                pipeline.models.push(model);
            },
        }
        proof {
            assert(Self::pipeline_with_model(pre_pipeline, pipeline, model));
        }
        self.pipelines.insert(pi, pipeline);
        proof {
            assert forall|i: int|
                0 <= i < old(self).pipelines@.len() && old(self).pipelines@[i].id@ != pipeline_id@
                    implies self.pipelines@[i] == old(self).pipelines@[i] by {}
            assert forall|i: int|
                0 <= i < old(self).pipelines@.len() && old(self).pipelines@[i].id@ == pipeline_id@
                    implies Self::pipeline_with_model(
                old(self).pipelines@[i],
                self.pipelines@[i],
                model,
            ) by {
                if i != pi as int {
                    assert(old(self).pipelines@[pi as int].id@ == pipeline_id@);
                }
            }
            assert(self.wf()) by {
                assert forall|i: int| 0 <= i < self.pipelines@.len() implies (
                #[trigger] self.pipelines@[i]).wf() by {
                    if i == pi as int {
                        assert(self.pipelines@[i] == pipeline);
                    } else {
                        assert(self.pipelines@[i] == old(self).pipelines@[i]);
                    }
                }
                assert forall|i: int, j: int|
                    0 <= i < j < self.pipelines@.len() implies self.pipelines@[i].id@
                    != self.pipelines@[j].id@ by {
                    assert(self.pipelines@[i].id@ == old(self).pipelines@[i].id@);
                    assert(self.pipelines@[j].id@ == old(self).pipelines@[j].id@);
                }
            }
        }
        Ok(())
    }

    /// How the state looks after one model's instance list is replaced:
    /// everything but that model's instances is untouched, and the model's
    /// identity, meshes and materials are kept.
    pub open spec fn with_instances_replaced(
        pre: CoreState,
        post: CoreState,
        pid: Seq<char>,
        mid: Seq<char>,
        instances: Seq<Instance>,
    ) -> bool {
        &&& post.target == pre.target
        &&& post.camera == pre.camera
        &&& post.pipelines@.len() == pre.pipelines@.len()
        &&& forall|i: int|
            0 <= i < pre.pipelines@.len() && pre.pipelines@[i].id@ != pid ==> post.pipelines@[i]
                == pre.pipelines@[i]
        &&& forall|i: int|
            0 <= i < pre.pipelines@.len() && pre.pipelines@[i].id@ == pid
                ==> Self::pipeline_with_instances_replaced(
                pre.pipelines@[i],
                post.pipelines@[i],
                mid,
                instances,
            )
    }

    /// How a pipeline looks after one of its models' instance lists is
    /// replaced wholesale.
    pub open spec fn pipeline_with_instances_replaced(
        pre: PipelineRecord,
        post: PipelineRecord,
        mid: Seq<char>,
        instances: Seq<Instance>,
    ) -> bool {
        &&& post.id == pre.id
        &&& post.camera_aware == pre.camera_aware
        &&& post.models@.len() == pre.models@.len()
        &&& forall|j: int|
            0 <= j < pre.models@.len() && pre.models@[j].id@ != mid ==> post.models@[j]
                == pre.models@[j]
        &&& forall|j: int|
            0 <= j < pre.models@.len() && pre.models@[j].id@ == mid ==> (post.models@[j].id
                == pre.models@[j].id && post.models@[j].meshes == pre.models@[j].meshes
                && post.models@[j].materials == pre.models@[j].materials
                && post.models@[j].instances@ == instances)
    }

    /// Replaces a model's instance buffer wholesale. With no such pipeline,
    /// fails as `PipelineNotFound`; with the pipeline registered but no such
    /// model, fails as `ModelNotFound`; either failure changes nothing.
    pub fn update_model_instances(
        &mut self,
        pipeline_id: &str,
        model_id: &str,
        instances: Vec<Instance>,
    ) -> (r: Result<(), RenderError>)
        requires
            old(self).wf(),
        ensures
            final(self).wf(),
            !old(self).has_pipeline(pipeline_id@) ==> r == Err::<(), RenderError>(
                RenderError::PipelineNotFound,
            ) && *final(self) == *old(self),
            old(self).has_pipeline(pipeline_id@) && !old(self).has_model(pipeline_id@, model_id@)
                ==> r == Err::<(), RenderError>(RenderError::ModelNotFound) && *final(self)
                == *old(self),
            old(self).has_model(pipeline_id@, model_id@) ==> r == Ok::<(), RenderError>(())
                && Self::with_instances_replaced(
                *old(self),
                *final(self),
                pipeline_id@,
                model_id@,
                instances@,
            ),
    {
        let pi = match find_pipeline_index(&self.pipelines, pipeline_id) {
            None => {
                return Err(RenderError::PipelineNotFound);
            },
            Some(pi) => pi,
        };
        let mi = match find_model_index(&self.pipelines[pi].models, model_id) {
            None => {
                proof {
                    assert forall|i: int|
                        0 <= i < old(self).pipelines@.len() && old(self).pipelines@[i].id@
                            == pipeline_id@ implies !(#[trigger] old(self).pipelines@[i]).has_model(
                        model_id@,
                    ) by {
                        if i != pi as int {
                            assert(old(self).pipelines@[pi as int].id@ == pipeline_id@);
                        }
                    }
                }
                return Err(RenderError::ModelNotFound);
            },
            Some(mi) => mi,
        };
        let mut pipeline = self.pipelines.remove(pi);
        let ghost pre_pipeline = pipeline;
        let mut model = pipeline.models.remove(mi);
        let ghost pre_model = model;
        model.instances = instances;
        pipeline.models.insert(mi, model);
        self.pipelines.insert(pi, pipeline);
        proof {
            assert(old(self).has_model(pipeline_id@, model_id@)) by {
                assert(old(self).pipelines@[pi as int].id@ == pipeline_id@);
                assert(old(self).pipelines@[pi as int].has_model(model_id@)) by {
                    assert(old(self).pipelines@[pi as int].models@[mi as int].id@ == model_id@);
                }
            }
            assert forall|i: int|
                0 <= i < old(self).pipelines@.len() && old(self).pipelines@[i].id@ == pipeline_id@
                    implies Self::pipeline_with_instances_replaced(
                old(self).pipelines@[i],
                self.pipelines@[i],
                model_id@,
                instances@,
            ) by {
                if i != pi as int {
                    assert(old(self).pipelines@[pi as int].id@ == pipeline_id@);
                } else {
                    assert forall|j: int|
                        0 <= j < pre_pipeline.models@.len() && pre_pipeline.models@[j].id@
                            != model_id@ implies pipeline.models@[j] == pre_pipeline.models@.index(
                        j,
                    ) by {}
                    assert forall|j: int|
                        0 <= j < pre_pipeline.models@.len() && pre_pipeline.models@[j].id@
                            == model_id@ implies j == mi as int by {
                        if j != mi as int {
                            assert(pre_pipeline.models@[mi as int].id@ == model_id@);
                        }
                    }
                }
            }
            assert(self.wf()) by {
                assert forall|i: int| 0 <= i < self.pipelines@.len() implies (
                #[trigger] self.pipelines@[i]).wf() by {
                    if i == pi as int {
                        assert(self.pipelines@[i] == pipeline);
                        assert(pre_pipeline.wf());
                        assert forall|j: int| 0 <= j < pipeline.models@.len() implies (
                        #[trigger] pipeline.models@[j]).wf() by {
                            if j == mi as int {
                                assert(pre_pipeline.models@[j].wf());
                                assert(model.meshes == pre_model.meshes);
                            } else {
                                assert(pipeline.models@[j] == pre_pipeline.models@[j]);
                            }
                        }
                    } else {
                        assert(self.pipelines@[i] == old(self).pipelines@[i]);
                    }
                }
                assert forall|i: int, j: int|
                    0 <= i < j < self.pipelines@.len() implies self.pipelines@[i].id@
                    != self.pipelines@[j].id@ by {
                    assert(self.pipelines@[i].id@ == old(self).pipelines@[i].id@);
                    assert(self.pipelines@[j].id@ == old(self).pipelines@[j].id@);
                }
            }
        }
        Ok(())
    }

    /// Loads a model through the model-loader gateway and registers it in
    /// the pipeline with the given identifier under `model_id`, with the
    /// given instances. With no such pipeline, fails as `PipelineNotFound`;
    /// a gateway failure or an unusable source fails as `ModelLoadFailed`
    /// (a material whose bytes do not decode included). No failure changes
    /// anything: a model is never partially registered.
    pub fn load_model_sync<G: ModelLoaderGateway>(
        &mut self,
        pipeline_id: &str,
        model_id: &str,
        filename: &str,
        instances: Vec<Instance>,
        gateway: &G,
    ) -> (r: Result<(), RenderError>)
        requires
            old(self).wf(),
        ensures
            final(self).wf(),
            !old(self).has_pipeline(pipeline_id@) ==> r == Err::<(), RenderError>(
                RenderError::PipelineNotFound,
            ),
            old(self).has_pipeline(pipeline_id@) ==> r != Err::<(), RenderError>(
                RenderError::PipelineNotFound,
            ),
            r is Err ==> *final(self) == *old(self),
            r is Ok ==> exists|m: ModelRecord|
                m.wf() && m.id@ == model_id@ && m.instances@ == instances@
                    && #[trigger] Self::with_model_installed(
                    *old(self),
                    *final(self),
                    pipeline_id@,
                    m,
                ),
    {
        if !self.pipeline_exists(pipeline_id) {
            return Err(RenderError::PipelineNotFound);
        }
        let source = match gateway.load_model_sync(filename) {
            Ok(source) => source,
            Err(_) => {
                return Err(RenderError::ModelLoadFailed);
            },
        };
        let model = match crate::model_builder::build_model_record(model_id, source, instances) {
            Ok(model) => model,
            Err(e) => {
                return Err(e);
            },
        };
        let ghost m = model;
        match self.install_model(pipeline_id, model) {
            Ok(()) => {
                proof {
                    assert(Self::with_model_installed(*old(self), *self, pipeline_id@, m));
                }
                Ok(())
            },
            Err(e) => Err(e),
        }
    }

    /// The model registered in the given pipeline under the given
    /// identifier, if both exist.
    pub fn get_model(&self, pipeline_id: &str, model_id: &str) -> (r: Option<&ModelRecord>)
        requires
            self.wf(),
        ensures
            r is Some <==> self.has_model(pipeline_id@, model_id@),
            r matches Some(m) ==> exists|i: int, j: int|
                0 <= i < self.pipelines@.len() && (#[trigger] self.pipelines@[i]).id@
                    == pipeline_id@ && 0 <= j < self.pipelines@[i].models@.len() && (
                #[trigger] self.pipelines@[i].models@[j]) == *m && m.id@ == model_id@,
    {
        let pi = match find_pipeline_index(&self.pipelines, pipeline_id) {
            None => {
                return None;
            },
            Some(pi) => pi,
        };
        match find_model_index(&self.pipelines[pi].models, model_id) {
            None => {
                proof {
                    assert forall|i: int|
                        0 <= i < self.pipelines@.len() && self.pipelines@[i].id@ == pipeline_id@
                            implies !(#[trigger] self.pipelines@[i]).has_model(model_id@) by {
                        if i != pi as int {
                            assert(self.pipelines@[pi as int].id@ == pipeline_id@);
                        }
                    }
                }
                None
            },
            Some(mi) => Some(&self.pipelines[pi].models[mi]),
        }
    }

    /// Whether a pipeline with the given identifier is registered.
    pub fn pipeline_exists(&self, pipeline_id: &str) -> (r: bool)
        ensures
            r == self.has_pipeline(pipeline_id@),
    {
        find_pipeline_index(&self.pipelines, pipeline_id).is_some()
    }

    /// The pipelines a camera update reaches: exactly the camera-aware
    /// ones, in registry order. Updating the camera recomputes the
    /// view-projection uniform of each of these and of no other; a pipeline
    /// that is not camera-aware is passed by, a no-op.
    pub fn camera_update_targets(&self) -> (r: Vec<usize>)
        ensures
            forall|t: int|
                0 <= t < r@.len() ==> (r@[t] as int) < self.pipelines@.len()
                    && self.pipelines@.index(r@[t] as int).camera_aware,
            forall|i: int|
                0 <= i < self.pipelines@.len() && self.pipelines@[i].camera_aware ==> r@.contains(
                    i as usize,
                ),
            forall|t1: int, t2: int| 0 <= t1 < t2 < r@.len() ==> r@[t1] < r@[t2],
    {
        let mut targets: Vec<usize> = Vec::new();
        let mut i: usize = 0;
        while i < self.pipelines.len()
            invariant
                i <= self.pipelines@.len(),
                forall|t: int|
                    0 <= t < targets@.len() ==> (targets@[t] as int) < i
                        && self.pipelines@.index(targets@[t] as int).camera_aware,
                forall|k: int|
                    0 <= k < i && self.pipelines@[k].camera_aware ==> targets@.contains(k as usize),
                forall|t1: int, t2: int|
                    0 <= t1 < t2 < targets@.len() ==> targets@[t1] < targets@.index(t2),
            decreases self.pipelines@.len() - i,
        {
            let ghost pre_targets = targets@;
            if self.pipelines[i].camera_aware {
                targets.push(i);
            }
            i = i + 1;
            proof {
                assert forall|k: int|
                    0 <= k < i && self.pipelines@[k].camera_aware implies targets@.contains(
                    k as usize,
                ) by {
                    if k == i - 1 {
                        assert(targets@[targets@.len() - 1] == k as usize);
                    } else {
                        assert(pre_targets.contains(k as usize));
                        let t = choose|t: int|
                            0 <= t < pre_targets.len() && pre_targets[t] == k as usize;
                        assert(targets@[t] == k as usize);
                    }
                }
            }
        }
        targets
    }

    /// Moves the camera's eye; everything else is untouched. The host
    /// recomputes every camera-aware pipeline's uniform from the new camera.
    pub fn update_camera_eye(&mut self, eye: Vec3Bits)
        ensures
            final(self).camera == (PerspectiveCamera { eye, ..old(self).camera }),
            final(self).target == old(self).target,
            final(self).pipelines == old(self).pipelines,
    {
        self.camera.eye = eye;
    }
}

} // verus!
