//! Frame planning: the exact sequence of draw calls one frame issues, the
//! fixed clear values, and the finalize step the target demands. The host
//! executes a plan verbatim against the GPU; everything it contains is
//! decided and proved here.

use vstd::prelude::*;
use crate::instance::F32_ONE_BITS;
use crate::size::Dimensions;
use crate::state::{CoreState, RenderTargetDesc};

verus! {

/// The bit pattern of `0.1` in IEEE-754 double precision.
pub const F64_CLEAR_R_BITS: u64 = 0x3FB9_9999_9999_999A;

/// The bit pattern of `0.2` in IEEE-754 double precision.
pub const F64_CLEAR_G_BITS: u64 = 0x3FC9_9999_9999_999A;

/// The bit pattern of `0.3` in IEEE-754 double precision.
pub const F64_CLEAR_B_BITS: u64 = 0x3FD3_3333_3333_3333;

/// The bit pattern of `1.0` in IEEE-754 double precision.
pub const F64_ONE_BITS: u64 = 0x3FF0_0000_0000_0000;

/// The fixed background color every frame clears to, as IEEE-754
/// double-precision bit patterns.
#[derive(Clone, Copy, Debug, PartialEq, Eq, Structural)]
pub struct ClearColor {
    pub r: u64,
    pub g: u64,
    pub b: u64,
    pub a: u64,
}

/// The background color: a fixed dark blue-grey, opaque.
pub open spec fn background_color() -> ClearColor {
    ClearColor {
        r: F64_CLEAR_R_BITS,
        g: F64_CLEAR_G_BITS,
        b: F64_CLEAR_B_BITS,
        a: F64_ONE_BITS,
    }
}

/// One indexed, instanced draw: which pipeline, which of its models, which
/// of that model's meshes, how many triangle indices, how many instances,
/// and which material to bind.
#[derive(Clone, Copy, Debug, PartialEq, Eq, Structural)]
pub struct DrawCall {
    pub pipeline_index: usize,
    pub model_index: usize,
    pub mesh_index: usize,
    pub index_count: usize,
    pub instance_count: usize,
    pub material_index: usize,
}

/// How a frame ends: a windowed target presents the acquired view; an
/// offscreen target copies its texture into the staging buffer and exports
/// the pixels to the configured path.
pub enum FinalizeStep {
    Present,
    CopyAndExport { size: Dimensions, output_path: String },
}

/// Everything one frame does, in order: clear color and depth, the draw
/// calls, and the finalize step.
pub struct FramePlan {
    pub clear_color: ClearColor,
    pub depth_clear_bits: u32,
    pub draws: Vec<DrawCall>,
    pub finalize: FinalizeStep,
}

/// The draw call for one mesh of one model of one pipeline: that model's
/// own instance count, that mesh's own index count and material.
pub open spec fn mesh_draw(s: CoreState, pi: int, mi: int, j: int) -> DrawCall {
    DrawCall {
        pipeline_index: pi as usize,
        model_index: mi as usize,
        mesh_index: j as usize,
        index_count: s.pipelines@[pi].models@[mi].meshes@[j].indices@.len() as usize,
        instance_count: s.pipelines@[pi].models@[mi].instances@.len() as usize,
        material_index: s.pipelines@[pi].models@[mi].meshes@[j].material,
    }
}

/// The draws of one model: one per mesh, in mesh order.
pub open spec fn model_draws(s: CoreState, pi: int, mi: int) -> Seq<DrawCall> {
    Seq::new(s.pipelines@[pi].models@[mi].meshes@.len(), |j: int| mesh_draw(s, pi, mi, j))
}

/// The draws of the first `mi` models of one pipeline, in model order.
pub open spec fn model_draws_upto(s: CoreState, pi: int, mi: int) -> Seq<DrawCall>
    decreases mi,
{
    if mi <= 0 {
        Seq::empty()
    } else {
        model_draws_upto(s, pi, mi - 1) + model_draws(s, pi, mi - 1)
    }
}

/// The draws of one whole pipeline.
pub open spec fn pipeline_draws(s: CoreState, pi: int) -> Seq<DrawCall> {
    model_draws_upto(s, pi, s.pipelines@[pi].models@.len() as int)
}

/// The draws of the first `pi` pipelines, in pipeline order.
pub open spec fn draws_upto(s: CoreState, pi: int) -> Seq<DrawCall>
    decreases pi,
{
    if pi <= 0 {
        Seq::empty()
    } else {
        draws_upto(s, pi - 1) + pipeline_draws(s, pi - 1)
    }
}

/// Every draw one frame issues: pipeline by pipeline, model by model, mesh
/// by mesh.
pub open spec fn frame_draws(s: CoreState) -> Seq<DrawCall> {
    draws_upto(s, s.pipelines@.len() as int)
}

/// What it means for one draw call to be faithful to the state it was
/// planned from: it addresses a registered pipeline, model and mesh, and it
/// carries that model's own instance count, that mesh's own index count and
/// that mesh's own material.
pub open spec fn draw_sound(s: CoreState, d: DrawCall) -> bool {
    let model = s.pipelines@[d.pipeline_index as int].models@[d.model_index as int];
    let mesh = model.meshes@[d.mesh_index as int];
    &&& (d.pipeline_index as int) < s.pipelines@.len()
    &&& (d.model_index as int) < s.pipelines@[d.pipeline_index as int].models@.len()
    &&& (d.mesh_index as int) < model.meshes@.len()
    &&& d.instance_count == model.instances@.len() as usize
    &&& d.index_count == mesh.indices@.len() as usize
    &&& d.material_index == mesh.material
}

proof fn lemma_model_draws_upto_sound(s: CoreState, pi: int, mi: int, k: int)
    requires
        0 <= pi < s.pipelines@.len(),
        s.pipelines@.len() <= usize::MAX,
        0 <= mi <= s.pipelines@[pi].models@.len(),
        s.pipelines@[pi].models@.len() <= usize::MAX,
        forall|m: int|
            0 <= m < s.pipelines@[pi].models@.len() ==> (#[trigger] s.pipelines@[pi].models@.index(
                m,
            )).meshes@.len() <= usize::MAX,
        0 <= k < model_draws_upto(s, pi, mi).len(),
    ensures
        draw_sound(s, model_draws_upto(s, pi, mi)[k]),
    decreases mi,
{
    if mi > 0 {
        let prefix = model_draws_upto(s, pi, mi - 1);
        if k < prefix.len() {
            lemma_model_draws_upto_sound(s, pi, mi - 1, k);
        } else {
            let d = model_draws(s, pi, mi - 1)[k - prefix.len()];
            assert(d == mesh_draw(s, pi, mi - 1, k - prefix.len()));
        }
    }
}

proof fn lemma_draws_upto_sound(s: CoreState, pi: int, k: int)
    requires
        0 <= pi <= s.pipelines@.len(),
        s.pipelines@.len() <= usize::MAX,
        forall|p: int|
            0 <= p < s.pipelines@.len() ==> (#[trigger] s.pipelines@[p]).models@.len()
                <= usize::MAX,
        forall|p: int, m: int|
            0 <= p < s.pipelines@.len() && 0 <= m < s.pipelines@[p].models@.len() ==> (
            #[trigger] s.pipelines@[p].models@[m]).meshes@.len() <= usize::MAX,
        0 <= k < draws_upto(s, pi).len(),
    ensures
        draw_sound(s, draws_upto(s, pi)[k]),
    decreases pi,
{
    if pi > 0 {
        let prefix = draws_upto(s, pi - 1);
        if k < prefix.len() {
            lemma_draws_upto_sound(s, pi - 1, k);
        } else {
            lemma_model_draws_upto_sound(
                s,
                pi - 1,
                s.pipelines@[pi - 1].models@.len() as int,
                k - prefix.len(),
            );
        }
    }
}

/// Every draw a frame plans is faithful to the state it was planned from:
/// it addresses a registered pipeline, model and mesh, and draws exactly
/// that model's current instance count with that mesh's index count and
/// material. In particular a frame never draws a model the registries do
/// not hold, and never draws more instances than a model's current list.
pub proof fn lemma_frame_draws_sound(s: CoreState, k: int)
    requires
        forall|p: int|
            0 <= p < s.pipelines@.len() ==> (#[trigger] s.pipelines@[p]).models@.len()
                <= usize::MAX,
        forall|p: int, m: int|
            0 <= p < s.pipelines@.len() && 0 <= m < s.pipelines@[p].models@.len() ==> (
            #[trigger] s.pipelines@[p].models@[m]).meshes@.len() <= usize::MAX,
        0 <= k < frame_draws(s).len(),
    ensures
        draw_sound(s, frame_draws(s)[k]),
{
    assert(s.pipelines.len() == s.pipelines@.len());
    lemma_draws_upto_sound(s, s.pipelines@.len() as int, k);
}

proof fn lemma_model_draws_upto_prefix(s: CoreState, pi: int, mi: int, mi2: int)
    requires
        0 <= mi <= mi2,
    ensures
        model_draws_upto(s, pi, mi).len() <= model_draws_upto(s, pi, mi2).len(),
        forall|t: int|
            0 <= t < model_draws_upto(s, pi, mi).len() ==> model_draws_upto(s, pi, mi2)[t]
                == model_draws_upto(s, pi, mi)[t],
    decreases mi2 - mi,
{
    if mi < mi2 {
        lemma_model_draws_upto_prefix(s, pi, mi, mi2 - 1);
    }
}

proof fn lemma_draws_upto_prefix(s: CoreState, pi: int, pi2: int)
    requires
        0 <= pi <= pi2,
    ensures
        draws_upto(s, pi).len() <= draws_upto(s, pi2).len(),
        forall|t: int|
            0 <= t < draws_upto(s, pi).len() ==> draws_upto(s, pi2)[t] == draws_upto(s, pi)[t],
    decreases pi2 - pi,
{
    if pi < pi2 {
        lemma_draws_upto_prefix(s, pi, pi2 - 1);
    }
}

/// Every registered mesh is drawn: the draw for mesh `j` of model `mi` of
/// pipeline `pi` stands in the frame at the index that skips every earlier
/// pipeline's draws, then every earlier model's draws, then the model's
/// earlier meshes. Together with `lemma_frame_draws_sound` this pins the
/// whole plan: no loaded model is passed over, and nothing else is drawn.
pub proof fn lemma_frame_draws_complete(s: CoreState, pi: int, mi: int, j: int)
    requires
        0 <= pi < s.pipelines@.len(),
        0 <= mi < s.pipelines@[pi].models@.len(),
        0 <= j < s.pipelines@[pi].models@[mi].meshes@.len(),
    ensures
        ({
            let k = draws_upto(s, pi).len() + model_draws_upto(s, pi, mi).len() + j;
            k < frame_draws(s).len() && frame_draws(s)[k] == mesh_draw(s, pi, mi, j)
        }),
{
    let t = model_draws_upto(s, pi, mi).len() + j;
    assert(model_draws_upto(s, pi, mi + 1)[t] == mesh_draw(s, pi, mi, j));
    lemma_model_draws_upto_prefix(s, pi, mi + 1, s.pipelines@[pi].models@.len() as int);
    assert(pipeline_draws(s, pi)[t] == mesh_draw(s, pi, mi, j));
    let k = draws_upto(s, pi).len() + t;
    assert(draws_upto(s, pi + 1)[k] == mesh_draw(s, pi, mi, j));
    lemma_draws_upto_prefix(s, pi + 1, s.pipelines@.len() as int);
}

/// Whether a draw call addresses the model registered under the given
/// pipeline and model identifiers.
pub open spec fn draw_targets_model(s: CoreState, d: DrawCall, pid: Seq<char>, mid: Seq<char>) -> bool {
    &&& (d.pipeline_index as int) < s.pipelines@.len()
    &&& s.pipelines@[d.pipeline_index as int].id@ == pid
    &&& (d.model_index as int) < s.pipelines@[d.pipeline_index as int].models@.len()
    &&& s.pipelines@[d.pipeline_index as int].models@[d.model_index as int].id@ == mid
}

/// After a model's instance list is replaced by the empty list, every draw
/// a subsequent frame plans for that model draws zero instances: no
/// leftover draws survive from the prior instance set, while every other
/// model still draws its own instance count.
pub proof fn lemma_empty_update_draws_zero(
    pre: CoreState,
    post: CoreState,
    pid: Seq<char>,
    mid: Seq<char>,
    k: int,
)
    requires
        CoreState::with_instances_replaced(pre, post, pid, mid, Seq::empty()),
        forall|p: int|
            0 <= p < post.pipelines@.len() ==> (#[trigger] post.pipelines@[p]).models@.len()
                <= usize::MAX,
        forall|p: int, m: int|
            0 <= p < post.pipelines@.len() && 0 <= m < post.pipelines@[p].models@.len() ==> (
            #[trigger] post.pipelines@[p].models@[m]).meshes@.len() <= usize::MAX,
        0 <= k < frame_draws(post).len(),
        draw_targets_model(post, frame_draws(post)[k], pid, mid),
    ensures
        frame_draws(post)[k].instance_count == 0,
{
    lemma_frame_draws_sound(post, k);
    let d = frame_draws(post)[k];
    let pi = d.pipeline_index as int;
    let mi = d.model_index as int;
    assert(pre.pipelines@[pi].id@ == pid ==> CoreState::pipeline_with_instances_replaced(
        pre.pipelines@[pi],
        post.pipelines@[pi],
        mid,
        Seq::empty(),
    ));
    if pre.pipelines@[pi].id@ != pid {
        assert(post.pipelines@[pi] == pre.pipelines@[pi]);
    } else {
        if pre.pipelines@[pi].models@[mi].id@ != mid {
            assert(post.pipelines@[pi].models@[mi] == pre.pipelines@[pi].models@[mi]);
        } else {
            assert(post.pipelines@[pi].models@[mi].instances@ == Seq::<
                crate::instance::Instance,
            >::empty());
        }
    }
}

impl CoreState {
    /// Plans the next frame: clear to the fixed background and to depth 1.0,
    /// issue exactly the frame's draws in order, then present or export as
    /// the target demands. Planning changes nothing: a failed frame leaves
    /// every loaded model and instance list untouched, and the next plan
    /// starts fresh from the same state.
    pub fn plan_frame(&self) -> (p: FramePlan)
        ensures
            p.clear_color == background_color(),
            p.depth_clear_bits == F32_ONE_BITS,
            p.draws@ == frame_draws(*self),
            self.target matches RenderTargetDesc::Windowed { .. } ==> p.finalize
                == FinalizeStep::Present,
            (match self.target {
                RenderTargetDesc::Offscreen { size, output_path } => p.finalize matches
                    FinalizeStep::CopyAndExport { size: psize, output_path: ppath } && psize == size
                    && ppath@ == output_path@,
                RenderTargetDesc::Windowed { .. } => true,
            }),
    {
        let mut draws: Vec<DrawCall> = Vec::new();
        let mut pi: usize = 0;
        while pi < self.pipelines.len()
            invariant
                pi <= self.pipelines@.len(),
                draws@ == draws_upto(*self, pi as int),
            decreases self.pipelines@.len() - pi,
        {
            let model_count = self.pipelines[pi].models.len();
            let mut mi: usize = 0;
            while mi < model_count
                invariant
                    pi < self.pipelines@.len(),
                    model_count == self.pipelines@[pi as int].models@.len(),
                    mi <= model_count,
                    draws@ == draws_upto(*self, pi as int) + model_draws_upto(
                        *self,
                        pi as int,
                        mi as int,
                    ),
                decreases model_count - mi,
            {
                let mesh_count = self.pipelines[pi].models[mi].meshes.len();
                let instance_count = self.pipelines[pi].models[mi].instances.len();
                let mut j: usize = 0;
                while j < mesh_count
                    invariant
                        pi < self.pipelines@.len(),
                        mi < self.pipelines@[pi as int].models@.len(),
                        mesh_count == self.pipelines@[pi as int].models@[mi as int].meshes@.len(),
                        instance_count == self.pipelines@[pi as int].models@.index(
                            mi as int,
                        ).instances@.len(),
                        j <= mesh_count,
                        draws@ == draws_upto(*self, pi as int) + model_draws_upto(
                            *self,
                            pi as int,
                            mi as int,
                        ) + model_draws(*self, pi as int, mi as int).take(j as int),
                    decreases mesh_count - j,
                {
                    let index_count = self.pipelines[pi].models[mi].meshes[j].indices.len();
                    let material_index = self.pipelines[pi].models[mi].meshes[j].material;
                    draws.push(
                        DrawCall {
                            pipeline_index: pi,
                            model_index: mi,
                            mesh_index: j,
                            index_count,
                            instance_count,
                            material_index,
                        },
                    );
                    j = j + 1;
                    proof {
                        let md = model_draws(*self, pi as int, mi as int);
                        assert(md.take(j as int) =~= md.take(j - 1).push(
                            mesh_draw(*self, pi as int, mi as int, j - 1),
                        ));
                    }
                }
                mi = mi + 1;
                proof {
                    let md = model_draws(*self, pi as int, mi - 1);
                    assert(md.take(md.len() as int) =~= md);
                }
            }
            pi = pi + 1;
        }
        let finalize = match &self.target {
            RenderTargetDesc::Windowed { .. } => FinalizeStep::Present,
            RenderTargetDesc::Offscreen { size, output_path } => FinalizeStep::CopyAndExport {
                size: *size,
                output_path: output_path.clone(),
            },
        };
        FramePlan {
            clear_color: ClearColor {
                r: F64_CLEAR_R_BITS,
                g: F64_CLEAR_G_BITS,
                b: F64_CLEAR_B_BITS,
                a: F64_ONE_BITS,
            },
            depth_clear_bits: F32_ONE_BITS,
            draws,
            finalize,
        }
    }
}

} // verus!
