//! One frame of rendering as a list of commands for the graphics device, and
//! what resolving the pipelines of a scene's meshes does to the cache.

use crate::model::{MaterialView, MeshView, ModelView};
use crate::pipeline::{distinct_keys, has_key, lemma_slot_unique, slot_of, PipelineKeyView};
use vstd::prelude::*;

verus! {

/// The vertex-buffer slot of a mesh's vertices.
pub const VERTEX_SLOT: u32 = 0;

/// The vertex-buffer slot of the per-instance data, shared by all meshes.
pub const INSTANCE_SLOT: u32 = 1;

/// The bind-group index of a mesh's material.
pub const MATERIAL_GROUP: u32 = 0;

/// The bind-group index of the camera.
pub const CAMERA_GROUP: u32 = 1;

/// One step of a frame. Meshes and materials are named by their position in
/// the model, pipelines by their slot in the cache.
#[derive(Debug, Clone, Copy, PartialEq, Eq, Structural)]
pub enum RenderCommand {
    /// Begin the render pass: clear the colour to the background and the
    /// depth to the far value.
    BeginPass,
    /// Bind the pipeline in this slot of the cache.
    SetPipeline { pipeline: usize },
    /// Bind the shared per-instance buffer.
    SetInstanceBuffer { slot: u32 },
    /// Bind the vertex buffer of a mesh.
    SetVertexBuffer { slot: u32, mesh: usize },
    /// Bind the index buffer of a mesh.
    SetIndexBuffer { mesh: usize },
    /// Bind the bind group of a material.
    SetMaterial { group: u32, material: usize },
    /// Bind the bind group of the camera.
    SetCamera { group: u32 },
    /// Draw the indices `0..index_count` for the instances `0..instance_count`.
    DrawIndexed { index_count: u32, instance_count: u32 },
    /// End the pass and submit the recorded commands.
    Submit,
    /// Present the acquired image.
    Present,
}

/// The identities that all pipelines of a scene share.
#[derive(Debug, Clone, Copy, PartialEq, Eq, Structural)]
pub struct PipelineIds {
    pub shader_id: u64,
    pub vertex_layout_id: u64,
    pub camera_layout_id: u64,
}

/// The key of the pipeline that draws `mesh`: the shared shader and vertex
/// layout, the layout of the mesh's material and that of the camera.
pub open spec fn mesh_key(ids: PipelineIds, materials: Seq<MaterialView>, mesh: MeshView) -> PipelineKeyView {
    PipelineKeyView {
        shader_id: ids.shader_id,
        vertex_layout_id: ids.vertex_layout_id,
        bind_group_layout_ids: seq![
            materials[mesh.material as int].layout_id,
            ids.camera_layout_id,
        ],
    }
}

/// The commands that draw the mesh at position `index` with the pipeline in
/// `slot`.
pub open spec fn mesh_commands(index: int, mesh: MeshView, slot: int, instance_count: u32) -> Seq<
    RenderCommand,
> {
    seq![
        RenderCommand::SetPipeline { pipeline: slot as usize },
        RenderCommand::SetInstanceBuffer { slot: INSTANCE_SLOT },
        RenderCommand::SetVertexBuffer { slot: VERTEX_SLOT, mesh: index as usize },
        RenderCommand::SetIndexBuffer { mesh: index as usize },
        RenderCommand::SetMaterial { group: MATERIAL_GROUP, material: mesh.material },
        RenderCommand::SetCamera { group: CAMERA_GROUP },
        RenderCommand::DrawIndexed { index_count: mesh.index_count, instance_count },
    ]
}

/// The commands that draw `meshes` in their order, the mesh at `i` with the
/// pipeline in `slots[i]`.
pub open spec fn draw_commands(meshes: Seq<MeshView>, slots: Seq<int>, instance_count: u32) -> Seq<
    RenderCommand,
>
    decreases meshes.len(),
{
    if meshes.len() == 0 {
        Seq::empty()
    } else {
        draw_commands(meshes.drop_last(), slots.drop_last(), instance_count) + mesh_commands(
            meshes.len() - 1,
            meshes.last(),
            slots.last(),
            instance_count,
        )
    }
}

/// The commands of one whole frame.
pub open spec fn frame_commands(meshes: Seq<MeshView>, slots: Seq<int>, instance_count: u32) -> Seq<
    RenderCommand,
> {
    seq![RenderCommand::BeginPass] + draw_commands(meshes, slots, instance_count) + seq![
        RenderCommand::Submit,
        RenderCommand::Present,
    ]
}

/// Each mesh contributes seven commands.
pub proof fn lemma_draw_commands_len(meshes: Seq<MeshView>, slots: Seq<int>, instance_count: u32)
    ensures
        draw_commands(meshes, slots, instance_count).len() == 7 * meshes.len(),
    decreases meshes.len(),
{
    if meshes.len() > 0 {
        lemma_draw_commands_len(meshes.drop_last(), slots.drop_last(), instance_count);
    }
}

/// Drawing one mesh more appends the commands of that mesh.
pub proof fn lemma_draw_commands_step(
    meshes: Seq<MeshView>,
    slots: Seq<int>,
    instance_count: u32,
    slot: int,
)
    requires
        slots.len() < meshes.len(),
    ensures
        draw_commands(meshes.take(slots.len() as int + 1), slots.push(slot), instance_count)
            == draw_commands(meshes.take(slots.len() as int), slots, instance_count) + mesh_commands(
            slots.len() as int,
            meshes[slots.len() as int],
            slot,
            instance_count,
        ),
{
    let next = meshes.take(slots.len() as int + 1);
    assert(next.drop_last() =~= meshes.take(slots.len() as int));
    assert(next.last() == meshes[slots.len() as int]);
    assert(slots.push(slot).drop_last() =~= slots);
}

/// The meshes are drawn in their order, each with the seven commands of its
/// own: the commands of the mesh at `index` stand at `7 * index`.
pub proof fn lemma_draw_commands_of_mesh(
    meshes: Seq<MeshView>,
    slots: Seq<int>,
    instance_count: u32,
    index: int,
)
    requires
        slots.len() == meshes.len(),
        0 <= index < meshes.len(),
    ensures
        draw_commands(meshes, slots, instance_count).len() == 7 * meshes.len(),
        draw_commands(meshes, slots, instance_count).subrange(7 * index, 7 * index + 7)
            == mesh_commands(index, meshes[index], slots[index], instance_count),
    decreases meshes.len(),
{
    let all = draw_commands(meshes, slots, instance_count);
    let front = draw_commands(meshes.drop_last(), slots.drop_last(), instance_count);
    let back = mesh_commands(meshes.len() - 1, meshes.last(), slots.last(), instance_count);
    lemma_draw_commands_len(meshes, slots, instance_count);
    lemma_draw_commands_len(meshes.drop_last(), slots.drop_last(), instance_count);
    assert(all == front + back);
    if index == meshes.len() - 1 {
        assert(all.subrange(7 * index, 7 * index + 7) =~= back);
    } else {
        lemma_draw_commands_of_mesh(meshes.drop_last(), slots.drop_last(), instance_count, index);
        assert(all.subrange(7 * index, 7 * index + 7) =~= front.subrange(7 * index, 7 * index + 7));
    }
}

/// A frame begins the pass, draws every mesh once and in order, submits and
/// presents.
pub proof fn lemma_frame_commands_shape(
    meshes: Seq<MeshView>,
    slots: Seq<int>,
    instance_count: u32,
)
    requires
        slots.len() == meshes.len(),
    ensures
        frame_commands(meshes, slots, instance_count).len() == 7 * meshes.len() + 3,
        frame_commands(meshes, slots, instance_count).first() == RenderCommand::BeginPass,
        frame_commands(meshes, slots, instance_count)[7 * meshes.len() as int + 1]
            == RenderCommand::Submit,
        frame_commands(meshes, slots, instance_count).last() == RenderCommand::Present,
        forall|index: int|
            0 <= index < meshes.len() ==> #[trigger] frame_commands(
                meshes,
                slots,
                instance_count,
            ).subrange(1 + 7 * index, 8 + 7 * index) == mesh_commands(
                index,
                meshes[index],
                slots[index],
                instance_count,
            ),
{
    let frame = frame_commands(meshes, slots, instance_count);
    let draws = draw_commands(meshes, slots, instance_count);
    lemma_draw_commands_len(meshes, slots, instance_count);
    assert forall|index: int| 0 <= index < meshes.len() implies #[trigger] frame.subrange(
        1 + 7 * index,
        8 + 7 * index,
    ) == mesh_commands(index, meshes[index], slots[index], instance_count) by {
        lemma_draw_commands_of_mesh(meshes, slots, instance_count, index);
        assert(frame.subrange(1 + 7 * index, 8 + 7 * index) =~= draws.subrange(
            7 * index,
            7 * index + 7,
        ));
    }
}

/// What decides the pipelines of a scene: the shared identities and the
/// scene's layout.
pub struct Scene {
    pub ids: PipelineIds,
    pub model: ModelView,
}

impl Scene {
    /// The key of the pipeline that draws the mesh at `i`.
    pub open spec fn key_at(self, i: int) -> PipelineKeyView {
        mesh_key(self.ids, self.model.materials, self.model.meshes[i])
    }

    /// For each mesh, the slot of `cache` that holds its pipeline.
    pub open spec fn slots<H>(self, cache: Seq<(PipelineKeyView, H)>) -> Seq<int> {
        Seq::new(self.model.meshes.len(), |i: int| slot_of(cache, self.key_at(i)))
    }

    /// Whether `cache` holds the pipeline of every mesh.
    pub open spec fn all_compiled<H>(self, cache: Seq<(PipelineKeyView, H)>) -> bool {
        forall|i: int| 0 <= i < self.model.meshes.len() ==> has_key(cache, #[trigger] self.key_at(i))
    }

    /// Whether the mesh at `i` is the first with the key `key`.
    pub open spec fn first_with_key(self, i: usize, key: PipelineKeyView) -> bool {
        &&& self.key_at(i as int) == key
        &&& forall|j: int| 0 <= j < i ==> #[trigger] self.key_at(j) != key
    }

    /// Whether a frame that starts with `cache` compiles a pipeline at the
    /// mesh at `i`: the cache lacks the mesh's key, and no earlier mesh has
    /// that key.
    pub open spec fn compiles_at<H>(self, cache: Seq<(PipelineKeyView, H)>, i: usize) -> bool {
        &&& !has_key(cache, self.key_at(i as int))
        &&& self.first_with_key(i, self.key_at(i as int))
    }

    /// Whether `build` made the pipeline of `entry` when called with the
    /// position of the first mesh that has the entry's key, one of the first
    /// `count` meshes.
    pub open spec fn built_for<H, F: Fn(usize) -> H>(
        self,
        build: F,
        entry: (PipelineKeyView, H),
        count: usize,
    ) -> bool {
        exists|i: usize|
            i < count && #[trigger] self.first_with_key(i, entry.0) && build.ensures((i,), entry.1)
    }

    /// What holds of the cache `now` once the pipelines of the first `count`
    /// meshes are resolved, starting from the cache `before`: nothing that
    /// was cached has changed, `slots` names the slot of each of these
    /// meshes, and what was added was built for them by `build`.
    pub open spec fn resolved<H, F: Fn(usize) -> H>(
        self,
        build: F,
        before: Seq<(PipelineKeyView, H)>,
        now: Seq<(PipelineKeyView, H)>,
        slots: Seq<int>,
        count: usize,
    ) -> bool {
        &&& distinct_keys(now)
        &&& before.is_prefix_of(now)
        &&& slots.len() == count
        &&& forall|j: int|
            0 <= j < count ==> 0 <= #[trigger] slots[j] < now.len() && now[slots[j]].0 == self.key_at(j)
        &&& (forall|j: int| 0 <= j < count ==> has_key(before, #[trigger] self.key_at(j))) ==> now
            == before
        &&& forall|s: int|
            before.len() <= s < now.len() ==> self.built_for(build, #[trigger] now[s], count)
    }

    /// A key that was cached at the start is cached throughout.
    pub proof fn lemma_resolved_keeps_keys<H, F: Fn(usize) -> H>(
        self,
        build: F,
        before: Seq<(PipelineKeyView, H)>,
        now: Seq<(PipelineKeyView, H)>,
        slots: Seq<int>,
        count: usize,
        key: PipelineKeyView,
    )
        requires
            self.resolved(build, before, now, slots, count),
            has_key(before, key),
        ensures
            has_key(now, key),
    {
        let s = slot_of(before, key);
        assert(now[s] == before[s]);
    }

    /// Where the cache lacks the key of the next mesh, the frame compiles a
    /// pipeline at that mesh.
    pub proof fn lemma_resolved_miss<H, F: Fn(usize) -> H>(
        self,
        build: F,
        before: Seq<(PipelineKeyView, H)>,
        now: Seq<(PipelineKeyView, H)>,
        slots: Seq<int>,
        count: usize,
    )
        requires
            self.resolved(build, before, now, slots, count),
            !has_key(now, self.key_at(count as int)),
        ensures
            self.compiles_at(before, count),
    {
        let key = self.key_at(count as int);
        if has_key(before, key) {
            self.lemma_resolved_keeps_keys(build, before, now, slots, count, key);
        }
        assert forall|j: int| 0 <= j < count implies #[trigger] self.key_at(j) != key by {
            assert(now[slots[j]].0 == self.key_at(j));
        }
    }

    /// Resolving the pipeline of the next mesh keeps what holds of the
    /// cache: on a hit the cache is as it was, on a miss it has one entry
    /// more, built for that mesh.
    pub proof fn lemma_resolved_step<H, F: Fn(usize) -> H>(
        self,
        build: F,
        before: Seq<(PipelineKeyView, H)>,
        cache: Seq<(PipelineKeyView, H)>,
        now: Seq<(PipelineKeyView, H)>,
        slots: Seq<int>,
        count: usize,
        slot: int,
    )
        requires
            self.resolved(build, before, cache, slots, count),
            count < usize::MAX,
            distinct_keys(now),
            0 <= slot < now.len(),
            now[slot].0 == self.key_at(count as int),
            has_key(cache, self.key_at(count as int)) ==> now == cache,
            !has_key(cache, self.key_at(count as int)) ==> {
                &&& slot == cache.len()
                &&& now == cache.push((self.key_at(count as int), now[slot].1))
                &&& build.ensures((count,), now[slot].1)
            },
        ensures
            self.resolved(build, before, now, slots.push(slot), (count + 1) as usize),
    {
        let key = self.key_at(count as int);
        let grown = slots.push(slot);
        let more = (count + 1) as usize;
        assert(cache.is_prefix_of(now)) by {
            assert(cache =~= now.subrange(0, cache.len() as int));
        }
        assert(before.is_prefix_of(now)) by {
            assert(before =~= now.subrange(0, before.len() as int));
        }
        assert forall|j: int| 0 <= j < more implies 0 <= #[trigger] grown[j] < now.len()
            && now[grown[j]].0 == self.key_at(j) by {
            if j < count {
                assert(grown[j] == slots[j]);
                assert(now[slots[j]] == cache[slots[j]]);
            }
        }
        assert forall|s: int| before.len() <= s < now.len() implies self.built_for(
            build,
            #[trigger] now[s],
            more,
        ) by {
            if s < cache.len() {
                assert(now[s] == cache[s]);
                assert(self.built_for(build, cache[s], count));
                let j = choose|j: usize|
                    j < count && #[trigger] self.first_with_key(j, cache[s].0) && build.ensures(
                        (j,),
                        cache[s].1,
                    );
                assert(self.first_with_key(j, now[s].0));
            } else {
                assert forall|j: int| 0 <= j < count implies #[trigger] self.key_at(j) != key by {
                    assert(cache[slots[j]].0 == self.key_at(j));
                }
                assert(self.first_with_key(count, now[s].0));
            }
        }
        if forall|j: int| 0 <= j < more ==> has_key(before, #[trigger] self.key_at(j)) {
            assert(has_key(before, self.key_at(count as int)));
            assert(cache == before);
            assert(has_key(cache, key));
        }
    }

    /// Once the pipelines of all meshes are resolved, every mesh has its
    /// pipeline in the cache, in the slot that `slots` names.
    pub proof fn lemma_resolved_all<H, F: Fn(usize) -> H>(
        self,
        build: F,
        before: Seq<(PipelineKeyView, H)>,
        now: Seq<(PipelineKeyView, H)>,
        slots: Seq<int>,
    )
        requires
            self.model.meshes.len() <= usize::MAX,
            self.resolved(build, before, now, slots, self.model.meshes.len() as usize),
        ensures
            slots == self.slots(now),
            self.all_compiled(now),
    {
        assert forall|j: int| 0 <= j < self.model.meshes.len() implies slots[j] == slot_of(
            now,
            self.key_at(j),
        ) && has_key(now, #[trigger] self.key_at(j)) by {
            lemma_slot_unique(now, self.key_at(j), slots[j]);
        }
        assert(slots =~= self.slots(now));
    }
}

} // verus!
