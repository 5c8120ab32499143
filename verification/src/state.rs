//! What the renderer keeps between frames, and what an event or a frame
//! does to it.

use crate::camera::{command_for, dragging_after, valid_size};
use crate::camera::{Camera, CameraCommand, CameraController, Key, WindowEvent};
use crate::frame::{draw_commands, frame_commands, lemma_draw_commands_step, mesh_commands};
use crate::frame::{PipelineIds, RenderCommand, Scene};
use crate::frame::{CAMERA_GROUP, INSTANCE_SLOT, MATERIAL_GROUP, VERTEX_SLOT};
use crate::model::{MeshView, Model};
use crate::pipeline::{has_key, PipelineCache, PipelineKey, PipelineKeyView};
use crate::surface::SurfaceError;
use vstd::prelude::*;

verus! {

/// What the renderer keeps between frames.
pub struct State<S, H> {
    pub size: (u32, u32),
    pub camera: Camera<S>,
    pub camera_controller: CameraController<S>,
    pub pipelines: PipelineCache<H>,
    pub model: Model,
    pub ids: PipelineIds,
    pub instance_count: u32,
    pub surface_format: u64,
}

/// What became of an event that was offered to the state.
#[derive(Debug, PartialEq)]
pub struct Input<S> {
    /// Whether the event is settled, so that the event loop ignores it.
    pub handled: bool,
    pub command: Option<CameraCommand<S>>,
}

impl<S: Copy, H> State<S, H> {
    pub open spec fn wf(&self) -> bool {
        &&& self.camera.wf()
        &&& self.pipelines.wf()
        &&& self.model.wf()
    }

    /// What decides the pipelines: the shared identities and the model.
    pub open spec fn scene(&self) -> Scene {
        Scene { ids: self.ids, model: self.model@ }
    }

    /// A state with no pipeline compiled yet.
    pub fn new(
        size: (u32, u32),
        camera: Camera<S>,
        camera_controller: CameraController<S>,
        model: Model,
        ids: PipelineIds,
        instance_count: u32,
        surface_format: u64,
    ) -> (state: Self)
        requires
            camera.wf(),
            model.wf(),
        ensures
            state.wf(),
            state.size == size,
            state.camera == camera,
            state.camera_controller == camera_controller,
            state.model == model,
            state.ids == ids,
            state.instance_count == instance_count,
            state.surface_format == surface_format,
            state.pipelines@ == Seq::<(PipelineKeyView, H)>::empty(),
    {
        State {
            size,
            camera,
            camera_controller,
            pipelines: PipelineCache::new(),
            model,
            ids,
            instance_count,
            surface_format,
        }
    }

    pub fn size(&self) -> (size: (u32, u32))
        ensures
            size == self.size,
    {
        self.size
    }

    /// Takes a new surface size. Returns whether the surface and what depends
    /// on its size are to be configured again; a size with a zero dimension
    /// is ignored.
    pub fn resize(&mut self, new_size: (u32, u32)) -> (reconfigure: bool)
        ensures
            reconfigure == valid_size(new_size.0, new_size.1),
            *final(self) == (if reconfigure {
                State { size: new_size, ..*old(self) }
            } else {
                *old(self)
            }),
    {
        if new_size.0 > 0 && new_size.1 > 0 {
            self.size = new_size;
            true
        } else {
            false
        }
    }

    /// Takes the format of the surface. Pipelines are compiled for one
    /// format, so a change of it empties the cache.
    pub fn set_surface_format(&mut self, format: u64)
        requires
            old(self).wf(),
        ensures
            final(self).wf(),
            final(self).surface_format == format,
            final(self).pipelines@ == (if format == old(self).surface_format {
                old(self).pipelines@
            } else {
                Seq::<(PipelineKeyView, H)>::empty()
            }),
            final(self).size == old(self).size,
            final(self).camera == old(self).camera,
            final(self).camera_controller == old(self).camera_controller,
            final(self).model == old(self).model,
            final(self).ids == old(self).ids,
            final(self).instance_count == old(self).instance_count,
    {
        if format != self.surface_format {
            self.pipelines.invalidate_all();
            self.surface_format = format;
        }
    }

    /// Offers an event to the camera controller. Only a space-bar event is
    /// settled by that; every other event goes on to the event loop.
    pub fn input(&mut self, event: &WindowEvent<S>) -> (input: Input<S>)
        requires
            old(self).wf(),
        ensures
            final(self).wf(),
            input.handled == (*event matches WindowEvent::KeyboardInput { key: Key::Space, .. }),
            input.command == command_for(
                *event,
                old(self).camera_controller.is_left_mouse_pressed,
                old(self).camera_controller.sensitivity,
                old(self).camera@,
            ),
            final(self).camera_controller.sensitivity == old(self).camera_controller.sensitivity,
            final(self).camera_controller.is_left_mouse_pressed == dragging_after(
                *event,
                old(self).camera_controller.is_left_mouse_pressed,
            ),
            final(self).camera@ == old(self).camera@.after(*event),
            final(self).size == old(self).size,
            final(self).pipelines == old(self).pipelines,
            final(self).model == old(self).model,
            final(self).ids == old(self).ids,
            final(self).instance_count == old(self).instance_count,
            final(self).surface_format == old(self).surface_format,
    {
        let handled = self.camera_controller.process_events(event, &mut self.camera);
        let settled = match *event {
            WindowEvent::KeyboardInput { key: Key::Space, .. } => true,
            _ => false,
        };
        Input { handled: settled, command: handled.command }
    }

    /// Whether `after` differs from `before` only in its pipeline cache.
    pub open spec fn same_but_pipelines(before: Self, after: Self) -> bool {
        &&& after.size == before.size
        &&& after.camera == before.camera
        &&& after.camera_controller == before.camera_controller
        &&& after.model == before.model
        &&& after.ids == before.ids
        &&& after.instance_count == before.instance_count
        &&& after.surface_format == before.surface_format
    }

    /// Plans one frame. `acquired` says whether the next image was acquired.
    /// If it was not, the error comes back and nothing is compiled. If it
    /// was, the pipelines that the meshes need and the cache lacks are
    /// compiled by `build`, which is given the position of the first mesh
    /// that needs the pipeline, and the commands of the frame are returned.
    pub fn render<F: Fn(usize) -> H>(&mut self, acquired: Result<(), SurfaceError>, build: F) -> (result:
        Result<Vec<RenderCommand>, SurfaceError>)
        requires
            old(self).wf(),
            acquired is Ok ==> forall|i: usize|
                i < old(self).model@.meshes.len() && #[trigger] old(self).scene().compiles_at(
                    old(self).pipelines@,
                    i,
                ) ==> build.requires((i,)),
        ensures
            final(self).wf(),
            Self::same_but_pipelines(*old(self), *final(self)),
            acquired matches Err(e) ==> result == Err::<Vec<RenderCommand>, SurfaceError>(e)
                && final(self).pipelines@ == old(self).pipelines@,
            acquired is Ok ==> {
                &&& result matches Ok(commands)
                &&& commands@ == frame_commands(
                    final(self).model@.meshes,
                    final(self).scene().slots(final(self).pipelines@),
                    final(self).instance_count,
                )
                &&& final(self).scene().all_compiled(final(self).pipelines@)
                &&& old(self).pipelines@.is_prefix_of(final(self).pipelines@)
                &&& old(self).scene().all_compiled(old(self).pipelines@) ==> final(self).pipelines@
                    == old(self).pipelines@
                &&& forall|s: int|
                    old(self).pipelines@.len() <= s < final(self).pipelines@.len() ==> old(self).scene().built_for(
                        build,
                        #[trigger] final(self).pipelines@[s],
                        old(self).model@.meshes.len() as usize,
                    )
            },
    {
        match acquired {
            Err(e) => {
                return Err(e);
            },
            Ok(_) => {},
        }
        let n = self.model.mesh_count();
        let ghost scene = self.scene();
        let ghost meshes = scene.model.meshes;
        let ghost before = self.pipelines@;
        let mut commands: Vec<RenderCommand> = Vec::new();
        commands.push(RenderCommand::BeginPass);
        let ghost mut slots: Seq<int> = Seq::empty();
        let mut i: usize = 0;
        assert(meshes.take(0) =~= Seq::<MeshView>::empty());
        while i < n
            invariant
                i <= n,
                n == meshes.len(),
                scene == self.scene(),
                meshes == scene.model.meshes,
                before == old(self).pipelines@,
                self.wf(),
                Self::same_but_pipelines(*old(self), *self),
                forall|j: usize|
                    j < n && #[trigger] scene.compiles_at(before, j) ==> build.requires((j,)),
                scene.resolved(build, before, self.pipelines@, slots, i),
                commands@ == seq![RenderCommand::BeginPass] + draw_commands(
                    meshes.take(i as int),
                    slots,
                    self.instance_count,
                ),
            decreases n - i,
        {
            let ghost cache = self.pipelines@;
            let ghost drawn = commands@;
            let key = self.mesh_pipeline_key(i);
            let mesh = self.model.mesh_at(i);
            let material = mesh.material;
            let index_count = mesh.index_count;
            let instance_count = self.instance_count;
            proof {
                if !has_key(cache, key@) {
                    scene.lemma_resolved_miss(build, before, cache, slots, i);
                }
            }
            let make = || -> (h: H)
                requires
                    build.requires((i,)),
                ensures
                    build.ensures((i,), h),
                { build(i) };
            let slot = self.pipelines.get_or_create(key, make);
            commands.push(RenderCommand::SetPipeline { pipeline: slot });
            commands.push(RenderCommand::SetInstanceBuffer { slot: INSTANCE_SLOT });
            commands.push(RenderCommand::SetVertexBuffer { slot: VERTEX_SLOT, mesh: i });
            commands.push(RenderCommand::SetIndexBuffer { mesh: i });
            commands.push(RenderCommand::SetMaterial { group: MATERIAL_GROUP, material });
            commands.push(RenderCommand::SetCamera { group: CAMERA_GROUP });
            commands.push(RenderCommand::DrawIndexed { index_count, instance_count });
            proof {
                lemma_draw_commands_step(meshes, slots, instance_count, slot as int);
                assert(commands@ =~= drawn + mesh_commands(
                    i as int,
                    meshes[i as int],
                    slot as int,
                    instance_count,
                ));
                scene.lemma_resolved_step(build, before, cache, self.pipelines@, slots, i, slot as int);
                slots = slots.push(slot as int);
            }
            i += 1;
        }
        commands.push(RenderCommand::Submit);
        commands.push(RenderCommand::Present);
        proof {
            assert(meshes.take(n as int) =~= meshes);
            scene.lemma_resolved_all(build, before, self.pipelines@, slots);
        }
        Ok(commands)
    }

    /// The key of the pipeline that draws the mesh at `i`.
    pub fn mesh_pipeline_key(&self, i: usize) -> (key: PipelineKey)
        requires
            self.model.wf(),
            i < self.model@.meshes.len(),
        ensures
            key@ == self.scene().key_at(i as int),
    {
        let mesh = self.model.mesh_at(i);
        let material = self.model.material_at(mesh.material);
        let mut layouts: Vec<u64> = Vec::new();
        layouts.push(material.layout_id);
        layouts.push(self.ids.camera_layout_id);
        let key = PipelineKey {
            shader_id: self.ids.shader_id,
            vertex_layout_id: self.ids.vertex_layout_id,
            bind_group_layout_ids: layouts,
        };
        assert(key@.bind_group_layout_ids =~= self.scene().key_at(i as int).bind_group_layout_ids);
        key
    }
}

} // verus!
