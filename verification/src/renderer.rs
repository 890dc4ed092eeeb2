//! The render orchestrator.
//!
//! [`RendererCore`] owns the verified state of the renderer: the surface
//! configuration, the camera input controller, the texture, material and
//! object stores, and the frame counters.  The host owns the GPU handles
//! and drives one frame at a time: it advances the camera and the
//! objects, asks the surface for a frame, reports the outcome to
//! [`RendererCore::begin_frame`], and performs the action the core
//! decides — draw the plan of [`RendererCore::plan_draw_calls`],
//! reconfigure and retry, or skip the frame.
//!
//! The frame-acquisition policy: a `Lost` surface is reconfigured and the
//! acquisition retried once, and a failing retry is fatal; an `Outdated`
//! surface is reconfigured and the frame skipped; every other acquisition
//! error only skips the frame.  A skipped frame leaves the core ready, so
//! the next redraw request proceeds normally.

use vstd::prelude::*;

use crate::camera::CameraController;
use crate::camera::CameraKey;
use crate::camera::spec_process_key;
use crate::camera::spec_process_mouse_delta;
use crate::context::SurfaceConfig;
use crate::context::spec_resize;
use crate::material::MaterialStore;
use crate::object::Model;
use crate::object::ObjectManager;
use crate::object::Vec3i;
use crate::object::spec_identity_rotation;
use crate::shader::ShaderType;
use crate::texture::TextureStore;
use crate::texture::spec_depth_texture;

verus! {

/// The outcome the host got when it asked the surface for the next frame.
#[derive(Clone, Copy, Debug, PartialEq, Eq, Structural)]
pub enum AcquireResult {
    /// A presentable frame came back.
    Acquired,
    /// The surface is lost and must be reconfigured.
    Lost,
    /// The surface no longer matches the window and must be reconfigured.
    Outdated,
    /// No frame became available in time.
    Timeout,
    /// The GPU is out of memory.
    OutOfMemory,
    /// Any other acquisition error.
    Other,
}

/// What the host must do with the frame it asked for.
#[derive(Clone, Copy, Debug, PartialEq, Eq, Structural)]
pub enum FrameAction {
    /// Record and submit the draw plan, then present.
    Draw,
    /// Reconfigure the surface and retry the acquisition once.
    RetryAfterReconfigure,
    /// Reconfigure the surface and skip this frame.
    SkipAndReconfigure,
    /// Skip this frame.
    Skip,
}

/// What the host must do after the one retry that a lost surface allows.
#[derive(Clone, Copy, Debug, PartialEq, Eq, Structural)]
pub enum RetryAction {
    /// The retry produced a frame: draw it.
    Draw,
    /// The retry failed too: rendering cannot continue.
    Fatal,
}

/// One indexed draw: which object and which of its meshes to draw, the
/// texture to bind for it, and how many indices the draw covers.  The
/// host binds, in this order, the camera group, the texture's group and
/// the object's transform group, and issues the indexed draw.
#[derive(Clone, Copy, Debug, PartialEq, Eq, Structural)]
pub struct DrawCall {
    pub object_index: usize,
    pub mesh_index: usize,
    pub texture_id: u32,
    pub num_elements: u32,
}

/// `a + 1` clamped to the `u64` range.
pub open spec fn sat_inc64(a: u64) -> u64 {
    if a == u64::MAX {
        a
    } else {
        (a + 1) as u64
    }
}

/// The action the acquisition policy decides for a first acquisition
/// outcome.
pub open spec fn spec_frame_action(r: AcquireResult) -> FrameAction {
    match r {
        AcquireResult::Acquired => FrameAction::Draw,
        AcquireResult::Lost => FrameAction::RetryAfterReconfigure,
        AcquireResult::Outdated => FrameAction::SkipAndReconfigure,
        AcquireResult::Timeout => FrameAction::Skip,
        AcquireResult::OutOfMemory => FrameAction::Skip,
        AcquireResult::Other => FrameAction::Skip,
    }
}

/// Whether a first acquisition outcome skips the frame.
pub open spec fn spec_skips_frame(r: AcquireResult) -> bool {
    spec_frame_action(r) == FrameAction::SkipAndReconfigure || spec_frame_action(r)
        == FrameAction::Skip
}

/// The verified state of the renderer.
pub struct RendererCore {
    pub config: SurfaceConfig,
    pub controller: CameraController,
    pub texture_store: TextureStore,
    pub material_store: MaterialStore,
    pub object_manager: ObjectManager,
    pub frames_presented: u64,
    pub frames_skipped: u64,
    pub failed: bool,
}

/// What reporting a first acquisition outcome does to the core, and what
/// it decides: a skipped frame is counted, everything else is untouched,
/// and the core stays ready.
pub open spec fn spec_begin_frame(s: RendererCore, r: AcquireResult) -> (RendererCore, FrameAction) {
    (
        RendererCore {
            frames_skipped: if spec_skips_frame(r) {
                sat_inc64(s.frames_skipped)
            } else {
                s.frames_skipped
            },
            ..s
        },
        spec_frame_action(r),
    )
}

/// What reporting the retry's outcome does to the core: anything but a
/// frame is fatal.
pub open spec fn spec_retry_frame(s: RendererCore, r: AcquireResult) -> (RendererCore, RetryAction) {
    if r == AcquireResult::Acquired {
        (s, RetryAction::Draw)
    } else {
        (RendererCore { failed: true, ..s }, RetryAction::Fatal)
    }
}

impl RendererCore {
    /// Every material — the default one included — points at a texture
    /// that the texture store holds, so that every draw of the plan can
    /// bind its texture.  Established at load time: a dangling texture
    /// reference is a broken scene, caught before drawing.
    pub open spec fn well_formed(&self) -> bool {
        &&& (self.material_store.default_material.diffuse_texture_id as int)
            < self.texture_store.textures().len()
        &&& forall|i: int|
            0 <= i < self.material_store.materials().len() ==> (
            self.material_store.materials()[i].diffuse_texture_id as int)
                < self.texture_store.textures().len()
    }

    /// The texture that the draw of a mesh with this material handle
    /// binds: the material's diffuse texture, with the default material
    /// standing in for an unknown handle.
    pub open spec fn spec_resolved_texture_id(&self, material_id: u32) -> u32 {
        if (material_id as int) < self.material_store.materials().len() {
            self.material_store.materials()[material_id as int].diffuse_texture_id
        } else {
            self.material_store.default_material.diffuse_texture_id
        }
    }

    /// The draw calls of one object, one per mesh, in mesh order.
    pub open spec fn spec_draw_calls_for_object(&self, oi: int) -> Seq<DrawCall>
        recommends
            0 <= oi < self.object_manager.draw_order().len(),
    {
        let obj = self.object_manager.draw_order()[oi];
        Seq::new(
            obj.model.meshes@.len(),
            |mi: int|
                DrawCall {
                    object_index: oi as usize,
                    mesh_index: mi as usize,
                    texture_id: self.spec_resolved_texture_id(obj.model.meshes@[mi].material_id),
                    num_elements: obj.model.meshes@[mi].num_elements,
                },
        )
    }

    /// The draw calls of the first `n` objects of the iteration order.
    pub open spec fn spec_draw_plan_prefix(&self, n: int) -> Seq<DrawCall>
        decreases n,
    {
        if n <= 0 {
            Seq::empty()
        } else {
            self.spec_draw_plan_prefix(n - 1) + self.spec_draw_calls_for_object(n - 1)
        }
    }

    /// The frame's whole draw plan: every object of the iteration order,
    /// in order, each mesh in mesh order.
    pub open spec fn spec_draw_plan(&self) -> Seq<DrawCall> {
        self.spec_draw_plan_prefix(self.object_manager.draw_order().len() as int)
    }

    /// A core over a fresh surface configuration: the baseline material
    /// store, an empty texture store with a fitting depth buffer, a scene
    /// holding the ground plane built from the given model, an idle
    /// camera controller, and no frame rendered or skipped yet.
    pub fn new(
        format: u32,
        width: u32,
        height: u32,
        present_mode: u32,
        ground_model: Model,
    ) -> (r: RendererCore)
        ensures
            r.config == (SurfaceConfig {
                format,
                width,
                height,
                present_mode,
                desired_maximum_frame_latency: 2,
            }),
            r.controller == (CameraController {
                look_around: false,
                move_forward: false,
                move_backward: false,
                move_left: false,
                move_right: false,
                mouse_delta_x: 0,
                mouse_delta_y: 0,
            }),
            r.texture_store.textures().len() == 0,
            r.texture_store.depth_texture == spec_depth_texture(r.config),
            r.material_store.materials().len() == 2,
            r.material_store.materials()[0].shader_type == ShaderType::Basic,
            r.material_store.materials()[0].diffuse_texture_id == 0,
            r.material_store.materials()[1].shader_type == ShaderType::Grid,
            r.material_store.materials()[1].diffuse_texture_id == 0,
            r.material_store.default_material.shader_type == ShaderType::Basic,
            r.material_store.default_material.diffuse_texture_id == 0,
            r.object_manager.immutables().len() == 1,
            r.object_manager.immutables()[0].model == ground_model,
            r.object_manager.immutables()[0].position == (Vec3i { x: 0, y: 0, z: 0 }),
            r.object_manager.immutables()[0].rotation == spec_identity_rotation(),
            r.object_manager.immutables()[0].scale == (Vec3i { x: 100, y: 100, z: 100 }),
            r.object_manager.actors().len() == 0,
            r.frames_presented == 0,
            r.frames_skipped == 0,
            !r.failed,
    {
        let config = SurfaceConfig::new(format, width, height, present_mode);
        let texture_store = TextureStore::new(&config);
        RendererCore {
            config,
            controller: CameraController::new(),
            texture_store,
            material_store: MaterialStore::new(),
            object_manager: ObjectManager::new(ground_model),
            frames_presented: 0,
            frames_skipped: 0,
            failed: false,
        }
    }

    /// Hands a key event to the camera controller and reports whether it
    /// was consumed.
    pub fn handle_camera_movement(&mut self, key: CameraKey, pressed: bool) -> (consumed: bool)
        ensures
            (final(self).controller, consumed) == spec_process_key(
                old(self).controller,
                key,
                pressed,
            ),
            *final(self) == (RendererCore { controller: final(self).controller, ..*old(self) }),
    {
        self.controller.process_input_events(key, pressed)
    }

    /// Hands a mouse motion delta to the camera controller.
    pub fn handle_mouse_delta(&mut self, dx: i64, dy: i64)
        ensures
            final(self).controller == spec_process_mouse_delta(old(self).controller, dx, dy),
            *final(self) == (RendererCore { controller: final(self).controller, ..*old(self) }),
    {
        self.controller.process_mouse_delta(dx, dy)
    }

    /// Applies a window resize: a request with a zero dimension changes
    /// nothing; otherwise the surface configuration takes the new size
    /// and the depth buffer is recreated to fit it, and the host must
    /// reconfigure the surface before the next frame.
    pub fn resize(&mut self, width: u32, height: u32) -> (applied: bool)
        ensures
            applied == (width != 0 && height != 0),
            !applied ==> *final(self) == *old(self),
            applied ==> *final(self) == (RendererCore {
                config: spec_resize(old(self).config, width, height),
                texture_store: TextureStore {
                    depth_texture: spec_depth_texture(spec_resize(old(self).config, width, height)),
                    ..old(self).texture_store
                },
                ..*old(self)
            }),
    {
        let applied = self.config.resize(width, height);
        if applied {
            self.texture_store.depth_texture = TextureStore::create_depth_texture(&self.config);
        }
        applied
    }

    /// Reports the outcome of this frame's acquisition and decides what
    /// to do with the frame.  A skipped frame is counted and leaves the
    /// core ready for the next one.
    pub fn begin_frame(&mut self, r: AcquireResult) -> (a: FrameAction)
        requires
            !old(self).failed,
        ensures
            (*final(self), a) == spec_begin_frame(*old(self), r),
    {
        match r {
            AcquireResult::Acquired => FrameAction::Draw,
            AcquireResult::Lost => FrameAction::RetryAfterReconfigure,
            AcquireResult::Outdated => {
                self.frames_skipped = if self.frames_skipped == u64::MAX {
                    self.frames_skipped
                } else {
                    self.frames_skipped + 1
                };
                FrameAction::SkipAndReconfigure
            },
            _ => {
                self.frames_skipped = if self.frames_skipped == u64::MAX {
                    self.frames_skipped
                } else {
                    self.frames_skipped + 1
                };
                FrameAction::Skip
            },
        }
    }

    /// Reports the outcome of the one retry a lost surface allows.
    /// Anything but a frame is fatal: rendering cannot continue without a
    /// surface, and the core refuses further frames.
    pub fn retry_frame(&mut self, r: AcquireResult) -> (a: RetryAction)
        requires
            !old(self).failed,
        ensures
            (*final(self), a) == spec_retry_frame(*old(self), r),
    {
        match r {
            AcquireResult::Acquired => RetryAction::Draw,
            _ => {
                self.failed = true;
                RetryAction::Fatal
            },
        }
    }

    /// Counts a drawn and presented frame.
    pub fn complete_frame(&mut self)
        ensures
            *final(self) == (RendererCore {
                frames_presented: sat_inc64(old(self).frames_presented),
                ..*old(self)
            }),
    {
        self.frames_presented = if self.frames_presented == u64::MAX {
            self.frames_presented
        } else {
            self.frames_presented + 1
        };
    }

    /// The draw plan of this frame: one indexed draw per mesh of every
    /// object, objects in iteration order, each with the texture its
    /// material resolves to (the default material standing in for an
    /// unknown handle).  Every planned draw binds a texture the store
    /// holds.
    pub fn plan_draw_calls(&self) -> (r: Vec<DrawCall>)
        requires
            self.well_formed(),
        ensures
            r@ == self.spec_draw_plan(),
            forall|k: int|
                0 <= k < r@.len() ==> (#[trigger] r@[k].texture_id as int)
                    < self.texture_store.textures().len(),
    {
        let objects = self.object_manager.iter();
        let mut r: Vec<DrawCall> = Vec::new();
        let mut oi: usize = 0;
        while oi < objects.len()
            invariant
                oi <= objects@.len(),
                objects@.len() == self.object_manager.draw_order().len(),
                forall|i: int|
                    0 <= i < objects@.len() ==> *(#[trigger] objects@[i])
                        == self.object_manager.draw_order()[i],
                r@ == self.spec_draw_plan_prefix(oi as int),
                forall|k: int|
                    0 <= k < r@.len() ==> (#[trigger] r@[k].texture_id as int)
                        < self.texture_store.textures().len(),
                self.well_formed(),
            decreases objects@.len() - oi,
        {
            let obj: &crate::object::Object = objects[oi];
            let ghost plan_for_object = self.spec_draw_calls_for_object(oi as int);
            let mut mi: usize = 0;
            while mi < obj.model.meshes.len()
                invariant
                    mi <= obj.model.meshes@.len(),
                    oi < self.object_manager.draw_order().len(),
                    *obj == self.object_manager.draw_order()[oi as int],
                    plan_for_object == self.spec_draw_calls_for_object(oi as int),
                    r@ == self.spec_draw_plan_prefix(oi as int) + plan_for_object.take(mi as int),
                    forall|k: int|
                        0 <= k < r@.len() ==> (#[trigger] r@[k].texture_id as int)
                            < self.texture_store.textures().len(),
                    self.well_formed(),
                decreases obj.model.meshes@.len() - mi,
            {
                let mesh = obj.model.meshes[mi];
                let material = self.material_store.get_material(mesh.material_id);
                let call = DrawCall {
                    object_index: oi,
                    mesh_index: mi,
                    texture_id: material.diffuse_texture_id,
                    num_elements: mesh.num_elements,
                };
                r.push(call);
                mi = mi + 1;
                proof {
                    assert(plan_for_object[mi - 1] == call);
                    assert(r@ == self.spec_draw_plan_prefix(oi as int) + plan_for_object.take(
                        mi as int,
                    )) by {
                        assert(plan_for_object.take(mi as int) == plan_for_object.take(
                            mi - 1,
                        ).push(call));
                        assert(r@ =~= self.spec_draw_plan_prefix(oi as int) + plan_for_object.take(
                            mi as int,
                        ));
                    };
                }
            }
            oi = oi + 1;
            proof {
                assert(plan_for_object.take(obj.model.meshes@.len() as int) =~= plan_for_object);
                assert(r@ == self.spec_draw_plan_prefix(oi as int));
            }
        }
        r
    }
}

/// Law: resizing is idempotent in observable output — applying the same
/// size request twice leaves the same surface configuration and the same
/// depth-buffer descriptor as applying it once.
pub proof fn lemma_resize_depth_idempotent(c: SurfaceConfig, width: u32, height: u32)
    ensures
        spec_resize(spec_resize(c, width, height), width, height) == spec_resize(c, width, height),
        spec_depth_texture(spec_resize(spec_resize(c, width, height), width, height))
            == spec_depth_texture(spec_resize(c, width, height)),
{
}

/// Law: an `Outdated` surface during a frame skips exactly that frame —
/// the policy orders a reconfigure with no draw, exactly one frame is
/// counted as skipped, nothing is presented, and the core stays ready —
/// and a subsequent normal frame draws as usual from an unchanged core.
pub proof fn lemma_outdated_skips_single_frame(s: RendererCore)
    requires
        !s.failed,
        s.frames_skipped < u64::MAX,
    ensures
        ({
            let (s1, a1) = spec_begin_frame(s, AcquireResult::Outdated);
            let (s2, a2) = spec_begin_frame(s1, AcquireResult::Acquired);
            &&& a1 == FrameAction::SkipAndReconfigure
            &&& s1.frames_skipped == s.frames_skipped + 1
            &&& s1.frames_presented == s.frames_presented
            &&& !s1.failed
            &&& a2 == FrameAction::Draw
            &&& s2 == s1
        }),
{
}

} // verus!
