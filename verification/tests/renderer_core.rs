use manifold::camera::CameraKey;
use manifold::material::Material;
use manifold::object::MeshInfo;
use manifold::object::Model;
use manifold::object::Object;
use manifold::renderer::AcquireResult;
use manifold::renderer::FrameAction;
use manifold::renderer::RendererCore;
use manifold::renderer::RetryAction;
use manifold::shader::ShaderType;

// A valid 1x1 RGBA PNG holding a single opaque red pixel.
fn red_pixel_png() -> Vec<u8> {
    vec![
        137, 80, 78, 71, 13, 10, 26, 10, 0, 0, 0, 13, 73, 72, 68, 82, 0, 0, 0, 1, 0, 0, 0, 1, 8,
        6, 0, 0, 0, 31, 21, 196, 137, 0, 0, 0, 13, 73, 68, 65, 84, 120, 156, 99, 248, 207, 192,
        240, 31, 0, 5, 0, 1, 255, 137, 153, 61, 29, 0, 0, 0, 0, 73, 69, 78, 68, 174, 66, 96, 130,
    ]
}

fn plane_model() -> Model {
    Model { meshes: vec![MeshInfo { material_id: 1, num_elements: 6 }] }
}

fn fresh_core() -> RendererCore {
    RendererCore::new(0, 640, 480, 0, plane_model())
}

#[test]
fn setup_builds_the_baseline_scene() {
    let core = fresh_core();
    assert_eq!(core.config.width, 640);
    assert_eq!(core.config.height, 480);
    assert_eq!(core.config.desired_maximum_frame_latency, 2);
    assert_eq!(core.material_store.materials.len(), 2);
    assert_eq!(core.texture_store.textures.len(), 0);
    assert_eq!(core.texture_store.depth_texture.width, 640);
    assert_eq!(core.object_manager.actor_count(), 0);
    assert_eq!(core.object_manager.iter().len(), 1);
    assert_eq!(core.frames_presented, 0);
    assert_eq!(core.frames_skipped, 0);
    assert!(!core.failed);
    assert!(!core.controller.look_around);
}

#[test]
fn acquired_frame_draws_and_presents() {
    let mut core = fresh_core();
    assert_eq!(core.begin_frame(AcquireResult::Acquired), FrameAction::Draw);
    core.complete_frame();
    assert_eq!(core.frames_presented, 1);
    assert_eq!(core.frames_skipped, 0);
}

#[test]
fn lost_surface_reconfigures_and_retries_once() {
    let mut core = fresh_core();
    assert_eq!(core.begin_frame(AcquireResult::Lost), FrameAction::RetryAfterReconfigure);
    assert_eq!(core.retry_frame(AcquireResult::Acquired), RetryAction::Draw);
    assert!(!core.failed);
}

#[test]
fn failing_retry_is_fatal() {
    let mut core = fresh_core();
    assert_eq!(core.begin_frame(AcquireResult::Lost), FrameAction::RetryAfterReconfigure);
    assert_eq!(core.retry_frame(AcquireResult::Lost), RetryAction::Fatal);
    assert!(core.failed);
}

#[test]
fn outdated_surface_skips_exactly_one_frame() {
    let mut core = fresh_core();
    let action = core.begin_frame(AcquireResult::Outdated);
    assert_eq!(action, FrameAction::SkipAndReconfigure);
    assert_eq!(core.frames_skipped, 1);
    assert_eq!(core.frames_presented, 0);
    assert!(!core.failed);

    // The next redraw request proceeds normally.
    assert_eq!(core.begin_frame(AcquireResult::Acquired), FrameAction::Draw);
    core.complete_frame();
    assert_eq!(core.frames_skipped, 1);
    assert_eq!(core.frames_presented, 1);
}

#[test]
fn other_acquisition_errors_skip_the_frame() {
    let mut core = fresh_core();
    assert_eq!(core.begin_frame(AcquireResult::Timeout), FrameAction::Skip);
    assert_eq!(core.begin_frame(AcquireResult::OutOfMemory), FrameAction::Skip);
    assert_eq!(core.begin_frame(AcquireResult::Other), FrameAction::Skip);
    assert_eq!(core.frames_skipped, 3);
    assert!(!core.failed);
}

#[test]
fn resize_updates_the_config_and_recreates_the_depth_buffer() {
    let mut core = fresh_core();
    assert!(core.resize(1024, 768));
    assert_eq!(core.config.width, 1024);
    assert_eq!(core.config.height, 768);
    assert_eq!(core.texture_store.depth_texture.width, 1024);
    assert_eq!(core.texture_store.depth_texture.height, 768);
}

#[test]
fn zero_size_resize_changes_nothing() {
    let mut core = fresh_core();
    assert!(!core.resize(0, 768));
    assert_eq!(core.config.width, 640);
    assert_eq!(core.config.height, 480);
    assert_eq!(core.texture_store.depth_texture.width, 640);
    assert!(!core.resize(1024, 0));
    assert_eq!(core.config.height, 480);
}

#[test]
fn key_events_reach_the_camera_controller() {
    let mut core = fresh_core();
    assert!(core.handle_camera_movement(CameraKey::KeyW, true));
    assert!(core.controller.move_forward);
    assert!(!core.handle_camera_movement(CameraKey::Other, true));
    core.handle_camera_movement(CameraKey::ShiftLeft, true);
    core.handle_mouse_delta(4, -3);
    assert_eq!((core.controller.mouse_delta_x, core.controller.mouse_delta_y), (4, -3));
}

#[test]
fn draw_plan_covers_every_mesh_in_iteration_order() {
    let mut core = fresh_core();
    core.texture_store.load_texture_from_bytes(&red_pixel_png()).unwrap();
    let mut cube = Object::from_model(Model {
        meshes: vec![
            MeshInfo { material_id: 0, num_elements: 36 },
            MeshInfo { material_id: 777, num_elements: 12 },
        ],
    });
    cube.position = manifold::object::Vec3i { x: 2, y: 0, z: 0 };
    core.object_manager.add_actor(cube);

    let plan = core.plan_draw_calls();
    assert_eq!(plan.len(), 3);

    // The ground plane's single mesh comes first.
    assert_eq!(plan[0].object_index, 0);
    assert_eq!(plan[0].mesh_index, 0);
    assert_eq!(plan[0].num_elements, 6);
    assert_eq!(plan[0].texture_id, 0);

    // Then the actor's meshes, in mesh order.
    assert_eq!(plan[1].object_index, 1);
    assert_eq!(plan[1].mesh_index, 0);
    assert_eq!(plan[1].num_elements, 36);
    // The unknown material handle resolves through the default material.
    assert_eq!(plan[2].object_index, 1);
    assert_eq!(plan[2].mesh_index, 1);
    assert_eq!(plan[2].num_elements, 12);
    assert_eq!(plan[2].texture_id, core.material_store.default_material.diffuse_texture_id);
}

#[test]
fn added_material_reaches_the_draw_plan() {
    let mut core = fresh_core();
    core.texture_store.load_texture_from_bytes(&red_pixel_png()).unwrap();
    core.texture_store.load_texture_from_bytes(&red_pixel_png()).unwrap();
    let id = core.material_store.add_material(Material {
        name: ShaderType::Basic.name(),
        shader_type: ShaderType::Basic,
        diffuse_texture_id: 1,
    });
    core.object_manager.add_actor(Object::from_model(Model {
        meshes: vec![MeshInfo { material_id: id, num_elements: 9 }],
    }));
    let plan = core.plan_draw_calls();
    assert_eq!(plan.len(), 2);
    assert_eq!(plan[1].texture_id, 1);
}
