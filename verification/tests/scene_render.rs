use game::math::motor::Motor;
use game::math::vector3::Vector3;
use game::render::state::{
    encode_frame, select_alpha_mode, select_surface_format, surface_error_action, update_camera,
    update_spheres, workgroup_count, RecoveryAction, RenderCommand, RenderPlugin, RenderState,
    SphereState, SurfaceError, SurfaceFormatInfo,
};
use game::render::{Camera, Material, Sphere};
use game::scene::{Scene, SceneError};
use game::transform::{Transform, TransformPlugin};
use game::window::{EventAction, WindowEvent, WindowPlugin, WindowSize};

fn translation(x: i64, y: i64, z: i64) -> Transform {
    Transform {
        motor: Motor::translation(Vector3 { x, y, z }),
    }
}

fn camera() -> Camera {
    Camera {
        v_fov: 90_000,
        min_distance: 1,
        max_distance: 100_000,
        max_bounces: 8,
        sun_direction: Vector3 { x: 0, y: -1000, z: 0 },
    }
}

#[test]
fn three_level_chain_composes_root_last() {
    let mut s = Scene::new();
    let root = s.spawn();
    let mid = s.spawn();
    let leaf = s.spawn();
    s.set_transform(root, translation(2, 0, 0));
    s.set_transform(mid, translation(0, 4, 0));
    s.set_transform(leaf, translation(0, 0, 6));
    s.set_parent(mid, root);
    s.set_parent(leaf, mid);
    TransformPlugin::run(&mut s, 0).unwrap();

    let r = translation(2, 0, 0).motor;
    let m = translation(0, 4, 0).motor;
    let l = translation(0, 0, 6).motor;
    let direct = l.pre_apply(m).pre_apply(r);
    let world = s.nodes[leaf].global.unwrap().0.motor;
    assert_eq!(world, direct);
    // translations add, so the leaf sits at the summed offset
    assert_eq!(world, Motor::translation(Vector3 { x: 2, y: 4, z: 6 }));
    // the middle node composes with the root only
    assert_eq!(
        s.nodes[mid].global.unwrap().0.motor,
        Motor::translation(Vector3 { x: 2, y: 4, z: 0 })
    );
}

#[test]
fn unchanged_scene_is_not_recomputed() {
    let mut s = Scene::new();
    let root = s.spawn();
    let child = s.spawn();
    s.set_transform(root, translation(2, 0, 0));
    s.set_transform(child, translation(0, 4, 0));
    s.set_parent(child, root);
    TransformPlugin::run(&mut s, 0).unwrap();
    let tick_after_first = s.nodes[child].global_tick;
    let world_after_first = s.nodes[child].global.unwrap().0.motor;

    let last = s.tick;
    s.advance_tick();
    TransformPlugin::run(&mut s, last).unwrap();
    // untouched: same value, same write tick
    assert_eq!(s.nodes[child].global_tick, tick_after_first);
    assert_eq!(s.nodes[child].global.unwrap().0.motor, world_after_first);

    // now move the root: the child is recomputed
    s.set_transform(root, translation(8, 0, 0));
    let last = s.tick;
    s.advance_tick();
    TransformPlugin::run(&mut s, last - 1).unwrap();
    assert_eq!(
        s.nodes[child].global.unwrap().0.motor,
        Motor::translation(Vector3 { x: 8, y: 4, z: 0 })
    );
}

#[test]
fn removing_a_parent_marks_the_child_changed() {
    let mut s = Scene::new();
    let root = s.spawn();
    let child = s.spawn();
    s.set_transform(root, translation(2, 0, 0));
    s.set_transform(child, translation(0, 4, 0));
    s.set_parent(child, root);
    TransformPlugin::run(&mut s, 0).unwrap();
    assert_eq!(
        s.nodes[child].global.unwrap().0.motor,
        Motor::translation(Vector3 { x: 2, y: 4, z: 0 })
    );

    let last = s.tick;
    s.advance_tick();
    s.remove_parent(child);
    TransformPlugin::run(&mut s, last).unwrap();
    // ancestry changed though the local numbers did not: recomputed
    assert_eq!(
        s.nodes[child].global.unwrap().0.motor,
        Motor::translation(Vector3 { x: 0, y: 4, z: 0 })
    );
}

#[test]
fn parent_cycle_is_a_configuration_error() {
    let mut s = Scene::new();
    let a = s.spawn();
    let b = s.spawn();
    s.set_transform(a, translation(2, 0, 0));
    s.set_transform(b, translation(0, 2, 0));
    s.set_parent(a, b);
    s.set_parent(b, a);
    assert_eq!(
        TransformPlugin::run(&mut s, 0),
        Err(SceneError::CycleDetected)
    );
}

#[test]
fn world_pose_attach_and_detach() {
    let mut s = Scene::new();
    let n = s.spawn();
    s.set_transform(n, translation(2, 0, 0));
    TransformPlugin::run(&mut s, 0).unwrap();
    assert!(s.nodes[n].global.is_some());
    s.remove_transform(n);
    TransformPlugin::run(&mut s, 0).unwrap();
    assert!(s.nodes[n].global.is_none());
}

#[test]
fn missing_and_duplicate_main_camera_are_errors() {
    let mut s = Scene::new();
    let mut rs = RenderState::new(800, 600);
    assert_eq!(
        update_camera(&mut rs, &s, 0),
        Err(SceneError::MainCameraMissing)
    );
    for _ in 0..2 {
        let n = s.spawn();
        s.set_transform(n, translation(0, 0, 0));
        s.set_camera(n, camera());
        s.set_main_camera(n);
    }
    TransformPlugin::run(&mut s, 0).unwrap();
    assert_eq!(
        update_camera(&mut rs, &s, 0),
        Err(SceneError::MainCameraNotUnique)
    );
    assert_eq!(rs.camera_writes, 0);
}

#[test]
fn camera_buffer_words_match_the_layout() {
    let mut s = Scene::new();
    let n = s.spawn();
    s.set_transform(n, translation(-2, 0, 0));
    s.set_camera(n, camera());
    s.set_main_camera(n);
    TransformPlugin::run(&mut s, 0).unwrap();
    let mut rs = RenderState::new(800, 600);
    update_camera(&mut rs, &s, 0).unwrap();
    assert_eq!(rs.camera_writes, 1);
    // world pose (8 words), v_fov, min, max, sun direction (3 words)
    assert_eq!(
        rs.camera_buffer,
        vec![1, 0, 0, 0, 1, 0, 0, 0, 90_000, 1, 100_000, 0, -1000, 0]
    );
}

#[test]
fn sphere_growth_reallocates_exactly_once_and_rebinds() {
    let mut s = Scene::new();
    let n1 = s.spawn();
    s.set_transform(n1, translation(2, 0, 0));
    s.set_material(n1, Material { color: Vector3 { x: 800, y: 800, z: 800 } });
    s.set_sphere(n1, Sphere { radius: 100_000 });
    TransformPlugin::run(&mut s, 0).unwrap();

    let mut ss = SphereState::new();
    assert_eq!(ss.buffer_generation, 0);
    update_spheres(&mut ss, &s, 0);
    // one sphere: a count word plus twelve words
    assert_eq!(ss.writes, 1);
    assert_eq!(ss.buffer_generation, 1);
    assert_eq!(ss.buffer_capacity, 13);
    assert_eq!(
        ss.buffer,
        vec![1, 1, 0, 0, 0, -1, 0, 0, 0, 800, 800, 800, 100_000]
    );

    // grow: a second sphere exceeds the allocation, one more generation
    let last = s.tick;
    s.advance_tick();
    let n2 = s.spawn();
    s.set_transform(n2, translation(0, 4, 0));
    s.set_material(n2, Material { color: Vector3 { x: 100, y: 800, z: 200 } });
    s.set_sphere(n2, Sphere { radius: 1000 });
    TransformPlugin::run(&mut s, last).unwrap();
    update_spheres(&mut ss, &s, last);
    assert_eq!(ss.writes, 2);
    assert_eq!(ss.buffer_generation, 2);
    assert_eq!(ss.buffer_capacity, 25);
    // the full new list, not a truncation
    assert_eq!(
        ss.buffer,
        vec![
            2, 1, 0, 0, 0, -1, 0, 0, 0, 800, 800, 800, 100_000, 1, 0, 0, 0, 0, -2, 0, 0, 100,
            800, 200, 1000
        ]
    );
    // the dispatcher binds the new allocation
    let rs = RenderState::new(800, 600);
    let commands = encode_frame(&rs, &ss);
    assert!(commands.contains(&RenderCommand::BindSphereBuffer { generation: 2 }));
}

#[test]
fn static_scene_uploads_exactly_once() {
    let mut s = Scene::new();
    let cam = s.spawn();
    s.set_transform(cam, translation(-2, 0, 0));
    s.set_camera(cam, camera());
    s.set_main_camera(cam);
    let ball = s.spawn();
    s.set_transform(ball, translation(0, -102_000, 0));
    s.set_material(ball, Material { color: Vector3 { x: 800, y: 800, z: 800 } });
    s.set_sphere(ball, Sphere { radius: 100_000 });

    let mut rs = RenderState::new(640, 480);
    let mut ss = SphereState::new();
    let mut propagate_last = 0u64;
    let mut camera_last = 0u64;
    let mut sphere_last = 0u64;
    for _ in 0..8 {
        TransformPlugin::run(&mut s, propagate_last).unwrap();
        propagate_last = s.tick;
        RenderPlugin::run(&mut rs, &mut ss, &s, camera_last, sphere_last).unwrap();
        camera_last = s.tick;
        sphere_last = s.tick;
        s.advance_tick();
    }
    // written on the first tick, never rewritten afterward
    assert_eq!(rs.camera_writes, 1);
    assert_eq!(ss.writes, 1);
}

#[test]
fn resize_to_zero_clamps_to_one() {
    let mut rs = RenderState::new(800, 600);
    rs.resize(0, 0);
    assert_eq!(rs.surface_width, 1);
    assert_eq!(rs.surface_height, 1);
    assert_eq!(rs.texture_generation, 1);
    let ws = WindowSize::from_event(0, 0);
    assert_eq!(ws.width(), 1);
    assert_eq!(ws.height(), 1);
    let d = WindowSize::default();
    assert_eq!(d.width(), 1);
    assert_eq!(d.height(), 1);
}

#[test]
fn surface_errors_map_to_their_recovery() {
    assert_eq!(
        surface_error_action(SurfaceError::Timeout),
        RecoveryAction::SkipFrame
    );
    assert_eq!(
        surface_error_action(SurfaceError::Outdated),
        RecoveryAction::ResizeAndRetry
    );
    assert_eq!(
        surface_error_action(SurfaceError::Lost),
        RecoveryAction::ReconfigureAndRetry
    );
    assert_eq!(
        surface_error_action(SurfaceError::OutOfMemory),
        RecoveryAction::Abort
    );
}

#[test]
fn workgroups_cover_the_surface() {
    assert_eq!(workgroup_count(1), 1);
    assert_eq!(workgroup_count(16), 1);
    assert_eq!(workgroup_count(17), 2);
    assert_eq!(workgroup_count(800), 50);
    assert_eq!(workgroup_count(600), 38);
}

#[test]
fn frame_commands_run_in_the_fixed_order() {
    let rs = RenderState::new(800, 600);
    let ss = SphereState::new();
    let commands = encode_frame(&rs, &ss);
    assert_eq!(
        commands,
        vec![
            RenderCommand::BeginComputePass,
            RenderCommand::SetRayTracingPipeline,
            RenderCommand::BindOutputTexture { generation: 0 },
            RenderCommand::BindCameraBuffer,
            RenderCommand::BindSphereBuffer { generation: 0 },
            RenderCommand::Dispatch { x: 50, y: 38, z: 1 },
            RenderCommand::EndComputePass,
            RenderCommand::CopyToSurface { width: 800, height: 600 },
            RenderCommand::Submit,
            RenderCommand::PrePresentNotify,
            RenderCommand::Present,
        ]
    );
}

#[test]
fn runner_actions_follow_the_event() {
    assert_eq!(
        WindowPlugin::runner_action(WindowEvent::Init, true),
        EventAction::SetPollControlFlow
    );
    assert_eq!(
        WindowPlugin::runner_action(WindowEvent::AboutToWait, false),
        EventAction::UpdateAndRequestRedraw
    );
    assert_eq!(
        WindowPlugin::runner_action(WindowEvent::RedrawRequested, true),
        EventAction::RunRenderSchedule
    );
    assert_eq!(
        WindowPlugin::runner_action(WindowEvent::RedrawRequested, false),
        EventAction::Ignore
    );
    assert_eq!(
        WindowPlugin::runner_action(WindowEvent::CloseRequested, true),
        EventAction::HideWindowAndExit
    );
    assert_eq!(
        WindowPlugin::runner_action(WindowEvent::Resized { width: 0, height: 7 }, true),
        EventAction::SetWindowSize {
            size: WindowSize { width: 1, height: 7 }
        }
    );
    assert_eq!(
        WindowPlugin::runner_action(WindowEvent::Resized { width: 5, height: 5 }, false),
        EventAction::Ignore
    );
}

#[test]
fn surface_format_prefers_the_srgb_rgba8_variant() {
    let fmt = |rgba8: bool, srgb: bool| SurfaceFormatInfo { rgba8, srgb };
    assert_eq!(
        select_surface_format(&vec![fmt(false, true), fmt(true, false), fmt(true, true)]),
        Some(2)
    );
    assert_eq!(
        select_surface_format(&vec![fmt(true, false), fmt(false, false)]),
        Some(0)
    );
    assert_eq!(select_surface_format(&vec![fmt(false, false)]), None);
    assert_eq!(select_surface_format(&vec![]), None);
}

#[test]
fn alpha_mode_prefers_the_first_opaque() {
    assert_eq!(select_alpha_mode(&vec![false, true, true]), 1);
    assert_eq!(select_alpha_mode(&vec![false, false]), 0);
}

#[test]
fn validate_accepts_a_well_formed_scene_and_rejects_bad_ones() {
    let mut s = Scene::new();
    let root = s.spawn();
    let child = s.spawn();
    s.set_transform(root, translation(2, 0, 0));
    s.set_transform(child, translation(0, 4, 0));
    s.set_parent(child, root);
    assert!(TransformPlugin::validate(&s));

    // a cycle fails validation
    let mut cyclic = Scene::new();
    let a = cyclic.spawn();
    let b = cyclic.spawn();
    cyclic.set_transform(a, translation(2, 0, 0));
    cyclic.set_transform(b, translation(0, 2, 0));
    cyclic.set_parent(a, b);
    cyclic.set_parent(b, a);
    assert!(!TransformPlugin::validate(&cyclic));

    // a parent link to a node without a local pose fails validation
    let mut dangling = Scene::new();
    let p = dangling.spawn();
    let c = dangling.spawn();
    dangling.set_transform(c, translation(0, 2, 0));
    dangling.set_parent(c, p);
    assert!(!TransformPlugin::validate(&dangling));

    // a local pose outside the compose range fails validation
    let mut huge = Scene::new();
    let h = huge.spawn();
    huge.set_transform(
        h,
        Transform {
            motor: Motor {
                s: 1,
                e12: 0,
                e13: 0,
                e23: 0,
                e01: 2_000_000_000,
                e02: 0,
                e03: 0,
                e0123: 0,
            },
        },
    );
    assert!(!TransformPlugin::validate(&huge));
}

#[test]
fn oversized_dimensions_clamp_to_the_accepted_range() {
    let mut rs = RenderState::new(u32::MAX, 2_000_000_000);
    assert_eq!(rs.surface_width, 0xffff0000);
    assert_eq!(rs.surface_height, 2_000_000_000);
    rs.resize(u32::MAX, u32::MAX);
    assert_eq!(rs.surface_width, 0xffff0000);
    assert_eq!(rs.surface_height, 0xffff0000);
    let ws = WindowSize::from_event(u32::MAX, 3);
    assert_eq!(ws.width(), 0xffff0000);
    assert_eq!(ws.height(), 3);
}
