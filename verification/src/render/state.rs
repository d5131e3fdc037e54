//! GPU-facing state: camera and sphere upload with change gating and
//! buffer growth, surface-loss recovery, and the per-frame command
//! stream. The buffers here are word-level mirrors of the device
//! buffers; the surrounding binary converts words to device bytes.

use vstd::prelude::*;

use crate::math::motor::Motor;
use crate::math::vector3::Vector3;
use crate::scene::{Node, Scene, SceneError};
use crate::window::{clamp_dimension, clamped_dimension};

verus! {

/// One packed sphere record: world pose, color and radius.
#[derive(Clone, Copy, PartialEq, Eq, Structural, Debug)]
pub struct GpuSphere {
    pub transform: Motor,
    pub color: Vector3,
    pub radius: i64,
}

/// A node carrying everything a renderable sphere needs.
pub open spec fn renderable(n: Node) -> bool {
    n.global is Some && n.material is Some && n.sphere is Some
}

/// The packed record of one renderable node.
pub open spec fn gpu_sphere_of(n: Node) -> GpuSphere {
    GpuSphere {
        transform: (n.global->0).0.motor,
        color: n.material->0.color,
        radius: n.sphere->0.radius,
    }
}

/// The packed records of all renderable nodes, in node order.
pub open spec fn sphere_items(nodes: Seq<Node>) -> Seq<GpuSphere>
    decreases nodes.len(),
{
    if nodes.len() == 0 {
        seq![]
    } else if renderable(nodes.last()) {
        sphere_items(nodes.drop_last()).push(gpu_sphere_of(nodes.last()))
    } else {
        sphere_items(nodes.drop_last())
    }
}

/// Some renderable node's world pose, material or sphere changed after
/// `last_run`.
pub open spec fn spheres_changed(nodes: Seq<Node>, last_run: u64) -> bool
    decreases nodes.len(),
{
    if nodes.len() == 0 {
        false
    } else {
        spheres_changed(nodes.drop_last(), last_run) || (renderable(nodes.last()) && {
            let n = nodes.last();
            n.global_tick > last_run || n.material_tick > last_run || n.sphere_tick > last_run
        })
    }
}

/// The twelve words of one sphere record.
pub open spec fn sphere_words(g: GpuSphere) -> Seq<i64> {
    seq![
        g.transform.s,
        g.transform.e12,
        g.transform.e13,
        g.transform.e23,
        g.transform.e01,
        g.transform.e02,
        g.transform.e03,
        g.transform.e0123,
        g.color.x,
        g.color.y,
        g.color.z,
        g.radius,
    ]
}

/// The packed sphere list: a count prefix, then twelve words per sphere.
pub open spec fn packed_spheres(items: Seq<GpuSphere>) -> Seq<i64>
    decreases items.len(),
{
    if items.len() == 0 {
        seq![]
    } else {
        packed_spheres(items.drop_last()) + sphere_words(items.last())
    }
}

/// The whole sphere buffer content: count, then the records.
pub open spec fn sphere_buffer_words(items: Seq<GpuSphere>) -> Seq<i64> {
    seq![items.len() as i64] + packed_spheres(items)
}

/// The device-side sphere resources: the packed mirror, the allocation
/// size in words, the generation (bumped on every reallocation, so the
/// dispatcher rebinds), and how many uploads were performed.
pub struct SphereState {
    pub spheres: Vec<GpuSphere>,
    pub buffer: Vec<i64>,
    pub buffer_capacity: usize,
    pub buffer_generation: u64,
    pub writes: u64,
}

impl SphereState {
    /// Fresh state: a minimum-sized allocation holding just a count.
    pub fn new() -> (r: SphereState)
        ensures
            r.spheres@.len() == 0,
            r.buffer@.len() == 0,
            r.buffer_capacity == 1,
            r.buffer_generation == 0,
            r.writes == 0,
    {
        SphereState {
            spheres: Vec::new(),
            buffer: Vec::new(),
            buffer_capacity: 1,
            buffer_generation: 0,
            writes: 0,
        }
    }
}

/// Rebuild and upload the packed sphere list when any renderable input
/// changed or the sphere count changed; grow the allocation exactly when
/// the packed size exceeds it, bumping the generation once.
pub fn update_spheres(ss: &mut SphereState, scene: &Scene, last_run: u64)
    requires
        scene.nodes@.len() < 0x10000000,
        old(ss).writes < u64::MAX,
        old(ss).buffer_generation < u64::MAX,
    ensures
        final(ss).spheres@ == sphere_items(scene.nodes@),
        ({
            let items = sphere_items(scene.nodes@);
            let needed = 1 + 12 * items.len();
            if spheres_changed(scene.nodes@, last_run) || items.len() != old(ss).spheres@.len() {
                &&& final(ss).buffer@ == sphere_buffer_words(items)
                &&& final(ss).writes == old(ss).writes + 1
                &&& if needed > old(ss).buffer_capacity {
                    final(ss).buffer_capacity == needed && final(ss).buffer_generation == old(ss).buffer_generation + 1
                } else {
                    final(ss).buffer_capacity == old(ss).buffer_capacity && final(ss).buffer_generation == old(ss).buffer_generation
                }
            } else {
                &&& final(ss).buffer@ == old(ss).buffer@
                &&& final(ss).writes == old(ss).writes
                &&& final(ss).buffer_capacity == old(ss).buffer_capacity
                &&& final(ss).buffer_generation == old(ss).buffer_generation
            }
        }),
{
    let previous_count = ss.spheres.len();
    let len = scene.nodes.len();
    let mut items: Vec<GpuSphere> = Vec::new();
    let mut changed = false;
    let mut i: usize = 0;
    while i < len
        invariant
            len == scene.nodes@.len() < 0x10000000,
            i <= len,
            items@ == sphere_items(scene.nodes@.subrange(0, i as int)),
            changed == spheres_changed(scene.nodes@.subrange(0, i as int), last_run),
            items@.len() <= i,
        decreases len - i,
    {
        let n = scene.nodes[i];
        if n.global.is_some() && n.material.is_some() && n.sphere.is_some() {
            changed = changed || n.global_tick > last_run || n.material_tick > last_run
                || n.sphere_tick > last_run;
            items.push(
                GpuSphere {
                    transform: n.global.unwrap().0.motor,
                    color: n.material.unwrap().color,
                    radius: n.sphere.unwrap().radius,
                },
            );
        }
        i = i + 1;
        proof {
            assert(scene.nodes@.subrange(0, i as int).drop_last() =~= scene.nodes@.subrange(
                0,
                i - 1,
            ));
            assert(scene.nodes@.subrange(0, i as int).last() == scene.nodes@[i - 1]);
        }
    }
    proof {
        assert(scene.nodes@.subrange(0, len as int) =~= scene.nodes@);
    }
    let count = items.len();
    if changed || count != previous_count {
        let mut words: Vec<i64> = Vec::new();
        words.push(count as i64);
        let mut k: usize = 0;
        while k < count
            invariant
                count == items@.len() < 0x10000000,
                k <= count,
                words@ == seq![count as i64] + packed_spheres(items@.subrange(0, k as int)),
                words@.len() == 1 + 12 * k,
            decreases count - k,
        {
            let g = items[k];
            words.push(g.transform.s);
            words.push(g.transform.e12);
            words.push(g.transform.e13);
            words.push(g.transform.e23);
            words.push(g.transform.e01);
            words.push(g.transform.e02);
            words.push(g.transform.e03);
            words.push(g.transform.e0123);
            words.push(g.color.x);
            words.push(g.color.y);
            words.push(g.color.z);
            words.push(g.radius);
            k = k + 1;
            proof {
                assert(items@.subrange(0, k as int).drop_last() =~= items@.subrange(0, k - 1));
                assert(items@.subrange(0, k as int).last() == items@[k - 1]);
            }
        }
        proof {
            assert(items@.subrange(0, count as int) =~= items@);
        }
        if words.len() > ss.buffer_capacity {
            ss.buffer_capacity = words.len();
            ss.buffer_generation = ss.buffer_generation + 1;
        }
        ss.buffer = words;
        ss.writes = ss.writes + 1;
    }
    ss.spheres = items;
}

/// The fourteen words of the camera record: world pose, field of view,
/// distance range, sun direction.
pub open spec fn camera_words(n: Node) -> Seq<i64> {
    seq![
        (n.global->0).0.motor.s,
        (n.global->0).0.motor.e12,
        (n.global->0).0.motor.e13,
        (n.global->0).0.motor.e23,
        (n.global->0).0.motor.e01,
        (n.global->0).0.motor.e02,
        (n.global->0).0.motor.e03,
        (n.global->0).0.motor.e0123,
        n.camera->0.v_fov,
        n.camera->0.min_distance,
        n.camera->0.max_distance,
        n.camera->0.sun_direction.x,
        n.camera->0.sun_direction.y,
        n.camera->0.sun_direction.z,
    ]
}

/// A node carrying a world pose, a camera and the main-camera mark.
pub open spec fn is_main_camera(n: Node) -> bool {
    n.global is Some && n.camera is Some && n.main_camera is Some
}

/// How many main-camera nodes a scene holds.
pub open spec fn main_camera_count(nodes: Seq<Node>) -> int
    decreases nodes.len(),
{
    if nodes.len() == 0 {
        0
    } else {
        main_camera_count(nodes.drop_last()) + if is_main_camera(nodes.last()) {
            1int
        } else {
            0int
        }
    }
}

/// The index of the last main-camera node; meaningful when the count is
/// exactly one, in which case it is the only one.
pub open spec fn main_camera_index(nodes: Seq<Node>) -> int
    decreases nodes.len(),
{
    if nodes.len() == 0 {
        0
    } else if is_main_camera(nodes.last()) {
        nodes.len() - 1
    } else {
        main_camera_index(nodes.drop_last())
    }
}

/// The camera's inputs changed after `last_run`.
pub open spec fn camera_changed(n: Node, last_run: u64) -> bool {
    n.global_tick > last_run || n.camera_tick > last_run || n.main_camera_tick > last_run
}

/// The device, surface and intermediate texture state: the clamped
/// surface size, the texture generation (bumped on every resize, so the
/// texture and its binding are recreated), and the camera mirror.
pub struct RenderState {
    pub surface_width: u32,
    pub surface_height: u32,
    pub texture_generation: u64,
    pub camera_buffer: Vec<i64>,
    pub camera_writes: u64,
}

impl RenderState {
    /// Fresh state for a surface of the given size, clamped into the
    /// accepted range in each dimension.
    pub fn new(width: u32, height: u32) -> (r: RenderState)
        ensures
            r.surface_width == clamped_dimension(width),
            r.surface_height == clamped_dimension(height),
            r.texture_generation == 0,
            r.camera_buffer@.len() == 0,
            r.camera_writes == 0,
    {
        RenderState {
            surface_width: clamp_dimension(width),
            surface_height: clamp_dimension(height),
            texture_generation: 0,
            camera_buffer: Vec::new(),
            camera_writes: 0,
        }
    }

    /// Resize the surface and recreate the intermediate texture: width
    /// and height are clamped into the accepted range, with a minimum of
    /// one in each dimension.
    pub fn resize(&mut self, width: u32, height: u32)
        requires
            old(self).texture_generation < u64::MAX,
        ensures
            final(self).surface_width == clamped_dimension(width),
            final(self).surface_height == clamped_dimension(height),
            final(self).texture_generation == old(self).texture_generation + 1,
            final(self).camera_buffer@ == old(self).camera_buffer@,
            final(self).camera_writes == old(self).camera_writes,
    {
        self.surface_width = clamp_dimension(width);
        self.surface_height = clamp_dimension(height);
        self.texture_generation = self.texture_generation + 1;
    }
}

/// Upload the main camera when its world pose, camera parameters or
/// main-camera mark changed after `last_run`. No main camera or more
/// than one is a configuration error and uploads nothing.
pub fn update_camera(rs: &mut RenderState, scene: &Scene, last_run: u64) -> (r: Result<
    (),
    SceneError,
>)
    requires
        old(rs).camera_writes < u64::MAX,
    ensures
        final(rs).surface_width == old(rs).surface_width,
        final(rs).surface_height == old(rs).surface_height,
        final(rs).texture_generation == old(rs).texture_generation,
        match r {
            Ok(()) => {
                &&& main_camera_count(scene.nodes@) == 1
                &&& if camera_changed(
                    scene.nodes@[main_camera_index(scene.nodes@)],
                    last_run,
                ) {
                    final(rs).camera_buffer@ == camera_words(
                        scene.nodes@[main_camera_index(scene.nodes@)],
                    ) && final(rs).camera_writes == old(rs).camera_writes + 1
                } else {
                    final(rs).camera_buffer@ == old(rs).camera_buffer@ && final(rs).camera_writes
                        == old(rs).camera_writes
                }
            },
            Err(SceneError::MainCameraMissing) => {
                &&& main_camera_count(scene.nodes@) == 0
                &&& final(rs).camera_buffer@ == old(rs).camera_buffer@
                &&& final(rs).camera_writes == old(rs).camera_writes
            },
            Err(SceneError::MainCameraNotUnique) => {
                &&& main_camera_count(scene.nodes@) > 1
                &&& final(rs).camera_buffer@ == old(rs).camera_buffer@
                &&& final(rs).camera_writes == old(rs).camera_writes
            },
            Err(SceneError::CycleDetected) => false,
        },
{
    let len = scene.nodes.len();
    let mut found: Option<usize> = None;
    let mut count: usize = 0;
    let mut i: usize = 0;
    while i < len
        invariant
            len == scene.nodes@.len(),
            i <= len,
            count == main_camera_count(scene.nodes@.subrange(0, i as int)),
            count <= i,
            if count > 0 {
                found matches Some(f) && f < i && f == main_camera_index(
                    scene.nodes@.subrange(0, i as int),
                ) && is_main_camera(scene.nodes@[f as int])
            } else {
                found is None
            },
        decreases len - i,
    {
        let n = scene.nodes[i];
        if n.global.is_some() && n.camera.is_some() && n.main_camera.is_some() {
            found = Some(i);
            count = count + 1;
        }
        i = i + 1;
        proof {
            assert(scene.nodes@.subrange(0, i as int).drop_last() =~= scene.nodes@.subrange(
                0,
                i - 1,
            ));
            assert(scene.nodes@.subrange(0, i as int).last() == scene.nodes@[i - 1]);
        }
    }
    proof {
        assert(scene.nodes@.subrange(0, len as int) =~= scene.nodes@);
    }
    if count == 0 {
        return Err(SceneError::MainCameraMissing);
    }
    if count > 1 {
        return Err(SceneError::MainCameraNotUnique);
    }
    let idx = found.unwrap();
    let n = scene.nodes[idx];
    if n.global_tick > last_run || n.camera_tick > last_run || n.main_camera_tick > last_run {
        let motor = n.global.unwrap().0.motor;
        let cam = n.camera.unwrap();
        let mut words: Vec<i64> = Vec::new();
        words.push(motor.s);
        words.push(motor.e12);
        words.push(motor.e13);
        words.push(motor.e23);
        words.push(motor.e01);
        words.push(motor.e02);
        words.push(motor.e03);
        words.push(motor.e0123);
        words.push(cam.v_fov);
        words.push(cam.min_distance);
        words.push(cam.max_distance);
        words.push(cam.sun_direction.x);
        words.push(cam.sun_direction.y);
        words.push(cam.sun_direction.z);
        proof {
            assert(words@ =~= camera_words(scene.nodes@[main_camera_index(scene.nodes@)]));
        }
        rs.camera_buffer = words;
        rs.camera_writes = rs.camera_writes + 1;
    }
    Ok(())
}

/// What the format-selection step needs to know of one surface format
/// offered by the device: whether it is an rgba8 format once any srgb
/// suffix is set aside, and whether it is the srgb variant.
#[derive(Clone, Copy, PartialEq, Eq, Structural, Debug)]
pub struct SurfaceFormatInfo {
    pub rgba8: bool,
    pub srgb: bool,
}

/// Pick the surface format: among the rgba8 formats, the last srgb one;
/// with no srgb variant, the last rgba8 one; with no rgba8 format at
/// all, nothing, and startup must fail.
pub fn select_surface_format(formats: &Vec<SurfaceFormatInfo>) -> (r: Option<usize>)
    ensures
        match r {
            Some(i) => {
                &&& i < formats@.len()
                &&& formats@[i as int].rgba8
                &&& if formats@[i as int].srgb {
                    forall|j: int|
                        i < j < formats@.len() ==> !(#[trigger] formats@[j].rgba8
                            && formats@[j].srgb)
                } else {
                    (forall|j: int|
                        0 <= j < formats@.len() ==> !(#[trigger] formats@[j].rgba8
                            && formats@[j].srgb)) && (forall|j: int|
                        i < j < formats@.len() ==> !(#[trigger] formats@[j].rgba8))
                }
            },
            None => forall|j: int| 0 <= j < formats@.len() ==> !(#[trigger] formats@[j].rgba8),
        },
{
    let len = formats.len();
    let mut best: Option<usize> = None;
    let mut i: usize = 0;
    while i < len
        invariant
            len == formats@.len(),
            i <= len,
            match best {
                Some(b) => {
                    &&& b < i
                    &&& formats@[b as int].rgba8
                    &&& if formats@[b as int].srgb {
                        forall|j: int|
                            b < j < i ==> !(#[trigger] formats@[j].rgba8 && formats@[j].srgb)
                    } else {
                        (forall|j: int|
                            0 <= j < i ==> !(#[trigger] formats@[j].rgba8 && formats@[j].srgb))
                            && (forall|j: int| b < j < i ==> !(#[trigger] formats@[j].rgba8))
                    }
                },
                None => forall|j: int| 0 <= j < i ==> !(#[trigger] formats@[j].rgba8),
            },
        decreases len - i,
    {
        let f = formats[i];
        if f.rgba8 {
            let take = match best {
                Some(b) => f.srgb || !formats[b].srgb,
                None => true,
            };
            if take {
                best = Some(i);
            }
        }
        i = i + 1;
    }
    best
}

/// Pick the alpha mode: the first opaque one, or the first offered mode
/// when none is opaque. The device offers at least one mode.
pub fn select_alpha_mode(opaque: &Vec<bool>) -> (r: usize)
    requires
        opaque@.len() >= 1,
    ensures
        r < opaque@.len(),
        if exists|j: int| 0 <= j < opaque@.len() && opaque@[j] {
            opaque@[r as int] && forall|j: int| 0 <= j < r ==> !opaque@[j]
        } else {
            r == 0
        },
{
    let len = opaque.len();
    let mut i: usize = 0;
    while i < len
        invariant
            len == opaque@.len(),
            i <= len,
            forall|j: int| 0 <= j < i ==> !opaque@[j],
        decreases len - i,
    {
        if opaque[i] {
            return i;
        }
        i = i + 1;
    }
    0
}

/// Why acquiring the next presentable image failed.

#[derive(Clone, Copy, PartialEq, Eq, Structural, Debug)]
pub enum SurfaceError {
    Timeout,
    Outdated,
    Lost,
    OutOfMemory,
}

/// What the frame loop does about a failed acquisition.
#[derive(Clone, Copy, PartialEq, Eq, Structural, Debug)]
pub enum RecoveryAction {
    /// Skip this frame without presenting; recoverable.
    SkipFrame,
    /// Resize to the window's current size, then retry once.
    ResizeAndRetry,
    /// Reconfigure the surface with the existing parameters, then retry.
    ReconfigureAndRetry,
    /// Out of device memory: fatal.
    Abort,
}

/// The surface-recovery state machine: one corrective action per
/// recoverable error, a fatal stop for memory exhaustion.
pub fn surface_error_action(e: SurfaceError) -> (r: RecoveryAction)
    ensures
        r == match e {
            SurfaceError::Timeout => RecoveryAction::SkipFrame,
            SurfaceError::Outdated => RecoveryAction::ResizeAndRetry,
            SurfaceError::Lost => RecoveryAction::ReconfigureAndRetry,
            SurfaceError::OutOfMemory => RecoveryAction::Abort,
        },
{
    match e {
        SurfaceError::Timeout => RecoveryAction::SkipFrame,
        SurfaceError::Outdated => RecoveryAction::ResizeAndRetry,
        SurfaceError::Lost => RecoveryAction::ReconfigureAndRetry,
        SurfaceError::OutOfMemory => RecoveryAction::Abort,
    }
}

/// Workgroups needed to cover `size` pixels with groups of sixteen:
/// the quotient rounded up.
pub fn workgroup_count(size: u32) -> (r: u32)
    requires
        1 <= size <= 0xffff0000u32,
    ensures
        r == (size + 15) / 16,
        16 * r >= size,
        16 * (r - 1) < size,
{
    proof {
        vstd::arithmetic::div_mod::lemma_fundamental_div_mod((size + 15) as int, 16);
        vstd::arithmetic::div_mod::lemma_mod_division_less_than_divisor((size + 15) as int, 16);
        vstd::arithmetic::div_mod::lemma_div_pos_is_pos((size + 15) as int, 16);
    }
    (size + 15) / 16
}

/// One step of the per-frame command sequence.
#[derive(Clone, Copy, PartialEq, Eq, Structural, Debug)]
pub enum RenderCommand {
    BeginComputePass,
    SetRayTracingPipeline,
    /// Bind the output texture; the generation says which texture.
    BindOutputTexture { generation: u64 },
    BindCameraBuffer,
    /// Bind the sphere buffer; the generation says which allocation.
    BindSphereBuffer { generation: u64 },
    Dispatch { x: u32, y: u32, z: u32 },
    EndComputePass,
    /// Copy the intermediate texture into the presentable image; the
    /// formats and sizes must match exactly.
    CopyToSurface { width: u32, height: u32 },
    Submit,
    PrePresentNotify,
    Present,
}

/// The fixed command sequence of one frame, once a presentable image is
/// available: bind groups, a two-dimensional dispatch covering the
/// surface, the copy into the presentable image, submission and
/// presentation, with the pre-present notification just before.
pub fn encode_frame(rs: &RenderState, ss: &SphereState) -> (r: Vec<RenderCommand>)
    requires
        1 <= rs.surface_width <= 0xffff0000u32,
        1 <= rs.surface_height <= 0xffff0000u32,
    ensures
        r@ == seq![
            RenderCommand::BeginComputePass,
            RenderCommand::SetRayTracingPipeline,
            RenderCommand::BindOutputTexture { generation: rs.texture_generation },
            RenderCommand::BindCameraBuffer,
            RenderCommand::BindSphereBuffer { generation: ss.buffer_generation },
            RenderCommand::Dispatch {
                x: ((rs.surface_width + 15) / 16) as u32,
                y: ((rs.surface_height + 15) / 16) as u32,
                z: 1u32,
            },
            RenderCommand::EndComputePass,
            RenderCommand::CopyToSurface {
                width: rs.surface_width,
                height: rs.surface_height,
            },
            RenderCommand::Submit,
            RenderCommand::PrePresentNotify,
            RenderCommand::Present,
        ],
{
    let x = workgroup_count(rs.surface_width);
    let y = workgroup_count(rs.surface_height);
    let mut r: Vec<RenderCommand> = Vec::new();
    r.push(RenderCommand::BeginComputePass);
    r.push(RenderCommand::SetRayTracingPipeline);
    r.push(RenderCommand::BindOutputTexture { generation: rs.texture_generation });
    r.push(RenderCommand::BindCameraBuffer);
    r.push(RenderCommand::BindSphereBuffer { generation: ss.buffer_generation });
    r.push(RenderCommand::Dispatch { x, y, z: 1 });
    r.push(RenderCommand::EndComputePass);
    r.push(
        RenderCommand::CopyToSurface { width: rs.surface_width, height: rs.surface_height },
    );
    r.push(RenderCommand::Submit);
    r.push(RenderCommand::PrePresentNotify);
    r.push(RenderCommand::Present);
    proof {
        assert(r@ =~= seq![
            RenderCommand::BeginComputePass,
            RenderCommand::SetRayTracingPipeline,
            RenderCommand::BindOutputTexture { generation: rs.texture_generation },
            RenderCommand::BindCameraBuffer,
            RenderCommand::BindSphereBuffer { generation: ss.buffer_generation },
            RenderCommand::Dispatch {
                x: ((rs.surface_width + 15) / 16) as u32,
                y: ((rs.surface_height + 15) / 16) as u32,
                z: 1u32,
            },
            RenderCommand::EndComputePass,
            RenderCommand::CopyToSurface {
                width: rs.surface_width,
                height: rs.surface_height,
            },
            RenderCommand::Submit,
            RenderCommand::PrePresentNotify,
            RenderCommand::Present,
        ]);
    }
    r
}

/// The render schedule of one tick: upload the camera, upload the
/// spheres, then encode the frame, in that fixed order, so uploads for a
/// tick always precede its dispatch.
pub struct RenderPlugin;

impl RenderPlugin {
    /// Run one render tick against an already-propagated scene.
    pub fn run(
        rs: &mut RenderState,
        ss: &mut SphereState,
        scene: &Scene,
        camera_last_run: u64,
        sphere_last_run: u64,
    ) -> (r: Result<Vec<RenderCommand>, SceneError>)
        requires
            old(rs).camera_writes < u64::MAX,
            old(ss).writes < u64::MAX,
            old(ss).buffer_generation < u64::MAX,
            scene.nodes@.len() < 0x10000000,
            1 <= old(rs).surface_width <= 0xffff0000u32,
            1 <= old(rs).surface_height <= 0xffff0000u32,
        ensures
            final(rs).surface_width == old(rs).surface_width,
            final(rs).surface_height == old(rs).surface_height,
            final(rs).texture_generation == old(rs).texture_generation,
            final(ss).spheres@ == sphere_items(scene.nodes@),
            ({
                let items = sphere_items(scene.nodes@);
                let needed = 1 + 12 * items.len();
                if spheres_changed(scene.nodes@, sphere_last_run) || items.len() != old(ss).spheres@.len() {
                    final(ss).buffer@ == sphere_buffer_words(items) && final(ss).writes == old(ss).writes + 1 && if needed > old(ss).buffer_capacity {
                        final(ss).buffer_capacity == needed && final(ss).buffer_generation
                            == old(ss).buffer_generation + 1
                    } else {
                        final(ss).buffer_capacity == old(ss).buffer_capacity && final(ss).buffer_generation == old(ss).buffer_generation
                    }
                } else {
                    final(ss).buffer@ == old(ss).buffer@ && final(ss).writes == old(ss).writes
                        && final(ss).buffer_capacity == old(ss).buffer_capacity && final(ss).buffer_generation == old(ss).buffer_generation
                }
            }),
            match r {
                Ok(commands) => {
                    &&& main_camera_count(scene.nodes@) == 1
                    &&& if camera_changed(
                        scene.nodes@[main_camera_index(scene.nodes@)],
                        camera_last_run,
                    ) {
                        final(rs).camera_buffer@ == camera_words(
                            scene.nodes@[main_camera_index(scene.nodes@)],
                        ) && final(rs).camera_writes == old(rs).camera_writes + 1
                    } else {
                        final(rs).camera_buffer@ == old(rs).camera_buffer@ && final(rs).camera_writes == old(rs).camera_writes
                    }
                    &&& commands@ == seq![
                        RenderCommand::BeginComputePass,
                        RenderCommand::SetRayTracingPipeline,
                        RenderCommand::BindOutputTexture {
                            generation: final(rs).texture_generation,
                        },
                        RenderCommand::BindCameraBuffer,
                        RenderCommand::BindSphereBuffer {
                            generation: final(ss).buffer_generation,
                        },
                        RenderCommand::Dispatch {
                            x: ((old(rs).surface_width + 15) / 16) as u32,
                            y: ((old(rs).surface_height + 15) / 16) as u32,
                            z: 1u32,
                        },
                        RenderCommand::EndComputePass,
                        RenderCommand::CopyToSurface {
                            width: old(rs).surface_width,
                            height: old(rs).surface_height,
                        },
                        RenderCommand::Submit,
                        RenderCommand::PrePresentNotify,
                        RenderCommand::Present,
                    ]
                },
                Err(e) => {
                    &&& (e == SceneError::MainCameraMissing <==> main_camera_count(scene.nodes@)
                        == 0)
                    &&& (e == SceneError::MainCameraNotUnique <==> main_camera_count(
                        scene.nodes@,
                    ) > 1)
                    &&& (e == SceneError::MainCameraMissing || e
                        == SceneError::MainCameraNotUnique)
                    &&& final(rs).camera_buffer@ == old(rs).camera_buffer@
                    &&& final(rs).camera_writes == old(rs).camera_writes
                },
            },
    {
        let camera_result = update_camera(rs, scene, camera_last_run);
        update_spheres(ss, scene, sphere_last_run);
        match camera_result {
            Ok(()) => Ok(encode_frame(rs, ss)),
            Err(e) => Err(e),
        }
    }
}

} // verus!
