//! The component store: a mapping from node id to components, with a
//! per-component last-modified tick that every write stamps, so that the
//! propagator and the uploaders can compare against the tick they last
//! observed instead of relying on hidden dirty flags.

use vstd::prelude::*;

use crate::render::{Camera, MainCamera, Material, Sphere};
use crate::transform::{GlobalTransform, Transform};

verus! {

/// A configuration error detected while processing the scene.
#[derive(Clone, Copy, PartialEq, Eq, Structural, Debug)]
pub enum SceneError {
    /// The parent links of some node form a cycle.
    CycleDetected,
    /// No node carries both a camera and the main-camera mark.
    MainCameraMissing,
    /// More than one node carries both a camera and the main-camera mark.
    MainCameraNotUnique,
}

/// One scene node: each component is optional, and each carries the tick
/// at which it was last written.
#[derive(Clone, Copy, PartialEq, Eq, Structural, Debug)]
pub struct Node {
    pub transform: Option<Transform>,
    pub transform_tick: u64,
    pub parent: Option<usize>,
    pub parent_tick: u64,
    pub global: Option<GlobalTransform>,
    pub global_tick: u64,
    pub camera: Option<Camera>,
    pub camera_tick: u64,
    pub main_camera: Option<MainCamera>,
    pub main_camera_tick: u64,
    pub material: Option<Material>,
    pub material_tick: u64,
    pub sphere: Option<Sphere>,
    pub sphere_tick: u64,
}

impl Node {
    /// A node with no components.
    pub fn empty() -> (r: Node)
        ensures
            r == Node::empty_spec(),
    {
        Node {
            transform: None,
            transform_tick: 0,
            parent: None,
            parent_tick: 0,
            global: None,
            global_tick: 0,
            camera: None,
            camera_tick: 0,
            main_camera: None,
            main_camera_tick: 0,
            material: None,
            material_tick: 0,
            sphere: None,
            sphere_tick: 0,
        }
    }

    /// The value `empty` returns.
    pub open spec fn empty_spec() -> Node {
        Node {
            transform: None,
            transform_tick: 0,
            parent: None,
            parent_tick: 0,
            global: None,
            global_tick: 0,
            camera: None,
            camera_tick: 0,
            main_camera: None,
            main_camera_tick: 0,
            material: None,
            material_tick: 0,
            sphere: None,
            sphere_tick: 0,
        }
    }
}

/// The scene: nodes addressed by index, the current change tick, and the
/// ids whose parent link was removed since the last propagation.
pub struct Scene {
    pub nodes: Vec<Node>,
    pub tick: u64,
    pub removed_parents: Vec<usize>,
}

impl Scene {
    /// An empty scene at tick one, so that fresh components always read
    /// as changed against a last-observed tick of zero.
    pub fn new() -> (r: Scene)
        ensures
            r.nodes@.len() == 0,
            r.tick == 1,
            r.removed_parents@.len() == 0,
    {
        Scene { nodes: Vec::new(), tick: 1, removed_parents: Vec::new() }
    }

    /// Add a node without components; its id is the new length minus one.
    pub fn spawn(&mut self) -> (id: usize)
        requires
            old(self).nodes@.len() < usize::MAX,
        ensures
            id == old(self).nodes@.len(),
            final(self).nodes@ == old(self).nodes@.push(Node::empty_spec()),
            final(self).tick == old(self).tick,
            final(self).removed_parents@ == old(self).removed_parents@,
    {
        let id = self.nodes.len();
        self.nodes.push(Node::empty());
        id
    }

    /// Write a node's local pose, stamping the current tick.
    pub fn set_transform(&mut self, id: usize, t: Transform)
        requires
            id < old(self).nodes@.len(),
        ensures
            final(self).nodes@ == old(self).nodes@.update(
                id as int,
                Node {
                    transform: Some(t),
                    transform_tick: old(self).tick,
                    ..old(self).nodes@[id as int]
                },
            ),
            final(self).tick == old(self).tick,
            final(self).removed_parents@ == old(self).removed_parents@,
    {
        let mut n = self.nodes[id];
        n.transform = Some(t);
        n.transform_tick = self.tick;
        self.nodes.set(id, n);
    }

    /// Remove a node's local pose.
    pub fn remove_transform(&mut self, id: usize)
        requires
            id < old(self).nodes@.len(),
        ensures
            final(self).nodes@ == old(self).nodes@.update(
                id as int,
                Node { transform: None, ..old(self).nodes@[id as int] },
            ),
            final(self).tick == old(self).tick,
            final(self).removed_parents@ == old(self).removed_parents@,
    {
        let mut n = self.nodes[id];
        n.transform = None;
        self.nodes.set(id, n);
    }

    /// Link a node under a parent, stamping the current tick.
    pub fn set_parent(&mut self, id: usize, parent: usize)
        requires
            id < old(self).nodes@.len(),
        ensures
            final(self).nodes@ == old(self).nodes@.update(
                id as int,
                Node {
                    parent: Some(parent),
                    parent_tick: old(self).tick,
                    ..old(self).nodes@[id as int]
                },
            ),
            final(self).tick == old(self).tick,
            final(self).removed_parents@ == old(self).removed_parents@,
    {
        let mut n = self.nodes[id];
        n.parent = Some(parent);
        n.parent_tick = self.tick;
        self.nodes.set(id, n);
    }

    /// Remove a node's parent link and record the removal, so the next
    /// propagation marks the node's own pose as changed: losing a parent
    /// changes the node's ancestry even though its local numbers did not
    /// move.
    pub fn remove_parent(&mut self, id: usize)
        requires
            id < old(self).nodes@.len(),
            old(self).removed_parents@.len() < usize::MAX,
        ensures
            final(self).nodes@ == old(self).nodes@.update(
                id as int,
                Node { parent: None, ..old(self).nodes@[id as int] },
            ),
            final(self).tick == old(self).tick,
            final(self).removed_parents@ == old(self).removed_parents@.push(id),
    {
        let mut n = self.nodes[id];
        n.parent = None;
        self.nodes.set(id, n);
        self.removed_parents.push(id);
    }

    /// Write a node's camera, stamping the current tick.
    pub fn set_camera(&mut self, id: usize, c: Camera)
        requires
            id < old(self).nodes@.len(),
        ensures
            final(self).nodes@ == old(self).nodes@.update(
                id as int,
                Node {
                    camera: Some(c),
                    camera_tick: old(self).tick,
                    ..old(self).nodes@[id as int]
                },
            ),
            final(self).tick == old(self).tick,
            final(self).removed_parents@ == old(self).removed_parents@,
    {
        let mut n = self.nodes[id];
        n.camera = Some(c);
        n.camera_tick = self.tick;
        self.nodes.set(id, n);
    }

    /// Mark a node as the main camera, stamping the current tick.
    pub fn set_main_camera(&mut self, id: usize)
        requires
            id < old(self).nodes@.len(),
        ensures
            final(self).nodes@ == old(self).nodes@.update(
                id as int,
                Node {
                    main_camera: Some(MainCamera),
                    main_camera_tick: old(self).tick,
                    ..old(self).nodes@[id as int]
                },
            ),
            final(self).tick == old(self).tick,
            final(self).removed_parents@ == old(self).removed_parents@,
    {
        let mut n = self.nodes[id];
        n.main_camera = Some(MainCamera);
        n.main_camera_tick = self.tick;
        self.nodes.set(id, n);
    }

    /// Write a node's material, stamping the current tick.
    pub fn set_material(&mut self, id: usize, m: Material)
        requires
            id < old(self).nodes@.len(),
        ensures
            final(self).nodes@ == old(self).nodes@.update(
                id as int,
                Node {
                    material: Some(m),
                    material_tick: old(self).tick,
                    ..old(self).nodes@[id as int]
                },
            ),
            final(self).tick == old(self).tick,
            final(self).removed_parents@ == old(self).removed_parents@,
    {
        let mut n = self.nodes[id];
        n.material = Some(m);
        n.material_tick = self.tick;
        self.nodes.set(id, n);
    }

    /// Write a node's sphere, stamping the current tick.
    pub fn set_sphere(&mut self, id: usize, sp: Sphere)
        requires
            id < old(self).nodes@.len(),
        ensures
            final(self).nodes@ == old(self).nodes@.update(
                id as int,
                Node {
                    sphere: Some(sp),
                    sphere_tick: old(self).tick,
                    ..old(self).nodes@[id as int]
                },
            ),
            final(self).tick == old(self).tick,
            final(self).removed_parents@ == old(self).removed_parents@,
    {
        let mut n = self.nodes[id];
        n.sphere = Some(sp);
        n.sphere_tick = self.tick;
        self.nodes.set(id, n);
    }

    /// Step the change tick, once per frame.
    pub fn advance_tick(&mut self)
        requires
            old(self).tick < u64::MAX,
        ensures
            final(self).nodes@ == old(self).nodes@,
            final(self).tick == old(self).tick + 1,
            final(self).removed_parents@ == old(self).removed_parents@,
    {
        self.tick = self.tick + 1;
    }
}

} // verus!
