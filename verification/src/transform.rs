//! Local and world poses, and the change-gated propagator: every node
//! that owns a local pose gets a cached world pose, recomputed by walking
//! the ancestor chain only when the node's own pose, an ancestor's pose,
//! or a parent link changed since the last observed tick.

use vstd::prelude::*;

use crate::math::bound::COMPOSE_BOUND;
use crate::math::motor::{Motor, MotorModel};
use crate::scene::{Node, Scene, SceneError};

verus! {

/// A node's local pose: one motor.
#[derive(Clone, Copy, PartialEq, Eq, Structural, Debug)]
pub struct Transform {
    pub motor: Motor,
}

/// A node's cached world pose: the composition of its local pose with
/// every ancestor's local pose, root applied last. Never authored
/// directly.
#[derive(Clone, Copy, PartialEq, Eq, Structural, Debug)]
pub struct GlobalTransform(pub Transform);

impl GlobalTransform {
    /// The composed transform.
    pub fn transform(&self) -> (r: Transform)
        ensures
            r == self.0,
    {
        self.0
    }
}

/// The local pose of node `i`, as a mathematical motor.
pub open spec fn local_motor(nodes: Seq<Node>, i: int) -> MotorModel {
    nodes[i].transform->0.motor@
}

/// A node owns both a local and a world pose.
pub open spec fn propagated(n: Node) -> bool {
    n.transform is Some && n.global is Some
}

/// The node's own inputs changed after `last_run`: its local pose was
/// written, or its parent link was written.
pub open spec fn node_dirty(n: Node, last_run: u64) -> bool {
    n.transform_tick > last_run || (n.parent is Some && n.parent_tick > last_run)
}

/// Every parent link points at an existing node that owns a local pose.
pub open spec fn links_ok(nodes: Seq<Node>) -> bool {
    forall|i: int|
        0 <= i < nodes.len() ==> ((#[trigger] nodes[i]).parent is Some ==> 0 <= nodes[i].parent->0
            < nodes.len() && nodes[nodes[i].parent->0 as int].transform is Some)
}

/// The ancestor chain of node `i`: the node itself first, the root last.
/// `None` when `fuel` runs out before a root is reached, which on fuel
/// larger than the node count means the parent links form a cycle.
pub open spec fn chain(nodes: Seq<Node>, i: int, fuel: nat) -> Option<Seq<int>>
    decreases fuel,
{
    if fuel == 0 {
        None
    } else if nodes[i].parent is None {
        Some(seq![i])
    } else {
        match chain(nodes, nodes[i].parent->0 as int, (fuel - 1) as nat) {
            None => None,
            Some(c) => Some(seq![i] + c),
        }
    }
}

/// The world pose along a chain: the node's own local pose first, each
/// ancestor's local pose applied before the accumulated value, so the
/// root's pose is applied last.
pub open spec fn chain_world(nodes: Seq<Node>, c: Seq<int>) -> MotorModel
    decreases c.len(),
{
    if c.len() <= 1 {
        local_motor(nodes, c[0])
    } else {
        MotorModel::product(local_motor(nodes, c.last()), chain_world(nodes, c.drop_last()))
    }
}

/// Some node on the chain changed after `last_run`.
pub open spec fn chain_dirty(nodes: Seq<Node>, c: Seq<int>, last_run: u64) -> bool {
    exists|k: int| 0 <= k < c.len() && node_dirty(nodes[#[trigger] c[k]], last_run)
}

/// Every local pose on the chain and every partial composition along it
/// stays within the compose range, so the walk cannot overflow.
pub open spec fn chain_bounded(nodes: Seq<Node>, c: Seq<int>) -> bool {
    &&& forall|k: int|
        0 <= k < c.len() ==> local_motor(nodes, #[trigger] c[k]).in_range(COMPOSE_BOUND as int)
    &&& forall|k: int|
        1 <= k < c.len() ==> (#[trigger] chain_world(nodes, c.subrange(0, k))).in_range(
            COMPOSE_BOUND as int,
        )
}

/// Structure of a defined chain: it starts at the node, consecutive
/// entries follow parent links, the last entry is a root, and every
/// entry is an existing node that owns a local pose.
proof fn lemma_chain_props(nodes: Seq<Node>, i: int, fuel: nat)
    requires
        links_ok(nodes),
        0 <= i < nodes.len(),
        nodes[i].transform is Some,
        chain(nodes, i, fuel) is Some,
    ensures
        ({
            let c = chain(nodes, i, fuel)->0;
            &&& c.len() >= 1
            &&& c.len() <= fuel
            &&& c[0] == i
            &&& forall|k: int|
                0 <= k < c.len() ==> 0 <= #[trigger] c[k] < nodes.len()
                    && nodes[c[k]].transform is Some
            &&& forall|k: int|
                0 <= k < c.len() - 1 ==> nodes[#[trigger] c[k]].parent is Some
                    && nodes[c[k]].parent->0 == c[k + 1]
            &&& nodes[c.last()].parent is None
        }),
    decreases fuel,
{
    let c = chain(nodes, i, fuel)->0;
    if nodes[i].parent is None {
    } else {
        let p = nodes[i].parent->0 as int;
        lemma_chain_props(nodes, p, (fuel - 1) as nat);
        let cp = chain(nodes, p, (fuel - 1) as nat)->0;
        assert(c == seq![i] + cp);
        assert(forall|k: int| 1 <= k < c.len() ==> c[k] == cp[k - 1]);
        assert(c.last() == cp.last());
    }
}

/// Walking one step up preserves the chain: the chain of a node with a
/// parent is the node followed by the parent's chain.
proof fn lemma_chain_step(nodes: Seq<Node>, i: int, fuel: nat)
    requires
        fuel >= 1,
        0 <= i < nodes.len(),
        nodes[i].parent is Some,
    ensures
        chain(nodes, i, fuel) == match chain(nodes, nodes[i].parent->0 as int, (fuel - 1) as nat) {
            None => None::<Seq<int>>,
            Some(c) => Some(seq![i] + c),
        },
{
}

/// The attach, detach and removal-marking steps leave the propagation
/// structure alone: parents and local poses are untouched, and a node
/// comes out owning both poses exactly when it owns a local pose.
proof fn lemma_pre_pass_preserves(nodes: Seq<Node>, removed: Seq<usize>, tick: u64)
    ensures
        pre_pass(nodes, removed, tick).len() == nodes.len(),
        forall|i: int|
            0 <= i < nodes.len() ==> (#[trigger] pre_pass(nodes, removed, tick)[i]).parent
                == nodes[i].parent,
        forall|i: int|
            0 <= i < nodes.len() ==> (#[trigger] pre_pass(nodes, removed, tick)[i]).transform
                == nodes[i].transform,
        forall|i: int|
            0 <= i < nodes.len() ==> (propagated(#[trigger] pre_pass(nodes, removed, tick)[i])
                <==> nodes[i].transform is Some),
{
    let a = add_remove_spec(nodes, tick);
    let t = pre_pass(nodes, removed, tick);
    assert forall|i: int|
        0 <= i < nodes.len() implies ((#[trigger] t[i]).parent == nodes[i].parent && t[i].transform
        == nodes[i].transform && (propagated(t[i]) <==> nodes[i].transform is Some)) by {
        assert(a[i].parent == nodes[i].parent);
        assert(a[i].transform == nodes[i].transform);
        assert(a[i].global is Some <==> nodes[i].transform is Some);
    }
}

/// Two node sequences with the same parents and local-pose presence
/// agree on link well-formedness.
proof fn lemma_links_ok_same(nodes: Seq<Node>, t: Seq<Node>)
    requires
        t.len() == nodes.len(),
        forall|i: int| 0 <= i < nodes.len() ==> (#[trigger] t[i]).parent == nodes[i].parent,
        forall|i: int| 0 <= i < nodes.len() ==> (#[trigger] t[i]).transform == nodes[i].transform,
    ensures
        links_ok(t) == links_ok(nodes),
{
    if links_ok(nodes) {
        assert forall|i: int|
            0 <= i < t.len() implies ((#[trigger] t[i]).parent is Some ==> 0 <= t[i].parent->0
            < t.len() && t[t[i].parent->0 as int].transform is Some) by {
            assert(nodes[i].parent == t[i].parent);
        }
    }
    if links_ok(t) {
        assert forall|i: int|
            0 <= i < nodes.len() implies ((#[trigger] nodes[i]).parent is Some ==> 0
            <= nodes[i].parent->0 < nodes.len()
            && nodes[nodes[i].parent->0 as int].transform is Some) by {
            assert(t[i].parent == nodes[i].parent);
        }
    }
}

/// Two node sequences with the same parents produce the same ancestor
/// chains.
proof fn lemma_chain_same(nodes: Seq<Node>, t: Seq<Node>, i: int, fuel: nat)
    requires
        t.len() == nodes.len(),
        forall|j: int| 0 <= j < nodes.len() ==> (#[trigger] t[j]).parent == nodes[j].parent,
        links_ok(nodes),
        0 <= i < nodes.len(),
    ensures
        chain(t, i, fuel) == chain(nodes, i, fuel),
    decreases fuel,
{
    if fuel == 0 {
    } else if nodes[i].parent is None {
    } else {
        let p = nodes[i].parent->0 as int;
        lemma_chain_same(nodes, t, p, (fuel - 1) as nat);
    }
}

/// Two node sequences with the same local poses compose the same world
/// pose along a chain of existing nodes.
proof fn lemma_chain_world_same(nodes: Seq<Node>, t: Seq<Node>, c: Seq<int>)
    requires
        t.len() == nodes.len(),
        forall|j: int| 0 <= j < nodes.len() ==> (#[trigger] t[j]).transform == nodes[j].transform,
        forall|k: int| 0 <= k < c.len() ==> 0 <= #[trigger] c[k] < nodes.len(),
        c.len() >= 1,
    ensures
        chain_world(t, c) == chain_world(nodes, c),
    decreases c.len(),
{
    if c.len() <= 1 {
        assert(t[c[0]].transform == nodes[c[0]].transform);
    } else {
        assert(forall|k: int| 0 <= k < c.drop_last().len() ==> #[trigger] c.drop_last()[k] == c[k]);
        lemma_chain_world_same(nodes, t, c.drop_last());
        assert(t[c.last()].transform == nodes[c.last()].transform);
    }
}

/// Two node sequences with the same local poses agree on whether a
/// chain of existing nodes stays within the compose range.
proof fn lemma_chain_bounded_same(nodes: Seq<Node>, t: Seq<Node>, c: Seq<int>)
    requires
        t.len() == nodes.len(),
        forall|j: int| 0 <= j < nodes.len() ==> (#[trigger] t[j]).transform == nodes[j].transform,
        forall|k: int| 0 <= k < c.len() ==> 0 <= #[trigger] c[k] < nodes.len(),
    ensures
        chain_bounded(t, c) == chain_bounded(nodes, c),
{
    assert forall|k: int| 0 <= k < c.len() implies local_motor(t, #[trigger] c[k]) == local_motor(
        nodes,
        c[k],
    ) by {
        assert(t[c[k]].transform == nodes[c[k]].transform);
    }
    assert forall|k: int| 1 <= k < c.len() implies #[trigger] chain_world(t, c.subrange(0, k))
        == chain_world(nodes, c.subrange(0, k)) by {
        assert(forall|m: int| 0 <= m < k ==> #[trigger] c.subrange(0, k)[m] == c[m]);
        lemma_chain_world_same(nodes, t, c.subrange(0, k));
    }
    if chain_bounded(nodes, c) {
        assert forall|k: int|
            0 <= k < c.len() implies local_motor(t, #[trigger] c[k]).in_range(
            COMPOSE_BOUND as int,
        ) by {
            assert(local_motor(nodes, c[k]).in_range(COMPOSE_BOUND as int));
        }
        assert forall|k: int|
            1 <= k < c.len() implies (#[trigger] chain_world(t, c.subrange(0, k))).in_range(
            COMPOSE_BOUND as int,
        ) by {
            assert(chain_world(nodes, c.subrange(0, k)).in_range(COMPOSE_BOUND as int));
            assert(chain_world(t, c.subrange(0, k)) == chain_world(nodes, c.subrange(0, k)));
        }
    }
    if chain_bounded(t, c) {
        assert forall|k: int|
            0 <= k < c.len() implies local_motor(nodes, #[trigger] c[k]).in_range(
            COMPOSE_BOUND as int,
        ) by {
            assert(local_motor(t, c[k]).in_range(COMPOSE_BOUND as int));
        }
        assert forall|k: int|
            1 <= k < c.len() implies (#[trigger] chain_world(nodes, c.subrange(0, k))).in_range(
            COMPOSE_BOUND as int,
        ) by {
            assert(chain_world(t, c.subrange(0, k)) == chain_world(nodes, c.subrange(0, k)));
            assert(chain_world(t, c.subrange(0, k)).in_range(COMPOSE_BOUND as int));
        }
    }
}

/// Law: for a three-level chain root, middle, leaf with local poses `r`,
/// `m` and `l`, the leaf's world pose is `r` applied to `m` applied to
/// `l`: ancestors pre-applied, the root last.
pub proof fn lemma_three_level_chain(nodes: Seq<Node>, c: Seq<int>)
    requires
        c.len() == 3,
    ensures
        chain_world(nodes, c) == MotorModel::product(
            local_motor(nodes, c[2]),
            MotorModel::product(local_motor(nodes, c[1]), local_motor(nodes, c[0])),
        ),
{
    let c2 = c.drop_last();
    assert(c2.len() == 2);
    assert(c2.drop_last() =~= seq![c[0]]);
    assert(c2.last() == c[1]);
    assert(chain_world(nodes, seq![c[0]]) == local_motor(nodes, c[0]));
    assert(chain_world(nodes, c2) == MotorModel::product(
        local_motor(nodes, c[1]),
        local_motor(nodes, c[0]),
    ));
    assert(c.last() == c[2]);
}

/// A one-element chain is dirty exactly when its node is.
proof fn lemma_chain_dirty_one(nodes: Seq<Node>, i: int, last_run: u64)
    ensures
        chain_dirty(nodes, seq![i], last_run) <==> node_dirty(nodes[i], last_run),
{
    let c = seq![i];
    assert(c[0] == i);
    if node_dirty(nodes[i], last_run) {
        assert(node_dirty(nodes[c[0]], last_run));
    }
}

/// Extending a chain by one node adds exactly that node's dirtiness.
proof fn lemma_chain_dirty_push(nodes: Seq<Node>, c: Seq<int>, x: int, last_run: u64)
    ensures
        chain_dirty(nodes, c.push(x), last_run) <==> (chain_dirty(nodes, c, last_run)
            || node_dirty(nodes[x], last_run)),
{
    let cp = c.push(x);
    if chain_dirty(nodes, cp, last_run) {
        let k = choose|k: int|
            0 <= k < cp.len() && node_dirty(nodes[#[trigger] cp[k]], last_run);
        if k < c.len() {
            assert(cp[k] == c[k]);
        } else {
            assert(cp[k] == x);
        }
    }
    if chain_dirty(nodes, c, last_run) {
        let k = choose|k: int| 0 <= k < c.len() && node_dirty(nodes[#[trigger] c[k]], last_run);
        assert(cp[k] == c[k]);
    }
    if node_dirty(nodes[x], last_run) {
        assert(cp[c.len() as int] == x);
    }
}

/// Scan a node's ancestor chain: detect a cycle, and report whether any
/// node on the chain changed after `last_run`.
fn scan_chain(nodes: &Vec<Node>, i: usize, last_run: u64) -> (r: Result<bool, SceneError>)
    requires
        links_ok(nodes@),
        i < nodes@.len(),
        nodes@.len() < usize::MAX,
        nodes@[i as int].transform is Some,
    ensures
        match r {
            Ok(dirty) => {
                &&& chain(nodes@, i as int, (nodes@.len() + 1) as nat) is Some
                &&& dirty == chain_dirty(
                    nodes@,
                    chain(nodes@, i as int, (nodes@.len() + 1) as nat)->0,
                    last_run,
                )
            },
            Err(e) => {
                &&& e == SceneError::CycleDetected
                &&& chain(nodes@, i as int, (nodes@.len() + 1) as nat) is None
            },
        },
{
    let n = nodes.len();
    let ghost full = chain(nodes@, i as int, (n + 1) as nat);
    let mut cur: usize = i;
    let mut fuel: usize = n + 1;
    let mut dirty: bool = nodes[i].transform_tick > last_run || (nodes[i].parent.is_some()
        && nodes[i].parent_tick > last_run);
    let ghost mut pre: Seq<int> = seq![i as int];
    proof {
        assert(pre[0] == i as int);
        lemma_chain_dirty_one(nodes@, i as int, last_run);
    }
    loop
        invariant
            links_ok(nodes@),
            nodes@.len() == n < usize::MAX,
            1 <= fuel <= n + 1,
            pre.len() >= 1,
            pre[0] == i as int,
            pre.last() == cur as int,
            cur < n,
            nodes@[cur as int].transform is Some,
            dirty == chain_dirty(nodes@, pre, last_run),
            full == chain(nodes@, i as int, (n + 1) as nat),
            full == match chain(nodes@, cur as int, fuel as nat) {
                None => None::<Seq<int>>,
                Some(c) => Some(pre.drop_last() + c),
            },
        decreases fuel,
    {
        match nodes[cur].parent {
            None => {
                proof {
                    assert(chain(nodes@, cur as int, fuel as nat) == Some(seq![cur as int]));
                    assert(pre.drop_last() + seq![cur as int] =~= pre);
                }
                return Ok(dirty);
            },
            Some(p) => {
                proof {
                    lemma_chain_step(nodes@, cur as int, fuel as nat);
                }
                if fuel == 1 {
                    proof {
                        assert(chain(nodes@, p as int, 0nat) is None);
                    }
                    return Err(SceneError::CycleDetected);
                }
                fuel = fuel - 1;
                dirty = dirty || nodes[p].transform_tick > last_run || (nodes[p].parent.is_some()
                    && nodes[p].parent_tick > last_run);
                proof {
                    lemma_chain_dirty_push(nodes@, pre, p as int, last_run);
                    let oldpre = pre;
                    pre = pre.push(p as int);
                    assert(oldpre.drop_last().push(cur as int) =~= oldpre);
                    assert(pre.drop_last() =~= oldpre);
                    if chain(nodes@, p as int, fuel as nat) is Some {
                        let cc = chain(nodes@, p as int, fuel as nat)->0;
                        assert(oldpre.drop_last() + (seq![cur as int] + cc) =~= oldpre + cc);
                    }
                }
                cur = p;
            },
        }
    }
}

/// Compose a node's world pose along its already-validated chain.
fn compose_chain(nodes: &Vec<Node>, i: usize, last_run: u64) -> (r: Motor)
    requires
        links_ok(nodes@),
        i < nodes@.len(),
        nodes@.len() < usize::MAX,
        nodes@[i as int].transform is Some,
        chain(nodes@, i as int, (nodes@.len() + 1) as nat) is Some,
        chain_bounded(nodes@, chain(nodes@, i as int, (nodes@.len() + 1) as nat)->0),
    ensures
        r@ == chain_world(nodes@, chain(nodes@, i as int, (nodes@.len() + 1) as nat)->0),
{
    let n = nodes.len();
    let ghost c = chain(nodes@, i as int, (n + 1) as nat)->0;
    proof {
        lemma_chain_props(nodes@, i as int, (n + 1) as nat);
    }
    let mut cur: usize = i;
    let mut world: Motor = nodes[i].transform.unwrap().motor;
    let ghost mut steps: int = 0;
    proof {
        assert(c.subrange(0, 1) =~= seq![i as int]);
    }
    loop
        invariant
            links_ok(nodes@),
            nodes@.len() == n < usize::MAX,
            c == chain(nodes@, i as int, (n + 1) as nat)->0,
            chain(nodes@, i as int, (n + 1) as nat) is Some,
            chain_bounded(nodes@, c),
            c.len() >= 1,
            forall|k: int|
                0 <= k < c.len() ==> 0 <= #[trigger] c[k] < nodes@.len()
                    && nodes@[c[k]].transform is Some,
            forall|k: int|
                0 <= k < c.len() - 1 ==> nodes@[#[trigger] c[k]].parent is Some
                    && nodes@[c[k]].parent->0 == c[k + 1],
            nodes@[c.last()].parent is None,
            0 <= steps < c.len(),
            cur as int == c[steps],
            world@ == chain_world(nodes@, c.subrange(0, steps + 1)),
        decreases c.len() - steps,
    {
        match nodes[cur].parent {
            None => {
                proof {
                    if steps < c.len() - 1 {
                        assert(nodes@[c[steps]].parent is Some);
                    }
                    assert(c.subrange(0, steps + 1) =~= c);
                }
                return world;
            },
            Some(p) => {
                proof {
                    if steps == c.len() - 1 {
                        assert(nodes@[c.last()].parent is None);
                    }
                    assert(local_motor(nodes@, p as int).in_range(COMPOSE_BOUND as int));
                    assert(chain_world(nodes@, c.subrange(0, steps + 1)).in_range(
                        COMPOSE_BOUND as int,
                    ));
                }
                let parent_local = nodes[p].transform.unwrap().motor;
                world = world.pre_apply(parent_local);
                proof {
                    steps = steps + 1;
                    assert(c.subrange(0, steps + 1).drop_last() =~= c.subrange(0, steps));
                    assert(c.subrange(0, steps + 1).last() == c[steps]);
                }
                cur = p;
            },
        }
    }
}

/// The node as the propagator leaves it when it recomputes: a new world
/// pose carrying the given tick, everything else untouched.
pub open spec fn with_global(n: Node, g: GlobalTransform, tick: u64) -> Node {
    Node { global: Some(g), global_tick: tick, ..n }
}

/// Nodes gaining a local pose without a world pose receive one: a copy
/// of the current local pose, stamped with the current tick. It becomes
/// ancestor-correct on the next propagation pass.
pub fn add_global_transforms(s: &mut Scene)
    ensures
        final(s).nodes@.len() == old(s).nodes@.len(),
        forall|i: int|
            0 <= i < old(s).nodes@.len() ==> final(s).nodes@[i] == ({
                let n = old(s).nodes@[i];
                if n.transform is Some && n.global is None {
                    with_global(n, GlobalTransform(n.transform->0), old(s).tick)
                } else {
                    n
                }
            }),
        final(s).tick == old(s).tick,
        final(s).removed_parents@ == old(s).removed_parents@,
{
    let len = s.nodes.len();
    let mut i: usize = 0;
    while i < len
        invariant
            len == s.nodes@.len() == old(s).nodes@.len(),
            i <= len,
            s.tick == old(s).tick,
            s.removed_parents@ == old(s).removed_parents@,
            forall|j: int|
                0 <= j < i ==> s.nodes@[j] == ({
                    let n = old(s).nodes@[j];
                    if n.transform is Some && n.global is None {
                        with_global(n, GlobalTransform(n.transform->0), old(s).tick)
                    } else {
                        n
                    }
                }),
            forall|j: int| i <= j < len ==> s.nodes@[j] == old(s).nodes@[j],
        decreases len - i,
    {
        let n = s.nodes[i];
        if n.transform.is_some() && n.global.is_none() {
            let mut updated = n;
            updated.global = Some(GlobalTransform(n.transform.unwrap()));
            updated.global_tick = s.tick;
            s.nodes.set(i, updated);
        }
        i = i + 1;
    }
}

/// Nodes holding a world pose without a local pose lose the world pose.
pub fn remove_global_transforms(s: &mut Scene)
    ensures
        final(s).nodes@.len() == old(s).nodes@.len(),
        forall|i: int|
            0 <= i < old(s).nodes@.len() ==> final(s).nodes@[i] == ({
                let n = old(s).nodes@[i];
                if n.global is Some && n.transform is None {
                    Node { global: None, ..n }
                } else {
                    n
                }
            }),
        final(s).tick == old(s).tick,
        final(s).removed_parents@ == old(s).removed_parents@,
{
    let len = s.nodes.len();
    let mut i: usize = 0;
    while i < len
        invariant
            len == s.nodes@.len() == old(s).nodes@.len(),
            i <= len,
            s.tick == old(s).tick,
            s.removed_parents@ == old(s).removed_parents@,
            forall|j: int|
                0 <= j < i ==> s.nodes@[j] == ({
                    let n = old(s).nodes@[j];
                    if n.global is Some && n.transform is None {
                        Node { global: None, ..n }
                    } else {
                        n
                    }
                }),
            forall|j: int| i <= j < len ==> s.nodes@[j] == old(s).nodes@[j],
        decreases len - i,
    {
        let n = s.nodes[i];
        if n.global.is_some() && n.transform.is_none() {
            let mut updated = n;
            updated.global = None;
            s.nodes.set(i, updated);
        }
        i = i + 1;
    }
}

/// An element is in a prefix of length `k` exactly when it is in the
/// prefix of length `k - 1` or is the element at `k - 1`.
proof fn lemma_subrange_push_contains(s: Seq<usize>, k: int, u: usize)
    requires
        1 <= k <= s.len(),
    ensures
        s.subrange(0, k).contains(u) <==> (s.subrange(0, k - 1).contains(u) || u == s[k - 1]),
{
    assert(s.subrange(0, k) =~= s.subrange(0, k - 1).push(s[k - 1]));
    if s.subrange(0, k).contains(u) {
        let j = choose|j: int| 0 <= j < k && #[trigger] s.subrange(0, k)[j] == u;
        if j < k - 1 {
            assert(s.subrange(0, k - 1)[j] == u);
        }
    }
    if s.subrange(0, k - 1).contains(u) {
        let j = choose|j: int| 0 <= j < k - 1 && #[trigger] s.subrange(0, k - 1)[j] == u;
        assert(s.subrange(0, k)[j] == u);
    }
    if u == s[k - 1] {
        assert(s.subrange(0, k)[k - 1] == u);
    }
}

/// A node whose parent link was removed gets its local pose marked as
/// changed, even though the pose value itself is untouched: losing a
/// parent changes the ancestry, so the next pass must recompute.
pub open spec fn mark_removed(nodes: Seq<Node>, removed: Seq<usize>, tick: u64) -> Seq<Node> {
    Seq::new(
        nodes.len(),
        |i: int|
            if removed.contains(i as usize) && nodes[i].transform is Some {
                Node { transform_tick: tick, ..nodes[i] }
            } else {
                nodes[i]
            },
    )
}

/// Apply the pending parent removals: mark each listed node's local pose
/// as changed and clear the list.
pub fn update_removed_parents(s: &mut Scene)
    ensures
        final(s).nodes@ == mark_removed(old(s).nodes@, old(s).removed_parents@, old(s).tick),
        final(s).tick == old(s).tick,
        final(s).removed_parents@.len() == 0,
{
    let len = s.removed_parents.len();
    let mut k: usize = 0;
    while k < len
        invariant
            len == s.removed_parents@.len(),
            s.removed_parents@ == old(s).removed_parents@,
            k <= len,
            s.tick == old(s).tick,
            s.nodes@.len() == old(s).nodes@.len(),
            forall|i: int|
                0 <= i < s.nodes@.len() ==> s.nodes@[i] == ({
                    if old(s).removed_parents@.subrange(0, k as int).contains(i as usize) && old(s).nodes@[i].transform is Some {
                        Node { transform_tick: old(s).tick, ..old(s).nodes@[i] }
                    } else {
                        old(s).nodes@[i]
                    }
                }),
        decreases len - k,
    {
        let id = s.removed_parents[k];
        if id < s.nodes.len() {
            let n = s.nodes[id];
            if n.transform.is_some() {
                let mut updated = n;
                updated.transform_tick = s.tick;
                s.nodes.set(id, updated);
            }
        }
        k = k + 1;
        proof {
            assert forall|i: int| 0 <= i < s.nodes@.len() implies s.nodes@[i] == ({
                if old(s).removed_parents@.subrange(0, k as int).contains(i as usize) && old(s).nodes@[i].transform is Some {
                    Node { transform_tick: old(s).tick, ..old(s).nodes@[i] }
                } else {
                    old(s).nodes@[i]
                }
            }) by {
                lemma_subrange_push_contains(old(s).removed_parents@, k as int, i as usize);
            }
        }
    }
    proof {
        assert(old(s).removed_parents@.subrange(0, len as int) =~= old(s).removed_parents@);
        assert(s.nodes@ =~= mark_removed(old(s).nodes@, old(s).removed_parents@, old(s).tick));
    }
    s.removed_parents = Vec::new();
}

/// Recompute the world pose of every node that owns both poses and whose
/// chain changed since `last_run`; leave every other node untouched. A
/// cycle in the parent links is a configuration error: the scene is left
/// unchanged and `CycleDetected` comes back.
pub fn update_global_transforms(s: &mut Scene, last_run: u64) -> (r: Result<(), SceneError>)
    requires
        links_ok(old(s).nodes@),
        old(s).nodes@.len() < usize::MAX,
        forall|i: int|
            0 <= i < old(s).nodes@.len() && propagated(#[trigger] old(s).nodes@[i]) && chain(
                old(s).nodes@,
                i,
                (old(s).nodes@.len() + 1) as nat,
            ) is Some ==> chain_bounded(
                old(s).nodes@,
                chain(old(s).nodes@, i, (old(s).nodes@.len() + 1) as nat)->0,
            ),
    ensures
        match r {
            Ok(()) => {
                &&& final(s).nodes@.len() == old(s).nodes@.len()
                &&& final(s).tick == old(s).tick
                &&& final(s).removed_parents@ == old(s).removed_parents@
                &&& forall|i: int|
                    0 <= i < old(s).nodes@.len() && propagated(#[trigger] old(s).nodes@[i])
                        ==> chain(old(s).nodes@, i, (old(s).nodes@.len() + 1) as nat) is Some
                &&& forall|i: int|
                    #![trigger final(s).nodes@[i]]
                    0 <= i < old(s).nodes@.len() ==> ({
                        let n = old(s).nodes@[i];
                        let ch = chain(old(s).nodes@, i, (old(s).nodes@.len() + 1) as nat);
                        if propagated(n) && chain_dirty(old(s).nodes@, ch->0, last_run) {
                            &&& final(s).nodes@[i] == with_global(
                                n,
                                final(s).nodes@[i].global->0,
                                old(s).tick,
                            )
                            &&& (final(s).nodes@[i].global->0).0.motor@ == chain_world(
                                old(s).nodes@,
                                ch->0,
                            )
                        } else {
                            final(s).nodes@[i] == n
                        }
                    })
            },
            Err(e) => {
                &&& e == SceneError::CycleDetected
                &&& *final(s) == *old(s)
                &&& exists|i: int|
                    0 <= i < old(s).nodes@.len() && propagated(#[trigger] old(s).nodes@[i])
                        && chain(old(s).nodes@, i, (old(s).nodes@.len() + 1) as nat) is None
            },
        },
{
    let len = s.nodes.len();
    let mut results: Vec<Option<Motor>> = Vec::new();
    let mut i: usize = 0;
    while i < len
        invariant
            len == s.nodes@.len(),
            s == old(s),
            links_ok(s.nodes@),
            len < usize::MAX,
            forall|j: int|
                0 <= j < len && propagated(#[trigger] s.nodes@[j]) && chain(
                    s.nodes@,
                    j,
                    (len + 1) as nat,
                ) is Some ==> chain_bounded(s.nodes@, chain(s.nodes@, j, (len + 1) as nat)->0),
            i <= len,
            results@.len() == i,
            forall|j: int|
                0 <= j < i ==> ({
                    let n = s.nodes@[j];
                    let ch = chain(s.nodes@, j, (len + 1) as nat);
                    match #[trigger] results@[j] {
                        Some(m) => {
                            &&& propagated(n)
                            &&& ch is Some
                            &&& chain_dirty(s.nodes@, ch->0, last_run)
                            &&& m@ == chain_world(s.nodes@, ch->0)
                        },
                        None => propagated(n) ==> ch is Some && !chain_dirty(
                            s.nodes@,
                            ch->0,
                            last_run,
                        ),
                    }
                }),
        decreases len - i,
    {
        let n = s.nodes[i];
        if n.transform.is_some() && n.global.is_some() {
            match scan_chain(&s.nodes, i, last_run) {
                Ok(dirty) => {
                    if dirty {
                        let world = compose_chain(&s.nodes, i, last_run);
                        results.push(Some(world));
                    } else {
                        results.push(None);
                    }
                },
                Err(e) => {
                    return Err(e);
                },
            }
        } else {
            results.push(None);
        }
        i = i + 1;
    }
    let mut j: usize = 0;
    while j < len
        invariant
            len == s.nodes@.len() == old(s).nodes@.len(),
            s.tick == old(s).tick,
            s.removed_parents@ == old(s).removed_parents@,
            results@.len() == len,
            j <= len,
            forall|k: int|
                0 <= k < len ==> ({
                    let n = old(s).nodes@[k];
                    let ch = chain(old(s).nodes@, k, (len + 1) as nat);
                    match #[trigger] results@[k] {
                        Some(m) => {
                            &&& propagated(n)
                            &&& ch is Some
                            &&& chain_dirty(old(s).nodes@, ch->0, last_run)
                            &&& m@ == chain_world(old(s).nodes@, ch->0)
                        },
                        None => propagated(n) ==> ch is Some && !chain_dirty(
                            old(s).nodes@,
                            ch->0,
                            last_run,
                        ),
                    }
                }),
            forall|k: int|
                0 <= k < j ==> s.nodes@[k] == ({
                    match results@[k] {
                        Some(m) => with_global(
                            old(s).nodes@[k],
                            GlobalTransform(Transform { motor: m }),
                            old(s).tick,
                        ),
                        None => old(s).nodes@[k],
                    }
                }),
            forall|k: int| j <= k < len ==> s.nodes@[k] == old(s).nodes@[k],
        decreases len - j,
    {
        match results[j] {
            Some(m) => {
                let mut updated = s.nodes[j];
                updated.global = Some(GlobalTransform(Transform { motor: m }));
                updated.global_tick = s.tick;
                s.nodes.set(j, updated);
            },
            None => {},
        }
        j = j + 1;
    }
    proof {
        assert forall|i: int|
            0 <= i < len && propagated(#[trigger] old(s).nodes@[i]) implies chain(
            old(s).nodes@,
            i,
            (len + 1) as nat,
        ) is Some by {
            assert(results@[i] is Some || results@[i] is None);
        }
        assert forall|i: int| #![trigger s.nodes@[i]] 0 <= i < len implies ({
            let n = old(s).nodes@[i];
            let ch = chain(old(s).nodes@, i, (len + 1) as nat);
            if propagated(n) && chain_dirty(old(s).nodes@, ch->0, last_run) {
                &&& s.nodes@[i] == with_global(n, s.nodes@[i].global->0, old(s).tick)
                &&& (s.nodes@[i].global->0).0.motor@ == chain_world(old(s).nodes@, ch->0)
            } else {
                s.nodes@[i] == n
            }
        }) by {
            assert(results@[i] is Some || results@[i] is None);
        }
    }
    Ok(())
}

/// The state of the nodes after attach, detach and removal marking, on
/// which the recompute step then acts.
pub open spec fn pre_pass(nodes: Seq<Node>, removed: Seq<usize>, tick: u64) -> Seq<Node> {
    mark_removed(add_remove_spec(nodes, tick), removed, tick)
}

/// The scene is fit for propagation: parent links are well formed, and
/// every node owning a local pose has an acyclic ancestor chain whose
/// composition stays within the compose range. `validate` tests exactly
/// this, and it implies the propagation pass's preconditions and rules
/// a `CycleDetected` outcome out.
pub open spec fn propagation_ready(nodes: Seq<Node>) -> bool {
    &&& links_ok(nodes)
    &&& forall|i: int|
        #![trigger nodes[i]]
        0 <= i < nodes.len() && nodes[i].transform is Some ==> (chain(
            nodes,
            i,
            (nodes.len() + 1) as nat,
        ) is Some && chain_bounded(nodes, chain(nodes, i, (nodes.len() + 1) as nat)->0))
}

/// Whether every coefficient of the motor lies within the compose range.
fn motor_within_compose_range(m: &Motor) -> (r: bool)
    ensures
        r == m@.in_range(COMPOSE_BOUND as int),
{
    -COMPOSE_BOUND <= m.s && m.s <= COMPOSE_BOUND && -COMPOSE_BOUND <= m.e12 && m.e12
        <= COMPOSE_BOUND && -COMPOSE_BOUND <= m.e13 && m.e13 <= COMPOSE_BOUND && -COMPOSE_BOUND
        <= m.e23 && m.e23 <= COMPOSE_BOUND && -COMPOSE_BOUND <= m.e01 && m.e01 <= COMPOSE_BOUND
        && -COMPOSE_BOUND <= m.e02 && m.e02 <= COMPOSE_BOUND && -COMPOSE_BOUND <= m.e03 && m.e03
        <= COMPOSE_BOUND && -COMPOSE_BOUND <= m.e0123 && m.e0123 <= COMPOSE_BOUND
}

/// Walk a node's already-acyclic chain and test whether every local
/// pose on it and every partial composition along it stays within the
/// compose range.
fn chain_within_bounds(nodes: &Vec<Node>, i: usize) -> (r: bool)
    requires
        links_ok(nodes@),
        i < nodes@.len(),
        nodes@.len() < usize::MAX,
        nodes@[i as int].transform is Some,
        chain(nodes@, i as int, (nodes@.len() + 1) as nat) is Some,
    ensures
        r == chain_bounded(nodes@, chain(nodes@, i as int, (nodes@.len() + 1) as nat)->0),
{
    let n = nodes.len();
    let ghost c = chain(nodes@, i as int, (n + 1) as nat)->0;
    proof {
        lemma_chain_props(nodes@, i as int, (n + 1) as nat);
    }
    let mut cur: usize = i;
    let mut world: Motor = nodes[i].transform.unwrap().motor;
    if !motor_within_compose_range(&world) {
        proof {
            assert(c[0] == i as int);
            assert(!local_motor(nodes@, c[0]).in_range(COMPOSE_BOUND as int));
        }
        return false;
    }
    let ghost mut steps: int = 0;
    proof {
        assert(c.subrange(0, 1) =~= seq![i as int]);
    }
    loop
        invariant
            links_ok(nodes@),
            nodes@.len() == n < usize::MAX,
            c == chain(nodes@, i as int, (n + 1) as nat)->0,
            chain(nodes@, i as int, (n + 1) as nat) is Some,
            c.len() >= 1,
            forall|k: int|
                0 <= k < c.len() ==> 0 <= #[trigger] c[k] < nodes@.len()
                    && nodes@[c[k]].transform is Some,
            forall|k: int|
                0 <= k < c.len() - 1 ==> nodes@[#[trigger] c[k]].parent is Some
                    && nodes@[c[k]].parent->0 == c[k + 1],
            nodes@[c.last()].parent is None,
            0 <= steps < c.len(),
            cur as int == c[steps],
            world@ == chain_world(nodes@, c.subrange(0, steps + 1)),
            forall|k: int|
                0 <= k <= steps ==> local_motor(nodes@, #[trigger] c[k]).in_range(
                    COMPOSE_BOUND as int,
                ),
            forall|k: int|
                1 <= k <= steps ==> (#[trigger] chain_world(nodes@, c.subrange(0, k))).in_range(
                    COMPOSE_BOUND as int,
                ),
        decreases c.len() - steps,
    {
        match nodes[cur].parent {
            None => {
                proof {
                    if steps < c.len() - 1 {
                        assert(nodes@[c[steps]].parent is Some);
                    }
                }
                return true;
            },
            Some(p) => {
                proof {
                    if steps == c.len() - 1 {
                        assert(nodes@[c.last()].parent is None);
                    }
                    assert(c[steps + 1] == p as int);
                }
                if !motor_within_compose_range(&world) {
                    proof {
                        assert(!(#[trigger] chain_world(nodes@, c.subrange(0, steps + 1))).in_range(
                            COMPOSE_BOUND as int,
                        ));
                    }
                    return false;
                }
                let parent_local = nodes[p].transform.unwrap().motor;
                if !motor_within_compose_range(&parent_local) {
                    proof {
                        assert(!local_motor(nodes@, c[steps + 1]).in_range(COMPOSE_BOUND as int));
                    }
                    return false;
                }
                world = world.pre_apply(parent_local);
                proof {
                    steps = steps + 1;
                    assert(c.subrange(0, steps + 1).drop_last() =~= c.subrange(0, steps));
                    assert(c.subrange(0, steps + 1).last() == c[steps]);
                }
                cur = p;
            },
        }
    }
}

/// One propagation pass, in the order the transform system runs its
/// steps: attach missing world poses, drop orphaned ones, apply pending
/// parent removals, then recompute what changed since `last_run`.
pub struct TransformPlugin;

impl TransformPlugin {
    /// Test whether the scene is fit for propagation, so that a caller
    /// can establish `run`'s preconditions, and know that no cycle will
    /// be reported, before asking for a pass.
    pub fn validate(s: &Scene) -> (r: bool)
        ensures
            r == (s.nodes@.len() < usize::MAX && propagation_ready(s.nodes@)),
    {
        let len = s.nodes.len();
        if len == usize::MAX {
            return false;
        }
        let mut i: usize = 0;
        while i < len
            invariant
                len == s.nodes@.len() < usize::MAX,
                i <= len,
                forall|j: int|
                    0 <= j < i ==> ((#[trigger] s.nodes@[j]).parent is Some ==> 0
                        <= s.nodes@[j].parent->0 < len
                        && s.nodes@[s.nodes@[j].parent->0 as int].transform is Some),
            decreases len - i,
        {
            match s.nodes[i].parent {
                Some(p) => {
                    if p >= len {
                        proof {
                            assert(!links_ok(s.nodes@));
                        }
                        return false;
                    }
                    if s.nodes[p].transform.is_none() {
                        proof {
                            assert(!links_ok(s.nodes@));
                        }
                        return false;
                    }
                },
                None => {},
            }
            i = i + 1;
        }
        proof {
            assert(links_ok(s.nodes@));
        }
        let mut j: usize = 0;
        while j < len
            invariant
                len == s.nodes@.len() < usize::MAX,
                j <= len,
                links_ok(s.nodes@),
                forall|k: int|
                    0 <= k < j && (#[trigger] s.nodes@[k]).transform is Some ==> (chain(
                        s.nodes@,
                        k,
                        (len + 1) as nat,
                    ) is Some && chain_bounded(
                        s.nodes@,
                        chain(s.nodes@, k, (len + 1) as nat)->0,
                    )),
            decreases len - j,
        {
            if s.nodes[j].transform.is_some() {
                match scan_chain(&s.nodes, j, 0) {
                    Ok(_) => {},
                    Err(_) => {
                        proof {
                            assert(!propagation_ready(s.nodes@));
                        }
                        return false;
                    },
                }
                if !chain_within_bounds(&s.nodes, j) {
                    proof {
                        assert(!propagation_ready(s.nodes@));
                    }
                    return false;
                }
            }
            j = j + 1;
        }
        true
    }

    /// Run the four propagation steps in order. On a parent-link cycle
    /// the pass stops with `CycleDetected` before recomputing anything,
    /// leaving every pose as the attach, detach and marking steps left
    /// it.
    pub fn run(s: &mut Scene, last_run: u64) -> (r: Result<(), SceneError>)
        requires
            links_ok(old(s).nodes@),
            old(s).nodes@.len() < usize::MAX,
            forall|i: int|
                #![trigger chain(old(s).nodes@, i, (old(s).nodes@.len() + 1) as nat)]
                0 <= i < old(s).nodes@.len() && old(s).nodes@[i].transform is Some && chain(
                    old(s).nodes@,
                    i,
                    (old(s).nodes@.len() + 1) as nat,
                ) is Some ==> chain_bounded(
                    old(s).nodes@,
                    chain(old(s).nodes@, i, (old(s).nodes@.len() + 1) as nat)->0,
                ),
        ensures
            final(s).nodes@.len() == old(s).nodes@.len(),
            final(s).tick == old(s).tick,
            final(s).removed_parents@.len() == 0,
            match r {
                Ok(()) => forall|i: int|
                    #![trigger final(s).nodes@[i]]
                    0 <= i < old(s).nodes@.len() ==> ({
                        let t = pre_pass(old(s).nodes@, old(s).removed_parents@, old(s).tick);
                        let n = t[i];
                        let ch = chain(t, i, (old(s).nodes@.len() + 1) as nat);
                        if propagated(n) && chain_dirty(t, ch->0, last_run) {
                            &&& final(s).nodes@[i] == with_global(
                                n,
                                final(s).nodes@[i].global->0,
                                old(s).tick,
                            )
                            &&& (final(s).nodes@[i].global->0).0.motor@ == chain_world(t, ch->0)
                        } else {
                            final(s).nodes@[i] == n
                        }
                    }),
                Err(e) => {
                    &&& e == SceneError::CycleDetected
                    &&& final(s).nodes@ == pre_pass(
                        old(s).nodes@,
                        old(s).removed_parents@,
                        old(s).tick,
                    )
                    &&& exists|i: int|
                        0 <= i < old(s).nodes@.len() && propagated(
                            #[trigger] pre_pass(
                                old(s).nodes@,
                                old(s).removed_parents@,
                                old(s).tick,
                            )[i],
                        ) && chain(
                            pre_pass(old(s).nodes@, old(s).removed_parents@, old(s).tick),
                            i,
                            (old(s).nodes@.len() + 1) as nat,
                        ) is None
                },
            },
    {
        let ghost nodes0 = old(s).nodes@;
        let ghost removed0 = old(s).removed_parents@;
        let ghost tick0 = old(s).tick;
        let ghost fuel = (nodes0.len() + 1) as nat;
        add_global_transforms(s);
        remove_global_transforms(s);
        proof {
            assert(s.nodes@ =~= add_remove_spec(nodes0, tick0));
        }
        update_removed_parents(s);
        proof {
            let t = pre_pass(nodes0, removed0, tick0);
            assert(s.nodes@ =~= t);
            lemma_pre_pass_preserves(nodes0, removed0, tick0);
            lemma_links_ok_same(nodes0, t);
            assert forall|i: int|
                0 <= i < t.len() && propagated(#[trigger] t[i]) && chain(t, i, fuel) is Some
                implies chain_bounded(t, chain(t, i, fuel)->0) by {
                lemma_chain_same(nodes0, t, i, fuel);
                lemma_chain_props(nodes0, i, fuel);
                lemma_chain_bounded_same(nodes0, t, chain(nodes0, i, fuel)->0);
            }
        }
        let result = update_global_transforms(s, last_run);
        proof {
            if result is Err {
                let t = pre_pass(nodes0, removed0, tick0);
                assert forall|i: int|
                    0 <= i < t.len() && propagated(#[trigger] t[i]) implies propagated(t[i]) by {}
            }
        }
        result
    }
}

/// The attach and detach steps as one sequence transformer: a node with
/// a local pose and no world pose gains one, a node with a world pose
/// and no local pose loses it.
pub open spec fn add_remove_spec(nodes: Seq<Node>, tick: u64) -> Seq<Node> {
    Seq::new(
        nodes.len(),
        |i: int|
            {
                let n = nodes[i];
                if n.transform is Some && n.global is None {
                    with_global(n, GlobalTransform(n.transform->0), tick)
                } else if n.global is Some && n.transform is None {
                    Node { global: None, ..n }
                } else {
                    n
                }
            },
    )
}

} // verus!
