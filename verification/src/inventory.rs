//! What the list of device-holding components covers: every component that
//! holds a storage device is listed exactly once, whatever its depth, and no
//! other component is listed.

use vstd::prelude::*;
use crate::blueprint::{devices_at, devices_in, NodeView};
use crate::coverage::{node_at, reachable};

verus! {

/// One if the component itself holds a storage device, zero if not.
pub open spec fn own_device(node: NodeView) -> nat {
    if node.device is Some {
        1
    } else {
        0
    }
}

/// The number of components that hold a storage device, among a component
/// and all that is nested in it.
pub open spec fn device_count_at(node: NodeView) -> nat
    decreases node,
{
    own_device(node) + (match node.children {
        Some(children) => device_count(children),
        None => 0,
    })
}

/// The number of components that hold a storage device, among a list of
/// siblings and all that is nested in them.
pub open spec fn device_count(nodes: Seq<NodeView>) -> nat
    decreases nodes,
{
    if nodes.len() == 0 {
        0
    } else {
        device_count(nodes.drop_last()) + device_count_at(nodes.last())
    }
}

/// The number of device-holding components that the traversal of `nodes`
/// lists before it reaches the component at `path`.
pub open spec fn device_rank(nodes: Seq<NodeView>, path: Seq<int>) -> nat
    recommends
        reachable(nodes, path),
    decreases path.len(),
{
    if path.len() <= 1 {
        device_count(nodes.take(path[0]))
    } else {
        device_count(nodes.take(path[0])) + own_device(nodes[path[0]]) + device_rank(
            nodes[path[0]].kids(),
            path.drop_first(),
        )
    }
}

/// As many components are listed below a component as hold a device there.
pub proof fn devices_at_counts_every_device(node: NodeView)
    ensures
        devices_at(node).len() == device_count_at(node),
    decreases node,
{
    if let Some(children) = node.children {
        devices_in_counts_every_device(children);
    }
}

/// As many components are listed as hold a device, at whatever depth.
pub proof fn devices_in_counts_every_device(nodes: Seq<NodeView>)
    ensures
        devices_in(nodes).len() == device_count(nodes),
    decreases nodes,
{
    if nodes.len() > 0 {
        devices_in_counts_every_device(nodes.drop_last());
        devices_at_counts_every_device(nodes.last());
    }
}

/// The list for a list of siblings is the list for any front part of it
/// followed by the list for the rest.
pub proof fn devices_in_splits(nodes: Seq<NodeView>, i: int)
    requires
        0 <= i <= nodes.len(),
    ensures
        devices_in(nodes) == devices_in(nodes.take(i)) + devices_in(nodes.skip(i)),
    decreases nodes.len(),
{
    if i == nodes.len() {
        assert(nodes.take(i) =~= nodes);
    } else {
        let front = nodes.drop_last();
        devices_in_splits(front, i);
        assert(front.take(i) =~= nodes.take(i));
        assert(front.skip(i) =~= nodes.skip(i).drop_last());
    }
}

/// The list around member `i` of a list of siblings: what comes before the
/// member, the member's own entry and those nested in it, and what comes after.
proof fn devices_in_around(nodes: Seq<NodeView>, i: int)
    requires
        0 <= i < nodes.len(),
    ensures
        devices_in(nodes) == devices_in(nodes.take(i)) + devices_at(nodes[i]) + devices_in(
            nodes.skip(i + 1),
        ),
        devices_in(nodes.take(i)).len() == device_count(nodes.take(i)),
        devices_at(nodes[i]).len() == device_count_at(nodes[i]),
        device_count(nodes.take(i + 1)) == device_count(nodes.take(i)) + device_count_at(nodes[i]),
{
    devices_in_splits(nodes, i + 1);
    let upto = nodes.take(i + 1);
    assert(upto.drop_last() =~= nodes.take(i));
    devices_in_counts_every_device(nodes.take(i));
    devices_at_counts_every_device(nodes[i]);
}

/// Completeness: a component that holds a storage device is listed,
/// whatever its depth, at the position that its place in the tree gives.
pub proof fn every_device_is_listed(nodes: Seq<NodeView>, path: Seq<int>)
    requires
        reachable(nodes, path),
        node_at(nodes, path).device is Some,
    ensures
        device_rank(nodes, path) < devices_in(nodes).len(),
        devices_in(nodes)[device_rank(nodes, path) as int] == node_at(nodes, path),
    decreases path.len(),
{
    let i = path[0];
    let first = nodes[i];
    devices_in_around(nodes, i);
    if path.len() > 1 {
        every_device_is_listed(first.kids(), path.drop_first());
    }
}

/// Nothing else is listed: every entry holds a storage device.
pub proof fn only_devices_are_listed(nodes: Seq<NodeView>, i: int)
    requires
        0 <= i < devices_in(nodes).len(),
    ensures
        devices_in(nodes)[i].device is Some,
    decreases nodes,
{
    if nodes.len() > 0 {
        let front = devices_in(nodes.drop_last());
        let last = nodes.last();
        let own = if last.device is Some {
            seq![last]
        } else {
            Seq::<NodeView>::empty()
        };
        let nested = match last.children {
            Some(children) => devices_in(children),
            None => Seq::<NodeView>::empty(),
        };
        assert(devices_at(last) == own + nested);
        if i < front.len() {
            only_devices_are_listed(nodes.drop_last(), i);
        } else if i - front.len() >= own.len() {
            if let Some(children) = last.children {
                only_devices_are_listed(children, i - front.len() - own.len());
            }
        }
    }
}

/// No component is listed twice: two different places in the tree that each
/// hold a device are listed at different positions.
pub proof fn listed_positions_differ(nodes: Seq<NodeView>, path_a: Seq<int>, path_b: Seq<int>)
    requires
        reachable(nodes, path_a),
        reachable(nodes, path_b),
        node_at(nodes, path_a).device is Some,
        node_at(nodes, path_b).device is Some,
        path_a != path_b,
    ensures
        device_rank(nodes, path_a) != device_rank(nodes, path_b),
    decreases path_a.len(),
{
    let a = path_a[0];
    let b = path_b[0];
    rank_stays_in_subtree(nodes, path_a);
    rank_stays_in_subtree(nodes, path_b);
    if a < b {
        device_count_grows(nodes, a + 1, b);
    } else if b < a {
        device_count_grows(nodes, b + 1, a);
    } else if path_a.len() > 1 && path_b.len() > 1 {
        if path_a.drop_first() == path_b.drop_first() {
            assert(path_a =~= seq![a] + path_a.drop_first());
            assert(path_b =~= seq![b] + path_b.drop_first());
        }
        listed_positions_differ(nodes[a].kids(), path_a.drop_first(), path_b.drop_first());
    } else if path_a.len() == 1 && path_b.len() == 1 {
        assert(path_a =~= path_b);
    }
}

/// The position of a component lies within the stretch of positions that
/// belongs to the top-level member through which it is reached, and, for a
/// nested component, behind that member's own entry.
proof fn rank_stays_in_subtree(nodes: Seq<NodeView>, path: Seq<int>)
    requires
        reachable(nodes, path),
        node_at(nodes, path).device is Some,
    ensures
        device_count(nodes.take(path[0])) <= device_rank(nodes, path) < device_count(
            nodes.take(path[0] + 1),
        ),
        path.len() > 1 ==> device_count(nodes.take(path[0])) + own_device(nodes[path[0]])
            <= device_rank(nodes, path),
        path.len() == 1 ==> device_rank(nodes, path) == device_count(nodes.take(path[0]))
            && own_device(nodes[path[0]]) == 1,
    decreases path.len(),
{
    let i = path[0];
    let upto = nodes.take(i + 1);
    assert(upto.drop_last() =~= nodes.take(i));
    assert(device_count(upto) == device_count(nodes.take(i)) + device_count_at(nodes[i]));
    if path.len() > 1 {
        let children = nodes[i].kids();
        let rest = path.drop_first();
        assert(reachable(children, rest));
        rank_stays_in_subtree(children, rest);
        device_count_grows(children, rest[0] + 1, children.len() as int);
        assert(children.take(children.len() as int) =~= children);
    }
}

/// A longer front part of a list holds at least as many devices.
proof fn device_count_grows(nodes: Seq<NodeView>, i: int, j: int)
    requires
        0 <= i <= j <= nodes.len(),
    ensures
        device_count(nodes.take(i)) <= device_count(nodes.take(j)),
    decreases j - i,
{
    if i < j {
        device_count_grows(nodes, i, j - 1);
        assert(nodes.take(j).drop_last() =~= nodes.take(j - 1));
    }
}

/// In a list of components that nest nothing, the listed components are the
/// members that hold a device, each as it is, in the order of the list.
pub proof fn flat_list_is_filtered(nodes: Seq<NodeView>)
    requires
        forall|i: int| 0 <= i < nodes.len() ==> (#[trigger] nodes[i]).kids().len() == 0,
    ensures
        devices_in(nodes) == nodes.filter(|n: NodeView| n.device is Some),
    decreases nodes.len(),
{
    reveal(Seq::filter);
    if nodes.len() > 0 {
        let last = nodes.last();
        flat_list_is_filtered(nodes.drop_last());
        assert(devices_at(last) =~= if last.device is Some {
            seq![last]
        } else {
            Seq::<NodeView>::empty()
        });
    }
}

} // verus!
