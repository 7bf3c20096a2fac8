//! The tree walker: a depth-first traversal that collects every source file
//! of a blueprint, whatever the depth of the component that holds it.

use vstd::prelude::*;
use crate::artifact::{ArtifactView, XcFileMeta};
use crate::blueprint::{node_views, Blueprint, Component, NodeView};

verus! {

/// The artifacts of a list, each by its view.
pub open spec fn artifact_views(items: Seq<XcFileMeta>) -> Seq<ArtifactView> {
    items.map_values(|m: XcFileMeta| m@)
}

/// The path of a component whose ancestry contributes `prefix`: the prefix
/// is empty for a top-level component and ends in `/` for a nested one.
pub open spec fn qualified(prefix: Seq<char>, node: NodeView) -> Seq<char> {
    prefix + node.name()
}

/// The prefix under which the children of a component are qualified.
pub open spec fn child_prefix(prefix: Seq<char>, node: NodeView) -> Seq<char> {
    qualified(prefix, node) + seq!['/']
}

/// The artifact that file `k` of a component's own storage device gives.
pub open spec fn artifact_of(node: NodeView, prefix: Seq<char>, k: int) -> ArtifactView
    recommends
        0 <= k < node.files().len(),
{
    ArtifactView { component: node.name(), path: qualified(prefix, node), file: node.files()[k] }
}

/// The artifacts of a component's own storage device, in the order in which
/// the device lists its files; none where the component has no device.
pub open spec fn own_artifacts(node: NodeView, prefix: Seq<char>) -> Seq<ArtifactView> {
    Seq::new(node.files().len(), |k: int| artifact_of(node, prefix, k))
}

/// Every artifact of a component and of all that is nested in it: its own
/// first, then those of its children in their order.
pub open spec fn collect_node(node: NodeView, prefix: Seq<char>) -> Seq<ArtifactView>
    decreases node,
{
    own_artifacts(node, prefix) + (match node.children {
        Some(children) => collect_nodes(children, child_prefix(prefix, node)),
        None => Seq::empty(),
    })
}

/// Every artifact of a list of sibling components, in their order.
pub open spec fn collect_nodes(nodes: Seq<NodeView>, prefix: Seq<char>) -> Seq<ArtifactView>
    decreases nodes,
{
    if nodes.len() == 0 {
        Seq::empty()
    } else {
        collect_nodes(nodes.drop_last(), prefix) + collect_node(nodes.last(), prefix)
    }
}

/// Appends to `out` every artifact of `component` and of all that is nested
/// in it.
pub fn collect_component(component: &Component, prefix: &str, out: &mut Vec<XcFileMeta>)
    ensures
        artifact_views(final(out)@) == artifact_views(old(out)@) + collect_node(
            component@,
            prefix@,
        ),
    decreases component,
{
    let ghost before = artifact_views(out@);
    let ghost node = component@;
    let name = component.name();
    let mut path = prefix.to_owned();
    path.append(name.as_str());
    if let Some(hdd) = &component.data.hdd {
        let mut k: usize = 0;
        while k < hdd.xc_files.len()
            invariant
                k <= hdd.xc_files.len(),
                component.data.hdd == Some(*hdd),
                node == component@,
                name@ == node.name(),
                path@ == qualified(prefix@, node),
                artifact_views(out@) == before + own_artifacts(node, prefix@).take(k as int),
            decreases hdd.xc_files.len() - k,
        {
            let ghost prior = artifact_views(out@);
            let item = XcFileMeta::nested(name.clone(), path.clone(), hdd.xc_files[k].clone());
            out.push(item);
            assert(artifact_views(out@) =~= prior.push(item@));
            k += 1;
        }
    }
    if let Some(children) = &component.data.components {
        proof {
            reveal_strlit("/");
        }
        path.append("/");
        assert(path@ =~= child_prefix(prefix@, node));
        assert(node.children->0 =~= node_views(children@));
        collect_components(children, path.as_str(), out);
    } else {
        assert(artifact_views(out@) =~= before + collect_node(node, prefix@));
    }
}

/// Appends to `out` every artifact of the sibling components `components`.
pub fn collect_components(components: &Vec<Component>, prefix: &str, out: &mut Vec<XcFileMeta>)
    ensures
        artifact_views(final(out)@) == artifact_views(old(out)@) + collect_nodes(
            node_views(components@),
            prefix@,
        ),
    decreases components,
{
    let ghost before = artifact_views(out@);
    let ghost nodes = node_views(components@);
    let mut i: usize = 0;
    while i < components.len()
        invariant
            i <= components.len(),
            nodes == node_views(components@),
            artifact_views(out@) == before + collect_nodes(nodes.take(i as int), prefix@),
        decreases components.len() - i,
    {
        collect_component(&components[i], prefix, out);
        assert(nodes.take(i as int + 1).drop_last() =~= nodes.take(i as int));
        i += 1;
    }
    assert(nodes.take(i as int) =~= nodes);
}

impl Component {
    /// The artifacts of the component's own storage device, taken as a
    /// top-level component; none where it has no device.
    pub fn xc_files(&self) -> (r: Vec<XcFileMeta>)
        ensures
            artifact_views(r@) == own_artifacts(self@, Seq::empty()),
    {
        let ghost node = self@;
        let ghost want = own_artifacts(node, Seq::empty());
        let mut r: Vec<XcFileMeta> = Vec::new();
        if let Some(hdd) = &self.data.hdd {
            let mut k: usize = 0;
            while k < hdd.xc_files.len()
                invariant
                    k <= hdd.xc_files.len(),
                    self.data.hdd == Some(*hdd),
                    node == self@,
                    want == own_artifacts(node, Seq::empty()),
                    artifact_views(r@) == want.take(k as int),
                decreases hdd.xc_files.len() - k,
            {
                let ghost prior = artifact_views(r@);
                let item = XcFileMeta::new(self.name(), hdd.xc_files[k].clone());
                r.push(item);
                assert(artifact_views(r@) =~= prior.push(item@));
                k += 1;
            }
        }
        r
    }
}

impl Blueprint {
    /// Every artifact of the blueprint, in traversal order: components in
    /// the order in which the blueprint lists them, each followed by what is
    /// nested in it.
    pub fn artifacts(&self) -> (r: Vec<XcFileMeta>)
        ensures
            artifact_views(r@) == collect_nodes(self.roots(), Seq::empty()),
    {
        let mut r: Vec<XcFileMeta> = Vec::new();
        proof {
            reveal_strlit("");
        }
        assert(""@ =~= Seq::<char>::empty());
        collect_components(&self.data.components, "", &mut r);
        r
    }
}

} // verus!
