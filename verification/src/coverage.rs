//! What the walker covers: every source file of a tree is collected exactly
//! once, at a position that the place of its component in the tree fixes.

use vstd::prelude::*;
use crate::artifact::output_path;
use crate::blueprint::{Blueprint, NodeView};
use crate::config::{JobView, WatchState};
use crate::names::joined;
use crate::report::{finding_of, severity_of, Finding, Severity};
use crate::walker::{
    artifact_of, child_prefix, collect_node, collect_nodes, own_artifacts, qualified,
};
use crate::writer::{first_phase, Outcome, Phase};
use crate::yank::{plan_of, yank_of, yank_of_source, PlanView, Source, WriteView, YankError};

verus! {

/// The number of files on a component's own storage device.
pub open spec fn own_count(node: NodeView) -> nat {
    node.files().len()
}

/// The number of files held by a component and by all that is nested in it.
pub open spec fn file_count(node: NodeView) -> nat
    decreases node,
{
    own_count(node) + (match node.children {
        Some(children) => files_count(children),
        None => 0,
    })
}

/// The number of files held anywhere below a list of sibling components.
pub open spec fn files_count(nodes: Seq<NodeView>) -> nat
    decreases nodes,
{
    if nodes.len() == 0 {
        0
    } else {
        files_count(nodes.drop_last()) + file_count(nodes.last())
    }
}

/// Whether `path` leads from the sibling list `nodes` to a component: its
/// first index picks one of `nodes`, each further index one of the children
/// of the component picked before.
pub open spec fn reachable(nodes: Seq<NodeView>, path: Seq<int>) -> bool
    decreases path.len(),
{
    &&& path.len() >= 1
    &&& 0 <= path[0] < nodes.len()
    &&& (path.len() > 1 ==> reachable(nodes[path[0]].kids(), path.drop_first()))
}

/// The component to which `path` leads.
pub open spec fn node_at(nodes: Seq<NodeView>, path: Seq<int>) -> NodeView
    recommends
        reachable(nodes, path),
    decreases path.len(),
{
    if path.len() <= 1 {
        nodes[path[0]]
    } else {
        node_at(nodes[path[0]].kids(), path.drop_first())
    }
}

/// The prefix under which the component at `path` is qualified, where the
/// members of `nodes` are qualified under `prefix`.
pub open spec fn prefix_at(nodes: Seq<NodeView>, prefix: Seq<char>, path: Seq<int>) -> Seq<char>
    recommends
        reachable(nodes, path),
    decreases path.len(),
{
    if path.len() <= 1 {
        prefix
    } else {
        prefix_at(
            nodes[path[0]].kids(),
            child_prefix(prefix, nodes[path[0]]),
            path.drop_first(),
        )
    }
}

/// The number of artifacts that the traversal of `nodes` collects before it
/// reaches the component at `path`.
pub open spec fn offset_at(nodes: Seq<NodeView>, path: Seq<int>) -> nat
    recommends
        reachable(nodes, path),
    decreases path.len(),
{
    if path.len() <= 1 {
        files_count(nodes.take(path[0]))
    } else {
        files_count(nodes.take(path[0])) + own_count(nodes[path[0]]) + offset_at(
            nodes[path[0]].kids(),
            path.drop_first(),
        )
    }
}

/// The traversal of a component collects as many artifacts as the component
/// and all that is nested in it hold files.
pub proof fn collect_node_counts_every_file(node: NodeView, prefix: Seq<char>)
    ensures
        collect_node(node, prefix).len() == file_count(node),
    decreases node,
{
    if let Some(children) = node.children {
        collect_nodes_counts_every_file(children, child_prefix(prefix, node));
    }
}

/// The traversal of a list of components collects as many artifacts as there
/// are files anywhere below the list.
pub proof fn collect_nodes_counts_every_file(nodes: Seq<NodeView>, prefix: Seq<char>)
    ensures
        collect_nodes(nodes, prefix).len() == files_count(nodes),
    decreases nodes,
{
    if nodes.len() > 0 {
        collect_nodes_counts_every_file(nodes.drop_last(), prefix);
        collect_node_counts_every_file(nodes.last(), prefix);
    }
}

/// The traversal of a list is the traversal of any front part of it followed
/// by the traversal of the rest.
pub proof fn collect_nodes_splits(nodes: Seq<NodeView>, prefix: Seq<char>, i: int)
    requires
        0 <= i <= nodes.len(),
    ensures
        collect_nodes(nodes, prefix) == collect_nodes(nodes.take(i), prefix) + collect_nodes(
            nodes.skip(i),
            prefix,
        ),
    decreases nodes.len(),
{
    if i == nodes.len() {
        assert(nodes.take(i) =~= nodes);
    } else {
        let front = nodes.drop_last();
        collect_nodes_splits(front, prefix, i);
        assert(front.take(i) =~= nodes.take(i));
        assert(front.skip(i) =~= nodes.skip(i).drop_last());
    }
}

/// The traversal of a list around its member `i`: what comes before it, the
/// member's own artifacts, those nested in it, and what comes after.
proof fn collect_nodes_around(nodes: Seq<NodeView>, prefix: Seq<char>, i: int)
    requires
        0 <= i < nodes.len(),
    ensures
        collect_nodes(nodes, prefix) == collect_nodes(nodes.take(i), prefix) + own_artifacts(
            nodes[i],
            prefix,
        ) + collect_nodes(nodes[i].kids(), child_prefix(prefix, nodes[i])) + collect_nodes(
            nodes.skip(i + 1),
            prefix,
        ),
        collect_nodes(nodes.take(i), prefix).len() == files_count(nodes.take(i)),
        own_artifacts(nodes[i], prefix).len() == own_count(nodes[i]),
        collect_nodes(nodes[i].kids(), child_prefix(prefix, nodes[i])).len() == files_count(
            nodes[i].kids(),
        ),
{
    collect_nodes_splits(nodes, prefix, i + 1);
    let upto = nodes.take(i + 1);
    assert(upto.drop_last() =~= nodes.take(i));
    assert(collect_nodes(upto, prefix) == collect_nodes(nodes.take(i), prefix) + collect_node(
        nodes[i],
        prefix,
    ));
    collect_nodes_counts_every_file(nodes.take(i), prefix);
    collect_nodes_counts_every_file(nodes[i].kids(), child_prefix(prefix, nodes[i]));
}

/// Completeness: whatever the depth of a component, each file of its storage
/// device is collected, at the position that the component's place in the
/// tree and the file's place on the device give, tagged with the component's
/// display name and ancestor-qualified path.
pub proof fn every_file_is_collected(
    nodes: Seq<NodeView>,
    prefix: Seq<char>,
    path: Seq<int>,
    k: int,
)
    requires
        reachable(nodes, path),
        0 <= k < own_count(node_at(nodes, path)),
    ensures
        offset_at(nodes, path) + k < collect_nodes(nodes, prefix).len(),
        collect_nodes(nodes, prefix)[offset_at(nodes, path) + k] == artifact_of(
            node_at(nodes, path),
            prefix_at(nodes, prefix, path),
            k,
        ),
    decreases path.len(),
{
    let i = path[0];
    collect_nodes_around(nodes, prefix, i);
    if path.len() > 1 {
        every_file_is_collected(
            nodes[i].kids(),
            child_prefix(prefix, nodes[i]),
            path.drop_first(),
            k,
        );
    }
}

/// Every file is planned: the plan of a tree holds, for each file of each
/// component at any depth, the write of the file's content to the file's
/// output path, at the position that the file is collected at.
pub proof fn every_file_is_planned(
    roots: Seq<NodeView>,
    root: Option<Seq<char>>,
    collate: bool,
    path: Seq<int>,
    k: int,
)
    requires
        reachable(roots, path),
        0 <= k < own_count(node_at(roots, path)),
    ensures
        plan_of(roots, root, collate).writes.len() == files_count(roots),
        offset_at(roots, path) + k < files_count(roots),
        plan_of(roots, root, collate).writes[offset_at(roots, path) + k] == (WriteView {
            path: output_path(
                artifact_of(node_at(roots, path), prefix_at(roots, Seq::empty(), path), k),
                collate,
            ),
            content: node_at(roots, path).files()[k].content,
        }),
{
    every_file_is_collected(roots, Seq::empty(), path, k);
    collect_nodes_counts_every_file(roots, Seq::empty());
}

/// The display names of the components along `path`, outermost first.
pub open spec fn names_along(nodes: Seq<NodeView>, path: Seq<int>) -> Seq<Seq<char>>
    recommends
        reachable(nodes, path),
    decreases path.len(),
{
    if path.len() <= 1 {
        seq![nodes[path[0]].name()]
    } else {
        seq![nodes[path[0]].name()] + names_along(nodes[path[0]].kids(), path.drop_first())
    }
}

/// Joining a list with a text in front of it puts the text and a separator
/// before the joined list.
proof fn joined_with_front(first: Seq<char>, rest: Seq<Seq<char>>, sep: Seq<char>)
    requires
        rest.len() >= 1,
    ensures
        joined(seq![first] + rest, sep) == first + sep + joined(rest, sep),
    decreases rest.len(),
{
    let all = seq![first] + rest;
    if rest.len() == 1 {
        assert(all.drop_last() =~= seq![first]);
        assert(joined(seq![first], sep) == first);
    } else {
        joined_with_front(first, rest.drop_last(), sep);
        assert(all.drop_last() =~= seq![first] + rest.drop_last());
    }
}

/// The ancestor-qualified path of a component is the display names of its
/// ancestors and its own, outermost first, with `/` between each two.
pub proof fn qualified_path_joins_names(nodes: Seq<NodeView>, prefix: Seq<char>, path: Seq<int>)
    requires
        reachable(nodes, path),
    ensures
        qualified(prefix_at(nodes, prefix, path), node_at(nodes, path)) == prefix + joined(
            names_along(nodes, path),
            seq!['/'],
        ),
    decreases path.len(),
{
    let first = nodes[path[0]];
    if path.len() > 1 {
        let rest = path.drop_first();
        qualified_path_joins_names(first.kids(), child_prefix(prefix, first), rest);
        names_along_is_not_empty(first.kids(), rest);
        joined_with_front(first.name(), names_along(first.kids(), rest), seq!['/']);
    }
}

proof fn names_along_is_not_empty(nodes: Seq<NodeView>, path: Seq<int>)
    ensures
        names_along(nodes, path).len() >= 1,
    decreases path.len(),
{
    if path.len() > 1 {
        names_along_is_not_empty(nodes[path[0]].kids(), path.drop_first());
    }
}

/// No position is used twice: the files of two different places in the tree,
/// or two different files of one device, are collected at different
/// positions. Together with the count of what is collected, each file gives
/// exactly one artifact.
pub proof fn collected_positions_differ(
    nodes: Seq<NodeView>,
    path_a: Seq<int>,
    k_a: int,
    path_b: Seq<int>,
    k_b: int,
)
    requires
        reachable(nodes, path_a),
        reachable(nodes, path_b),
        0 <= k_a < own_count(node_at(nodes, path_a)),
        0 <= k_b < own_count(node_at(nodes, path_b)),
        path_a != path_b || k_a != k_b,
    ensures
        offset_at(nodes, path_a) + k_a != offset_at(nodes, path_b) + k_b,
    decreases path_a.len(),
{
    let a = path_a[0];
    let b = path_b[0];
    position_stays_in_subtree(nodes, path_a, k_a);
    position_stays_in_subtree(nodes, path_b, k_b);
    if a < b {
        files_count_grows(nodes, a + 1, b);
    } else if b < a {
        files_count_grows(nodes, b + 1, a);
    } else if path_a.len() > 1 && path_b.len() > 1 {
        if path_a.drop_first() == path_b.drop_first() {
            assert(path_a =~= seq![a] + path_a.drop_first());
            assert(path_b =~= seq![b] + path_b.drop_first());
        }
        collected_positions_differ(
            nodes[a].kids(),
            path_a.drop_first(),
            k_a,
            path_b.drop_first(),
            k_b,
        );
    } else if path_a.len() == 1 && path_b.len() == 1 {
        assert(path_a =~= path_b);
    }
}

/// The position of a file lies within the stretch of positions that belongs
/// to the top-level member through which its component is reached, and, for
/// a nested component, behind that member's own files.
proof fn position_stays_in_subtree(nodes: Seq<NodeView>, path: Seq<int>, k: int)
    requires
        reachable(nodes, path),
        0 <= k < own_count(node_at(nodes, path)),
    ensures
        files_count(nodes.take(path[0])) <= offset_at(nodes, path) + k < files_count(
            nodes.take(path[0] + 1),
        ),
        path.len() > 1 ==> files_count(nodes.take(path[0])) + own_count(nodes[path[0]])
            <= offset_at(nodes, path) + k,
    decreases path.len(),
{
    let i = path[0];
    let upto = nodes.take(i + 1);
    assert(upto.drop_last() =~= nodes.take(i));
    assert(files_count(upto) == files_count(nodes.take(i)) + file_count(nodes[i]));
    if path.len() > 1 {
        let children = nodes[i].kids();
        let rest = path.drop_first();
        assert(reachable(children, rest));
        position_stays_in_subtree(children, rest, k);
        files_count_grows(children, rest[0] + 1, children.len() as int);
        assert(children.take(children.len() as int) =~= children);
    }
}

/// A longer front part of a list holds at least as many files.
proof fn files_count_grows(nodes: Seq<NodeView>, i: int, j: int)
    requires
        0 <= i <= j <= nodes.len(),
    ensures
        files_count(nodes.take(i)) <= files_count(nodes.take(j)),
    decreases j - i,
{
    if i < j {
        files_count_grows(nodes, i, j - 1);
        assert(nodes.take(j).drop_last() =~= nodes.take(j - 1));
    }
}

/// Whether no component of the list, nor any nested in one, holds a storage
/// device.
pub open spec fn without_devices(nodes: Seq<NodeView>) -> bool {
    forall|path: Seq<int>| reachable(nodes, path) ==> (#[trigger] node_at(nodes, path)).device is None
}

/// A tree without a storage device anywhere holds no file.
pub proof fn without_devices_holds_no_file(nodes: Seq<NodeView>)
    requires
        without_devices(nodes),
    ensures
        files_count(nodes) == 0,
    decreases nodes,
{
    if nodes.len() > 0 {
        let front = nodes.drop_last();
        let last = nodes.len() - 1;
        assert forall|path: Seq<int>| reachable(front, path) implies (#[trigger] node_at(
            front,
            path,
        )).device is None by {
            assert(node_at(nodes, path) == node_at(front, path));
        }
        without_devices_holds_no_file(front);
        if let Some(children) = nodes[last].children {
            assert forall|path: Seq<int>| reachable(children, path) implies (#[trigger] node_at(
                children,
                path,
            )).device is None by {
                let longer = seq![last] + path;
                assert(longer.drop_first() =~= path);
                assert(node_at(nodes, longer) == node_at(children, path));
            }
            without_devices_holds_no_file(children);
        }
        assert(node_at(nodes, seq![last]) == nodes[last]);
        assert(file_count(nodes[last]) == own_count(nodes[last]) + (match nodes[last].children {
            Some(children) => files_count(children),
            None => 0,
        }));
    }
}

/// Nothing to extract: a run ends at once with no artifacts, before any
/// directory is made, exactly where the tree holds no file; so it does for
/// every tree without a storage device.
pub proof fn no_file_is_no_artifacts(roots: Seq<NodeView>, root: Option<Seq<char>>, collate: bool)
    ensures
        first_phase(plan_of(roots, root, collate)) == Phase::Done(Outcome::NoArtifacts)
            <==> files_count(roots) == 0,
        without_devices(roots) ==> first_phase(plan_of(roots, root, collate)) == Phase::Done(
            Outcome::NoArtifacts,
        ),
{
    collect_nodes_counts_every_file(roots, Seq::empty());
    if without_devices(roots) {
        without_devices_holds_no_file(roots);
    }
}

/// The empty plan: no root, no write.
pub open spec fn empty_plan() -> PlanView {
    PlanView { root: None, writes: Seq::empty() }
}

/// A blueprint without a storage device anywhere has nothing to extract,
/// whatever the job and whatever its path: its plan is the empty plan, a
/// run of which ends at once with no artifacts, before anything is created.
/// That is no error in a single run and a warning in a watch.
pub proof fn empty_blueprint_is_no_artifacts(
    job: JobView,
    stem: Option<Seq<char>>,
    blueprint: Blueprint,
)
    requires
        without_devices(blueprint.roots()),
    ensures
        yank_of(job, stem, blueprint.roots()) == Ok::<PlanView, YankError>(empty_plan()),
        yank_of_source(job, stem, Source::Parsed(blueprint)) == Ok::<PlanView, YankError>(
            empty_plan(),
        ),
        first_phase(empty_plan()) == Phase::Done(Outcome::NoArtifacts),
        finding_of(Outcome::NoArtifacts) == Finding::NoArtifacts,
        severity_of(WatchState::Disabled, Finding::NoArtifacts) == Severity::Success,
        severity_of(WatchState::Watching, Finding::NoArtifacts) == Severity::Warning,
{
    let roots = blueprint.roots();
    without_devices_holds_no_file(roots);
    collect_nodes_counts_every_file(roots, Seq::empty());
    assert(plan_of(roots, None, job.collate).writes =~= Seq::<WriteView>::empty());
}

} // verus!
