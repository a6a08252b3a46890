//! The graph as a list of drawing statements.
//!
//! Systems become clusters, nested as their parent links say; subsystems
//! become nodes inside the cluster of their parent; dependencies become edges.
//! Edges are listed after everything else, at the outermost scope, because an
//! edge declared inside a cluster cannot leave it.

use crate::subsystem_mapping::links::lemma_missing_target_stays_unresolved;
use crate::subsystem_mapping::links::linked;
use crate::subsystem_mapping::links::subsystem_ids;
use crate::subsystem_mapping::models_of;
use crate::subsystem_mapping::references::ReferenceByIndex;
use crate::subsystem_mapping::references::ReferenceModel;
use crate::subsystem_mapping::DependencyModel;
use crate::subsystem_mapping::Graph;
use crate::subsystem_mapping::GraphModel;
use crate::subsystem_mapping::SubsystemModel;
use crate::subsystem_mapping::System;
use vstd::prelude::*;
use vstd::set_lib::lemma_int_range;
use vstd::set_lib::lemma_len_subset;
use vstd::set_lib::set_int_range;
use vstd::string::*;

verus! {

/// One line of a drawing.
#[derive(Debug)]
pub enum DotStatement {
    /// Opens the cluster of a system.
    BeginCluster { indent: String, id: String, name: String },
    /// Closes the cluster opened last.
    EndCluster { indent: String },
    /// Draws a subsystem.
    Node { indent: String, id: String, name: String },
    /// Draws a dependency from the subsystem `id_a` to the subsystem `id_b`.
    Edge { indent: String, id_a: String, id_b: String },
}

/// What a [`DotStatement`] says.
pub enum DotModel {
    BeginCluster { indent: Seq<char>, id: Seq<char>, name: Seq<char> },
    EndCluster { indent: Seq<char> },
    Node { indent: Seq<char>, id: Seq<char>, name: Seq<char> },
    Edge { indent: Seq<char>, id_a: Seq<char>, id_b: Seq<char> },
}

impl View for DotStatement {
    type V = DotModel;

    open spec fn view(&self) -> DotModel {
        match *self {
            DotStatement::BeginCluster { indent, id, name } => DotModel::BeginCluster {
                indent: indent@,
                id: id@,
                name: name@,
            },
            DotStatement::EndCluster { indent } => DotModel::EndCluster { indent: indent@ },
            DotStatement::Node { indent, id, name } => DotModel::Node {
                indent: indent@,
                id: id@,
                name: name@,
            },
            DotStatement::Edge { indent, id_a, id_b } => DotModel::Edge {
                indent: indent@,
                id_a: id_a@,
                id_b: id_b@,
            },
        }
    }
}

/// One step of indentation.
pub open spec fn indent_step() -> Seq<char> {
    seq![' ', ' ']
}

/// The position that a parent link points to; a missing or unresolved link
/// points nowhere, which is the outermost scope.
pub open spec fn position(link: Option<ReferenceModel>) -> Option<usize> {
    match link {
        Some(reference) => reference.index,
        None => None,
    }
}

/// The node of `subsystem`, if `subsystem` sits directly in the scope `parent`.
pub open spec fn node_in(subsystem: SubsystemModel, parent: Option<usize>, indent: Seq<char>) -> Option<
    DotModel,
> {
    if position(subsystem.parent_system) == parent {
        Some(DotModel::Node { indent, id: subsystem.id, name: subsystem.name })
    } else {
        None
    }
}

/// The nodes of the subsystems that sit directly in the scope `parent`.
pub open spec fn nodes(graph: GraphModel, parent: Option<usize>, indent: Seq<char>) -> Seq<DotModel> {
    graph.subsystems.filter_map(|s: SubsystemModel| node_in(s, parent, indent))
}

/// The clusters of those among the first `upto` systems that sit directly in
/// the scope `parent`, each with all that it holds. `depth` bounds how many
/// clusters may be nested inside these; a walk from the outermost scope with
/// a bound of the number of systems is never cut short, because a chain of
/// systems nested in one another names no system twice.
pub open spec fn clusters(
    graph: GraphModel,
    parent: Option<usize>,
    indent: Seq<char>,
    upto: nat,
    depth: nat,
) -> Seq<DotModel>
    decreases depth, upto,
{
    if upto == 0 {
        Seq::empty()
    } else {
        let before = clusters(graph, parent, indent, (upto - 1) as nat, depth);
        let index = (upto - 1) as usize;
        let system = graph.systems[upto - 1];
        if depth > 0 && position(system.parent_system) == parent {
            before + seq![DotModel::BeginCluster { indent, id: system.id, name: system.name }]
                + scope(graph, Some(index), indent + indent_step(), (depth - 1) as nat)
                + seq![DotModel::EndCluster { indent }]
        } else {
            before
        }
    }
}

/// Everything that sits in the scope `parent`: first the clusters of its
/// systems, in order, then the nodes of its subsystems, in order.
pub open spec fn scope(graph: GraphModel, parent: Option<usize>, indent: Seq<char>, depth: nat) -> Seq<
    DotModel,
>
    decreases depth, graph.systems.len() + 1,
{
    clusters(graph, parent, indent, graph.systems.len(), depth) + nodes(graph, parent, indent)
}

/// The edge that `dependency` of the subsystem `from` draws: one to the
/// target, where the dependency is resolved to a subsystem of the graph.
pub open spec fn edge_of(
    graph: GraphModel,
    from: SubsystemModel,
    dependency: DependencyModel,
    indent: Seq<char>,
) -> Option<DotModel> {
    match dependency.subsystem.index {
        Some(target) => if target < graph.subsystems.len() {
            Some(DotModel::Edge { indent, id_a: from.id, id_b: graph.subsystems[target as int].id })
        } else {
            None
        },
        None => None,
    }
}

/// The edges that leave the subsystem `from`, in the order of its dependencies.
pub open spec fn edges_from(graph: GraphModel, from: SubsystemModel, indent: Seq<char>) -> Seq<
    DotModel,
> {
    from.dependencies.filter_map(|d: DependencyModel| edge_of(graph, from, d, indent))
}

/// All edges of the graph, subsystem after subsystem.
pub open spec fn edges(graph: GraphModel, indent: Seq<char>) -> Seq<DotModel> {
    graph.subsystems.map_values(|s: SubsystemModel| edges_from(graph, s, indent)).flatten()
}

/// The whole drawing: the outermost scope, then all edges.
pub open spec fn drawing(graph: GraphModel) -> Seq<DotModel> {
    scope(graph, None, indent_step(), graph.systems.len()) + edges(graph, indent_step())
}

/// `path` lists systems nested in one another, from one in the outermost
/// scope down to the one that makes the scope `parent`.
pub open spec fn is_nesting(graph: GraphModel, path: Seq<int>, parent: Option<usize>) -> bool {
    &&& forall|k: int| 0 <= k < path.len() ==> 0 <= #[trigger] path[k] < graph.systems.len()
    &&& forall|k: int|
        0 <= k < path.len() ==> position(graph.systems[#[trigger] path[k]].parent_system) == if k
            == 0 {
            None
        } else {
            Some(path[k - 1] as usize)
        }
    &&& parent == if path.len() == 0 {
        None
    } else {
        Some(path.last() as usize)
    }
}

/// Two places of a nesting never hold the same system: going up from both,
/// one would reach the outermost scope where the other still has a parent.
proof fn lemma_nesting_places_differ(graph: GraphModel, path: Seq<int>, parent: Option<usize>, i: int, j: int)
    requires
        graph.systems.len() <= usize::MAX,
        is_nesting(graph, path, parent),
        0 <= i < j < path.len(),
    ensures
        path[i] != path[j],
    decreases i,
{
    if path[i] == path[j] {
        if i > 0 {
            assert(Some(path[i - 1] as usize) == Some(path[j - 1] as usize));
            lemma_nesting_places_differ(graph, path, parent, i - 1, j - 1);
        }
    }
}

/// A nesting is no longer than the number of systems.
proof fn lemma_nesting_is_short(graph: GraphModel, path: Seq<int>, parent: Option<usize>)
    requires
        graph.systems.len() <= usize::MAX,
        is_nesting(graph, path, parent),
    ensures
        path.len() <= graph.systems.len(),
{
    assert forall|i: int, j: int| 0 <= i < path.len() && 0 <= j < path.len() && i != j implies path[i]
        != path[j] by {
        if i < j {
            lemma_nesting_places_differ(graph, path, parent, i, j);
        } else {
            lemma_nesting_places_differ(graph, path, parent, j, i);
        }
    }
    assert(path.no_duplicates());
    path.unique_seq_to_set();
    let all = set_int_range(0, graph.systems.len() as int);
    lemma_int_range(0, graph.systems.len() as int);
    assert forall|x: int| path.to_set().contains(x) implies all.contains(x) by {
        let k = choose|k: int| 0 <= k < path.len() && path[k] == x;
        assert(0 <= path[k] < graph.systems.len());
    }
    lemma_len_subset(path.to_set(), all);
}

/// Below a nesting of `path.len()` systems, a bound of the number of systems
/// left is as good as any larger one, for the first `upto` clusters of a scope.
proof fn lemma_clusters_bound_suffices(
    graph: GraphModel,
    path: Seq<int>,
    parent: Option<usize>,
    indent: Seq<char>,
    upto: nat,
    depth: nat,
    more: nat,
)
    requires
        graph.systems.len() <= usize::MAX,
        is_nesting(graph, path, parent),
        upto <= graph.systems.len(),
        depth + path.len() >= graph.systems.len(),
        more >= depth,
    ensures
        clusters(graph, parent, indent, upto, depth) == clusters(graph, parent, indent, upto, more),
    decreases graph.systems.len() - path.len(), upto,
{
    lemma_nesting_is_short(graph, path, parent);
    if upto > 0 {
        lemma_clusters_bound_suffices(graph, path, parent, indent, (upto - 1) as nat, depth, more);
        let index = upto - 1;
        let system = graph.systems[index];
        if position(system.parent_system) == parent {
            let deeper = path.push(index);
            assert(is_nesting(graph, deeper, Some(index as usize))) by {
                assert forall|k: int| 0 <= k < deeper.len() implies position(
                    graph.systems[#[trigger] deeper[k]].parent_system,
                ) == if k == 0 {
                    None
                } else {
                    Some(deeper[k - 1] as usize)
                } by {
                    if k < path.len() {
                        assert(deeper[k] == path[k]);
                    }
                }
            }
            lemma_nesting_is_short(graph, deeper, Some(index as usize));
            lemma_scope_bound_suffices(
                graph,
                deeper,
                Some(index as usize),
                indent + indent_step(),
                (depth - 1) as nat,
                (more - 1) as nat,
            );
        }
    }
}

/// Below a nesting of `path.len()` systems, a bound of the number of systems
/// left is as good as any larger one.
proof fn lemma_scope_bound_suffices(
    graph: GraphModel,
    path: Seq<int>,
    parent: Option<usize>,
    indent: Seq<char>,
    depth: nat,
    more: nat,
)
    requires
        graph.systems.len() <= usize::MAX,
        is_nesting(graph, path, parent),
        depth + path.len() >= graph.systems.len(),
        more >= depth,
    ensures
        scope(graph, parent, indent, depth) == scope(graph, parent, indent, more),
    decreases graph.systems.len() - path.len(), graph.systems.len() + 1,
{
    lemma_nesting_is_short(graph, path, parent);
    lemma_clusters_bound_suffices(graph, path, parent, indent, graph.systems.len(), depth, more);
}

/// The walk is never cut short: from the outermost scope, a bound of the
/// number of systems draws what any larger bound draws. Systems nested in
/// one another are all different, so no nesting is deeper than that.
pub proof fn lemma_walk_is_never_cut_short(graph: GraphModel, indent: Seq<char>, more: nat)
    requires
        graph.systems.len() <= usize::MAX,
        more >= graph.systems.len(),
    ensures
        scope(graph, None, indent, more) == scope(graph, None, indent, graph.systems.len()),
{
    lemma_scope_bound_suffices(graph, Seq::empty(), None, indent, graph.systems.len(), more);
}

/// A dependency without a position draws no edge, whatever else the graph holds.
pub proof fn lemma_unresolved_dependency_draws_no_edge(
    graph: GraphModel,
    from: SubsystemModel,
    dependency: DependencyModel,
    indent: Seq<char>,
)
    requires
        dependency.subsystem.index is None,
    ensures
        edge_of(graph, from, dependency, indent) is None,
{
}

/// A dependency on a subsystem that does not exist survives linking as it
/// was written, without a position, and draws no edge: in the graph linked
/// from `merged`, the dependency at `d` of the subsystem at `s` keeps its
/// identifier and its reason, has no position, and gives no edge.
pub proof fn lemma_missing_dependency_round_trip(merged: GraphModel, s: int, d: int, indent: Seq<char>)
    requires
        merged.subsystems.len() <= usize::MAX,
        0 <= s < merged.subsystems.len(),
        0 <= d < merged.subsystems[s].dependencies.len(),
        forall|j: int|
            0 <= j < merged.subsystems.len() ==> (#[trigger] merged.subsystems[j]).id
                != merged.subsystems[s].dependencies[d].subsystem.id,
    ensures
        linked(merged).subsystems[s].dependencies[d].subsystem == (ReferenceModel {
            id: merged.subsystems[s].dependencies[d].subsystem.id,
            index: None,
        }),
        linked(merged).subsystems[s].dependencies[d].why == merged.subsystems[s].dependencies[d].why,
        edge_of(
            linked(merged),
            linked(merged).subsystems[s],
            linked(merged).subsystems[s].dependencies[d],
            indent,
        ) is None,
{
    let ids = subsystem_ids(merged.subsystems);
    let written = merged.subsystems[s].dependencies[d].subsystem;
    assert forall|j: int| 0 <= j < ids.len() implies ids[j] != written.id by {
        assert(ids[j] == merged.subsystems[j].id);
    }
    lemma_missing_target_stays_unresolved(ids, written);
}

/// The position that a parent link points to.
fn position_of_link(link: &Option<ReferenceByIndex<System>>) -> (at: Option<usize>)
    ensures
        at == position(crate::subsystem_mapping::model_of(*link)),
{
    match link {
        Some(reference) => reference.index(),
        None => None,
    }
}

/// Whether two positions are the same scope.
fn same_scope(a: Option<usize>, b: Option<usize>) -> (same: bool)
    ensures
        same == (a == b),
{
    match (a, b) {
        (Some(x), Some(y)) => x == y,
        (None, None) => true,
        _ => false,
    }
}

impl Graph {
    /// Appends the statements of the scope `current_parent_index` to
    /// `statements`: clusters first, each followed by what it holds, then nodes.
    ///
    /// `depth` bounds how many clusters may be nested inside the scope; the
    /// systems of a scope are left out where it is nought. From the outermost
    /// scope the number of systems is bound enough.
    pub fn output_system(
        &self,
        statements: &mut Vec<DotStatement>,
        current_parent_index: Option<usize>,
        indent: &str,
        depth: usize,
    )
        ensures
            models_of(final(statements)@) == models_of(old(statements)@) + scope(
                self@,
                current_parent_index,
                indent@,
                depth as nat,
            ),
        decreases depth,
    {
        let ghost start = models_of(statements@);
        let ghost graph = self@;
        let mut index: usize = 0;
        while index < self.systems.len()
            invariant
                index <= self.systems.len(),
                graph == self@,
                models_of(statements@) == start + clusters(
                    graph,
                    current_parent_index,
                    indent@,
                    index as nat,
                    depth as nat,
                ),
            decreases self.systems.len() - index,
        {
            let system = &self.systems[index];
            assert(graph.systems[index as int] == system@);
            let parent_system_index = position_of_link(&system.parent_system);
            if depth > 0 && same_scope(parent_system_index, current_parent_index) {
                let ghost before = models_of(statements@);
                statements.push(
                    DotStatement::BeginCluster {
                        indent: indent.to_owned(),
                        id: system.id.clone(),
                        name: system.name.clone(),
                    },
                );
                let ghost opened = models_of(statements@);
                assert(opened =~= before + seq![
                    DotModel::BeginCluster { indent: indent@, id: system@.id, name: system@.name },
                ]);
                let mut inner = indent.to_owned();
                inner.append("  ");
                proof {
                    reveal_strlit("  ");
                    assert(inner@ =~= indent@ + indent_step());
                }
                self.output_system(statements, Some(index), inner.as_str(), depth - 1);
                let ghost filled = models_of(statements@);
                statements.push(DotStatement::EndCluster { indent: indent.to_owned() });
                assert(models_of(statements@) =~= filled + seq![
                    DotModel::EndCluster { indent: indent@ },
                ]);
            }
            index += 1;
        }
        let ghost clustered = models_of(statements@);
        let mut k: usize = 0;
        while k < self.subsystems.len()
            invariant
                k <= self.subsystems.len(),
                graph == self@,
                models_of(statements@) == clustered + graph.subsystems.take(k as int).filter_map(
                    |s: SubsystemModel| node_in(s, current_parent_index, indent@),
                ),
            decreases self.subsystems.len() - k,
        {
            let subsystem = &self.subsystems[k];
            assert(graph.subsystems[k as int] == subsystem@);
            proof {
                graph.subsystems.lemma_filter_map_take_succ(
                    |s: SubsystemModel| node_in(s, current_parent_index, indent@),
                    k as int,
                );
            }
            let parent_system_index = position_of_link(&subsystem.parent_system);
            let ghost before = models_of(statements@);
            if same_scope(parent_system_index, current_parent_index) {
                statements.push(
                    DotStatement::Node {
                        indent: indent.to_owned(),
                        id: subsystem.id.clone(),
                        name: subsystem.name.clone(),
                    },
                );
                assert(models_of(statements@) =~= before + seq![
                    DotModel::Node { indent: indent@, id: subsystem@.id, name: subsystem@.name },
                ]);
                assert(node_in(subsystem@, current_parent_index, indent@) == Some(
                    DotModel::Node { indent: indent@, id: subsystem@.id, name: subsystem@.name },
                ));
            } else {
                assert(node_in(subsystem@, current_parent_index, indent@) is None);
            }
            k += 1;
            assert(models_of(statements@) =~= clustered + graph.subsystems.take(k as int).filter_map(
                |s: SubsystemModel| node_in(s, current_parent_index, indent@),
            ));
        }
        assert(graph.subsystems.take(k as int) =~= graph.subsystems);
    }

    /// Appends one edge for every dependency that is resolved to a subsystem
    /// of the graph. Dependencies without a target draw nothing.
    pub fn output_subsystems_dependencies(&self, statements: &mut Vec<DotStatement>, indent: &str)
        ensures
            models_of(final(statements)@) == models_of(old(statements)@) + edges(self@, indent@),
    {
        let ghost start = models_of(statements@);
        let ghost graph = self@;
        let ghost per_subsystem = |s: SubsystemModel| edges_from(graph, s, indent@);
        let mut a: usize = 0;
        while a < self.subsystems.len()
            invariant
                a <= self.subsystems.len(),
                graph == self@,
                per_subsystem == |s: SubsystemModel| edges_from(graph, s, indent@),
                models_of(statements@) == start + graph.subsystems.take(a as int).map_values(
                    per_subsystem,
                ).flatten(),
            decreases self.subsystems.len() - a,
        {
            let subsystem_a = &self.subsystems[a];
            let ghost from = subsystem_a@;
            assert(graph.subsystems[a as int] == from);
            let ghost done = models_of(statements@);
            let mut d: usize = 0;
            while d < subsystem_a.dependencies.len()
                invariant
                    d <= subsystem_a.dependencies.len(),
                    graph == self@,
                    from == subsystem_a@,
                    a < self.subsystems.len(),
                    subsystem_a == &self.subsystems[a as int],
                    models_of(statements@) == done + from.dependencies.take(d as int).filter_map(
                        |x: DependencyModel| edge_of(graph, from, x, indent@),
                    ),
                decreases subsystem_a.dependencies.len() - d,
            {
                let dependency = &subsystem_a.dependencies[d];
                assert(from.dependencies[d as int] == dependency@);
                proof {
                    from.dependencies.lemma_filter_map_take_succ(
                        |x: DependencyModel| edge_of(graph, from, x, indent@),
                        d as int,
                    );
                }
                let ghost before = models_of(statements@);
                if let Some(target) = dependency.subsystem.index() {
                    if target < self.subsystems.len() {
                        let subsystem_b = &self.subsystems[target];
                        assert(graph.subsystems[target as int] == subsystem_b@);
                        statements.push(
                            DotStatement::Edge {
                                indent: indent.to_owned(),
                                id_a: subsystem_a.id.clone(),
                                id_b: subsystem_b.id.clone(),
                            },
                        );
                        assert(models_of(statements@) =~= before + seq![
                            DotModel::Edge { indent: indent@, id_a: from.id, id_b: subsystem_b@.id },
                        ]);
                    }
                }
                d += 1;
                assert(models_of(statements@) =~= done + from.dependencies.take(d as int).filter_map(
                    |x: DependencyModel| edge_of(graph, from, x, indent@),
                ));
            }
            proof {
                assert(from.dependencies.take(d as int) =~= from.dependencies);
                let prefix = graph.subsystems.take(a as int).map_values(per_subsystem);
                assert(graph.subsystems.take(a + 1).map_values(per_subsystem) =~= prefix.push(
                    per_subsystem(from),
                ));
                prefix.lemma_flatten_push(per_subsystem(from));
            }
            a += 1;
        }
        assert(graph.subsystems.take(a as int) =~= graph.subsystems);
    }

    /// The statements that draw the graph: clusters and nodes, nested as the
    /// parent links say, then the edges.
    pub fn dot_statements(&self) -> (statements: Vec<DotStatement>)
        ensures
            models_of(statements@) == drawing(self@),
    {
        let mut statements: Vec<DotStatement> = Vec::new();
        proof {
            reveal_strlit("  ");
            assert("  "@ =~= indent_step());
        }
        self.output_system(&mut statements, None, "  ", self.systems.len());
        self.output_subsystems_dependencies(&mut statements, "  ");
        statements
    }
}

} // verus!
