//! From names to positions: resolving every link of a merged graph.
//!
//! Parent links look their target up among the systems, dependency links among
//! the subsystems. Where several entities share an identifier, the one merged
//! last is the one that links find; the others stay in the graph but cannot be
//! reached by that identifier. A link whose target does not exist stays
//! without a position: that is a valid outcome, not a failure.

use crate::error::CustomError;
use crate::subsystem_mapping::merge::is_first_failure;
use crate::subsystem_mapping::merge::merge_all_files;
use crate::subsystem_mapping::merge::merged;
use crate::subsystem_mapping::merge::records_of;
use crate::subsystem_mapping::models_of;
use crate::subsystem_mapping::references::lemma_position_of_resolves;
use crate::subsystem_mapping::references::lookup;
use crate::subsystem_mapping::references::position_of;
use crate::subsystem_mapping::references::resolves_to;
use crate::subsystem_mapping::references::IndexById;
use crate::subsystem_mapping::references::ReferenceByIndex;
use crate::subsystem_mapping::references::ReferenceModel;
use crate::subsystem_mapping::DependencyModel;
use crate::subsystem_mapping::Graph;
use crate::subsystem_mapping::GraphModel;
use crate::subsystem_mapping::Subsystem;
use crate::subsystem_mapping::SubsystemDependency;
use crate::subsystem_mapping::SubsystemFileSource;
use crate::subsystem_mapping::SubsystemModel;
use crate::subsystem_mapping::System;
use crate::subsystem_mapping::SystemModel;
use vstd::prelude::*;

verus! {

/// The identifiers of the systems, by position.
pub open spec fn system_ids(systems: Seq<SystemModel>) -> Seq<Seq<char>> {
    systems.map_values(|s: SystemModel| s.id)
}

/// The identifiers of the subsystems, by position.
pub open spec fn subsystem_ids(subsystems: Seq<SubsystemModel>) -> Seq<Seq<char>> {
    subsystems.map_values(|s: SubsystemModel| s.id)
}

/// `reference`, pointing at the last of `ids` that equals its identifier.
pub open spec fn resolved(ids: Seq<Seq<char>>, reference: ReferenceModel) -> ReferenceModel {
    ReferenceModel { id: reference.id, index: position_of(ids, reference.id) }
}

/// An optional link, resolved where there is one.
pub open spec fn resolved_link(ids: Seq<Seq<char>>, link: Option<ReferenceModel>) -> Option<
    ReferenceModel,
> {
    match link {
        Some(reference) => Some(resolved(ids, reference)),
        None => None,
    }
}

/// `dependency`, with its target looked up among `ids`.
pub open spec fn linked_dependency(ids: Seq<Seq<char>>, dependency: DependencyModel) -> DependencyModel {
    DependencyModel { subsystem: resolved(ids, dependency.subsystem), why: dependency.why }
}

/// `system`, with its parent looked up among `ids`.
pub open spec fn linked_system(ids: Seq<Seq<char>>, system: SystemModel) -> SystemModel {
    SystemModel { parent_system: resolved_link(ids, system.parent_system), ..system }
}

/// `subsystem`, with its parent looked up among `systems` and the targets
/// of its dependencies among `subsystems`.
pub open spec fn linked_subsystem(
    systems: Seq<Seq<char>>,
    subsystems: Seq<Seq<char>>,
    subsystem: SubsystemModel,
) -> SubsystemModel {
    SubsystemModel {
        parent_system: resolved_link(systems, subsystem.parent_system),
        dependencies: subsystem.dependencies.map_values(
            |d: DependencyModel| linked_dependency(subsystems, d),
        ),
        ..subsystem
    }
}

/// `graph` with every link resolved against the entities of `graph` itself.
pub open spec fn linked(graph: GraphModel) -> GraphModel {
    let systems = system_ids(graph.systems);
    let subsystems = subsystem_ids(graph.subsystems);
    GraphModel {
        systems: graph.systems.map_values(|s: SystemModel| linked_system(systems, s)),
        subsystems: graph.subsystems.map_values(
            |s: SubsystemModel| linked_subsystem(systems, subsystems, s),
        ),
    }
}

/// A link whose target does not exist stays unresolved, and keeps the
/// identifier it was written with.
pub proof fn lemma_missing_target_stays_unresolved(ids: Seq<Seq<char>>, reference: ReferenceModel)
    requires
        ids.len() <= usize::MAX,
        forall|j: int| 0 <= j < ids.len() ==> ids[j] != reference.id,
    ensures
        resolved(ids, reference) == (ReferenceModel { id: reference.id, index: None }),
{
    lemma_position_of_resolves(ids, reference.id);
    match position_of(ids, reference.id) {
        Some(i) => {
            assert(ids[i as int] == reference.id);
        },
        None => {},
    }
}

/// A link whose target exists points at the last entity that carries the
/// target's identifier, and keeps the identifier it was written with.
pub proof fn lemma_existing_target_is_found(ids: Seq<Seq<char>>, reference: ReferenceModel, at: int)
    requires
        ids.len() <= usize::MAX,
        0 <= at < ids.len(),
        ids[at] == reference.id,
    ensures
        resolved(ids, reference).id == reference.id,
        resolved(ids, reference).index is Some,
        at <= resolved(ids, reference).index->0 < ids.len(),
        ids[resolved(ids, reference).index->0 as int] == reference.id,
        resolves_to(ids, reference.id, resolved(ids, reference).index),
{
    lemma_position_of_resolves(ids, reference.id);
    match position_of(ids, reference.id) {
        Some(i) => {
            if i < at {
                assert(ids[at] != reference.id);
            }
        },
        None => {
            assert(ids[at] != reference.id);
        },
    }
}

/// Linking moves no entity and renames none: the linked graph has the
/// entities of the merged one, at the same positions and under the same
/// identifiers.
pub proof fn lemma_linking_keeps_entities(graph: GraphModel)
    ensures
        linked(graph).systems.len() == graph.systems.len(),
        linked(graph).subsystems.len() == graph.subsystems.len(),
        system_ids(linked(graph).systems) == system_ids(graph.systems),
        subsystem_ids(linked(graph).subsystems) == subsystem_ids(graph.subsystems),
        forall|i: int|
            0 <= i < graph.subsystems.len() ==> (#[trigger] linked(graph).subsystems[i]).dependencies.len()
                == graph.subsystems[i].dependencies.len(),
{
    assert(system_ids(linked(graph).systems) =~= system_ids(graph.systems));
    assert(subsystem_ids(linked(graph).subsystems) =~= subsystem_ids(graph.subsystems));
}

/// In a linked graph every link says where its target is: a parent link
/// points at the last system with its identifier, a dependency at the last
/// subsystem with its identifier, and a link without position has no target.
pub proof fn lemma_links_point_at_their_targets(graph: GraphModel)
    requires
        graph.systems.len() <= usize::MAX,
        graph.subsystems.len() <= usize::MAX,
    ensures
        forall|i: int|
            0 <= i < graph.systems.len() && (#[trigger] linked(graph).systems[i]).parent_system is Some
                ==> resolves_to(
                system_ids(graph.systems),
                linked(graph).systems[i].parent_system->0.id,
                linked(graph).systems[i].parent_system->0.index,
            ),
        forall|i: int|
            0 <= i < graph.subsystems.len() && (#[trigger] linked(
                graph,
            ).subsystems[i]).parent_system is Some ==> resolves_to(
                system_ids(graph.systems),
                linked(graph).subsystems[i].parent_system->0.id,
                linked(graph).subsystems[i].parent_system->0.index,
            ),
        forall|i: int, d: int|
            0 <= i < graph.subsystems.len() && 0 <= d < graph.subsystems[i].dependencies.len()
                ==> resolves_to(
                subsystem_ids(graph.subsystems),
                (#[trigger] linked(graph).subsystems[i].dependencies[d]).subsystem.id,
                linked(graph).subsystems[i].dependencies[d].subsystem.index,
            ),
{
    let systems = system_ids(graph.systems);
    let subsystems = subsystem_ids(graph.subsystems);
    assert forall|i: int|
        0 <= i < graph.systems.len() && (#[trigger] linked(graph).systems[i]).parent_system is Some implies resolves_to(
        systems,
        linked(graph).systems[i].parent_system->0.id,
        linked(graph).systems[i].parent_system->0.index,
    ) by {
        lemma_position_of_resolves(systems, graph.systems[i].parent_system->0.id);
    }
    assert forall|i: int|
        0 <= i < graph.subsystems.len() && (#[trigger] linked(graph).subsystems[i]).parent_system is Some implies resolves_to(
        systems,
        linked(graph).subsystems[i].parent_system->0.id,
        linked(graph).subsystems[i].parent_system->0.index,
    ) by {
        lemma_position_of_resolves(systems, graph.subsystems[i].parent_system->0.id);
    }
    assert forall|i: int, d: int|
        0 <= i < graph.subsystems.len() && 0 <= d < graph.subsystems[i].dependencies.len() implies resolves_to(
        subsystems,
        (#[trigger] linked(graph).subsystems[i].dependencies[d]).subsystem.id,
        linked(graph).subsystems[i].dependencies[d].subsystem.index,
    ) by {
        lemma_position_of_resolves(subsystems, graph.subsystems[i].dependencies[d].subsystem.id);
    }
}

/// An entity that links name by its identifier.
pub trait Identified {
    /// The identifier by which links name this entity.
    spec fn identifier(&self) -> Seq<char>;

    /// The identifier by which links name this entity.
    fn identifier_text(&self) -> (id: &String)
        ensures
            id@ == self.identifier(),
    ;
}

impl Identified for System {
    open spec fn identifier(&self) -> Seq<char> {
        self.id@
    }

    fn identifier_text(&self) -> (id: &String) {
        &self.id
    }
}

impl Identified for Subsystem {
    open spec fn identifier(&self) -> Seq<char> {
        self.id@
    }

    fn identifier_text(&self) -> (id: &String) {
        &self.id
    }
}

/// The identifiers of `entities`, by position.
pub open spec fn identifiers<E: Identified>(entities: Seq<E>) -> Seq<Seq<char>> {
    entities.map_values(|e: E| e.identifier())
}

/// Where each identifier stands last among `entities`.
pub fn index_by_id<E: Identified>(entities: &Vec<E>) -> (index: IndexById)
    ensures
        forall|id: Seq<char>|
            lookup(index@, id) == #[trigger] position_of(identifiers(entities@), id),
{
    let ghost ids = identifiers(entities@);
    let mut index = IndexById::new();
    let mut i: usize = 0;
    while i < entities.len()
        invariant
            i <= entities.len(),
            ids == identifiers(entities@),
            forall|id: Seq<char>| lookup(index@, id) == #[trigger] position_of(ids.take(i as int), id),
        decreases entities.len() - i,
    {
        let ghost known = index@;
        index.insert(entities[i].identifier_text().clone(), i);
        proof {
            let grown = ids.take(i + 1);
            assert(grown.drop_last() =~= ids.take(i as int));
            assert(grown.last() == entities@[i as int].identifier());
            assert forall|id: Seq<char>| lookup(index@, id) == #[trigger] position_of(grown, id) by {
                assert(lookup(known, id) == position_of(ids.take(i as int), id));
            }
        }
        i += 1;
    }
    assert(ids.take(i as int) =~= ids);
    index
}

/// Resolves a parent link, where there is one.
fn link_parent(
    parent: &mut Option<ReferenceByIndex<System>>,
    index: &IndexById,
    Ghost(ids): Ghost<Seq<Seq<char>>>,
)
    requires
        forall|id: Seq<char>| lookup(index@, id) == #[trigger] position_of(ids, id),
    ensures
        crate::subsystem_mapping::model_of(*final(parent)) == resolved_link(
            ids,
            crate::subsystem_mapping::model_of(*old(parent)),
        ),
{
    match parent {
        Some(reference) => {
            reference.find_index_in(index);
        },
        None => {},
    }
}

/// Resolves the target of every dependency.
fn link_dependencies(
    dependencies: &mut Vec<SubsystemDependency>,
    index: &IndexById,
    Ghost(ids): Ghost<Seq<Seq<char>>>,
)
    requires
        forall|id: Seq<char>| lookup(index@, id) == #[trigger] position_of(ids, id),
    ensures
        models_of(final(dependencies)@) == models_of(old(dependencies)@).map_values(
            |d: DependencyModel| linked_dependency(ids, d),
        ),
{
    let ghost before = models_of(dependencies@);
    let mut i: usize = 0;
    while i < dependencies.len()
        invariant
            i <= dependencies.len(),
            dependencies.len() == before.len(),
            forall|id: Seq<char>| lookup(index@, id) == #[trigger] position_of(ids, id),
            forall|k: int| 0 <= k < i ==> (#[trigger] dependencies@[k])@ == linked_dependency(ids, before[k]),
            forall|k: int| i <= k < before.len() ==> (#[trigger] dependencies@[k])@ == before[k],
        decreases dependencies.len() - i,
    {
        dependencies[i].subsystem.find_index_in(index);
        i += 1;
    }
    assert(models_of(dependencies@) =~= before.map_values(
        |d: DependencyModel| linked_dependency(ids, d),
    ));
}

/// Looks every link of the graph up among the graph's own entities.
///
/// Identifiers, names and the order of entities are left as they are; only
/// the positions that links carry change.
pub fn reconstruct_links(unlinked_graph: &mut Graph)
    ensures
        final(unlinked_graph)@ == linked(old(unlinked_graph)@),
{
    let ghost before = unlinked_graph@;
    let ghost system_names = system_ids(before.systems);
    let ghost subsystem_names = subsystem_ids(before.subsystems);
    let systems = index_by_id(&unlinked_graph.systems);
    let subsystems = index_by_id(&unlinked_graph.subsystems);
    assert(identifiers(unlinked_graph.systems@) =~= system_names);
    assert(identifiers(unlinked_graph.subsystems@) =~= subsystem_names);

    let mut i: usize = 0;
    while i < unlinked_graph.systems.len()
        invariant
            i <= unlinked_graph.systems.len(),
            unlinked_graph.systems.len() == before.systems.len(),
            unlinked_graph@.subsystems == before.subsystems,
            system_names == system_ids(before.systems),
            forall|id: Seq<char>| lookup(systems@, id) == #[trigger] position_of(system_names, id),
            forall|k: int| 0 <= k < i ==> (#[trigger] unlinked_graph.systems@[k])@ == linked_system(system_names, before.systems[k]),
            forall|k: int| i <= k < before.systems.len() ==> (#[trigger] unlinked_graph.systems@[k])@ == before.systems[k],
        decreases unlinked_graph.systems.len() - i,
    {
        link_parent(&mut unlinked_graph.systems[i].parent_system, &systems, Ghost(system_names));
        i += 1;
    }

    let mut j: usize = 0;
    while j < unlinked_graph.subsystems.len()
        invariant
            j <= unlinked_graph.subsystems.len(),
            unlinked_graph.subsystems.len() == before.subsystems.len(),
            unlinked_graph.systems.len() == before.systems.len(),
            system_names == system_ids(before.systems),
            subsystem_names == subsystem_ids(before.subsystems),
            forall|k: int| 0 <= k < before.systems.len() ==> (#[trigger] unlinked_graph.systems@[k])@ == linked_system(system_names, before.systems[k]),
            forall|id: Seq<char>| lookup(systems@, id) == #[trigger] position_of(system_names, id),
            forall|id: Seq<char>| lookup(subsystems@, id) == #[trigger] position_of(subsystem_names, id),
            forall|k: int| 0 <= k < j ==> (#[trigger] unlinked_graph.subsystems@[k])@ == linked_subsystem(system_names, subsystem_names, before.subsystems[k]),
            forall|k: int| j <= k < before.subsystems.len() ==> (#[trigger] unlinked_graph.subsystems@[k])@ == before.subsystems[k],
        decreases unlinked_graph.subsystems.len() - j,
    {
        link_parent(&mut unlinked_graph.subsystems[j].parent_system, &systems, Ghost(system_names));
        link_dependencies(&mut unlinked_graph.subsystems[j].dependencies, &subsystems, Ghost(subsystem_names));
        j += 1;
    }
    assert(unlinked_graph@.systems =~= linked(before).systems);
    assert(unlinked_graph@.subsystems =~= linked(before).subsystems);
}

/// Reconstruct the whole graph from the records: merge them, then resolve
/// every link.
///
/// Fails, with the error of the first record that could not be read, as soon
/// as one record could not be read; a graph is made only from a complete set.
pub fn source_to_graph(files: Vec<Result<SubsystemFileSource, CustomError>>) -> (result: Result<
    Graph,
    CustomError,
>)
    ensures
        match result {
            Ok(graph) => {
                &&& forall|i: int| 0 <= i < files@.len() ==> (#[trigger] files@[i]) is Ok
                &&& graph@ == linked(merged(records_of(files@)))
            },
            Err(e) => exists|at: int|
                is_first_failure(files@, at) && e@ == (#[trigger] files@[at])->Err_0@,
        },
{
    match merge_all_files(files) {
        Ok(graph) => {
            let mut graph = graph;
            reconstruct_links(&mut graph);
            Ok(graph)
        },
        Err(e) => Err(e),
    }
}

} // verus!
