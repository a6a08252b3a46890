//! From many source records to one graph whose links are still names.
//!
//! Records are merged in the order given. Entities are only ever appended, so
//! the position an entity gets when its record is merged is the position it
//! keeps.

use crate::error::CustomError;
use crate::subsystem_mapping::models_of;
use crate::subsystem_mapping::Graph;
use crate::subsystem_mapping::GraphModel;
use crate::subsystem_mapping::SubsystemFileSource;
use crate::subsystem_mapping::SubsystemModel;
use crate::subsystem_mapping::SystemModel;
use vstd::prelude::*;

verus! {

/// The systems that `files` declare, in order.
pub open spec fn merged_systems(files: Seq<SubsystemFileSource>) -> Seq<SystemModel> {
    files.filter_map(|f: SubsystemFileSource| f.system_model())
}

/// The subsystems that `files` declare, in order, each under the parent
/// that its own record gives it.
pub open spec fn merged_subsystems(files: Seq<SubsystemFileSource>) -> Seq<SubsystemModel> {
    files.map_values(|f: SubsystemFileSource| f.subsystem_models(f.local_parent())).flatten()
}

/// The graph that `files` declare, before any link is resolved.
pub open spec fn merged(files: Seq<SubsystemFileSource>) -> GraphModel {
    GraphModel { systems: merged_systems(files), subsystems: merged_subsystems(files) }
}

/// The system that one record adds: one or none.
pub open spec fn added_systems(file: SubsystemFileSource) -> Seq<SystemModel> {
    match file.system_model() {
        Some(system) => seq![system],
        None => Seq::empty(),
    }
}

/// The records read without failure, in order.
pub open spec fn records_of(files: Seq<Result<SubsystemFileSource, CustomError>>) -> Seq<
    SubsystemFileSource,
> {
    files.map_values(|r: Result<SubsystemFileSource, CustomError>| r->Ok_0)
}

/// `at` is the first place of `files` that holds a failure.
pub open spec fn is_first_failure(
    files: Seq<Result<SubsystemFileSource, CustomError>>,
    at: int,
) -> bool {
    &&& 0 <= at < files.len()
    &&& files[at] is Err
    &&& forall|j: int| 0 <= j < at ==> (#[trigger] files[j]) is Ok
}

/// Merging one more record appends what that record declares.
pub proof fn lemma_merged_push(files: Seq<SubsystemFileSource>, file: SubsystemFileSource)
    ensures
        merged(files.push(file)).systems == merged(files).systems + added_systems(file),
        merged(files.push(file)).subsystems == merged(files).subsystems + file.subsystem_models(
            file.local_parent(),
        ),
{
    let all = files.push(file);
    assert(all.drop_last() =~= files);
    assert(merged_systems(all) =~= merged_systems(files) + added_systems(file));
    let per_file = |f: SubsystemFileSource| f.subsystem_models(f.local_parent());
    assert(all.map_values(per_file) =~= files.map_values(per_file).push(per_file(file)));
    files.map_values(per_file).lemma_flatten_push(per_file(file));
}

/// Positions are stable: merging further records after `files` leaves every
/// entity of `files` at the position it had.
pub proof fn lemma_positions_are_stable(files: Seq<SubsystemFileSource>, further: Seq<SubsystemFileSource>)
    ensures
        merged(files).systems.len() <= merged(files + further).systems.len(),
        merged(files).subsystems.len() <= merged(files + further).subsystems.len(),
        merged(files + further).systems.take(merged(files).systems.len() as int) == merged(
            files,
        ).systems,
        merged(files + further).subsystems.take(merged(files).subsystems.len() as int) == merged(
            files,
        ).subsystems,
    decreases further.len(),
{
    if further.len() == 0 {
        assert(files + further =~= files);
        assert(merged(files).systems.take(merged(files).systems.len() as int) =~= merged(
            files,
        ).systems);
        assert(merged(files).subsystems.take(merged(files).subsystems.len() as int) =~= merged(
            files,
        ).subsystems);
    } else {
        let shorter = further.drop_last();
        lemma_positions_are_stable(files, shorter);
        lemma_merged_push(files + shorter, further.last());
        assert((files + shorter).push(further.last()) =~= files + further);
        let grown = merged(files + further);
        let before = merged(files + shorter);
        assert(grown.systems.take(merged(files).systems.len() as int) =~= before.systems.take(
            merged(files).systems.len() as int,
        ));
        assert(grown.subsystems.take(merged(files).subsystems.len() as int)
            =~= before.subsystems.take(merged(files).subsystems.len() as int));
    }
}

impl Graph {
    /// A graph without entities.
    pub fn new() -> (graph: Graph)
        ensures
            graph@ == merged(Seq::empty()),
    {
        let graph = Graph { systems: Vec::new(), subsystems: Vec::new() };
        assert(graph@.systems =~= merged_systems(Seq::empty()));
        assert(graph@.subsystems =~= merged_subsystems(Seq::empty()));
        graph
    }

    /// Appends what `file` declares: its system, if it declares a well-formed
    /// one, and its well-formed subsystems under the record's local parent.
    /// Every entity that was in the graph stays where it was.
    pub fn merge_file(&mut self, file: &SubsystemFileSource)
        ensures
            final(self)@.systems == old(self)@.systems + added_systems(*file),
            final(self)@.subsystems == old(self)@.subsystems + file.subsystem_models(
                file.local_parent(),
            ),
    {
        let system = file.extract_system();
        let subsystem_parent: Option<&String> = match &system {
            Some(s) => Some(&s.id),
            None => match &file.stored_in_system {
                Some(p) => Some(p),
                None => None,
            },
        };
        let mut local_subsystems = file.extract_subsystems(subsystem_parent);
        let ghost local = local_subsystems@;
        if let Some(s) = system {
            self.systems.push(s);
        }
        self.subsystems.append(&mut local_subsystems);
        assert(self@.systems =~= old(self)@.systems + added_systems(*file));
        assert(self@.subsystems =~= old(self)@.subsystems + models_of(local));
    }
}

/// Get all systems and subsystems out of the records, in order.
///
/// One record that could not be read fails the whole merge, with the error of
/// the first such record; no graph is made from the others.
pub fn merge_all_files(files: Vec<Result<SubsystemFileSource, CustomError>>) -> (result: Result<
    Graph,
    CustomError,
>)
    ensures
        match result {
            Ok(graph) => {
                &&& forall|i: int| 0 <= i < files@.len() ==> (#[trigger] files@[i]) is Ok
                &&& graph@ == merged(records_of(files@))
            },
            Err(e) => exists|at: int|
                is_first_failure(files@, at) && e@ == (#[trigger] files@[at])->Err_0@,
        },
{
    let mut k: usize = 0;
    while k < files.len()
        invariant
            k <= files.len(),
            forall|j: int| 0 <= j < k ==> (#[trigger] files@[j]) is Ok,
        decreases files.len() - k,
    {
        if let Err(e) = &files[k] {
            assert(is_first_failure(files@, k as int));
            return Err(CustomError::new(e.message.clone()));
        }
        k += 1;
    }
    let ghost records = records_of(files@);
    let mut graph = Graph::new();
    let mut i: usize = 0;
    while i < files.len()
        invariant
            i <= files.len(),
            records == records_of(files@),
            forall|j: int| 0 <= j < files@.len() ==> (#[trigger] files@[j]) is Ok,
            graph@ == merged(records.take(i as int)),
        decreases files.len() - i,
    {
        if let Ok(file) = &files[i] {
            assert(*file == records[i as int]);
            proof {
                lemma_merged_push(records.take(i as int), *file);
                assert(records.take(i as int).push(*file) =~= records.take(i + 1));
            }
            graph.merge_file(file);
        }
        i += 1;
    }
    assert(records.take(i as int) =~= records);
    Ok(graph)
}

} // verus!
