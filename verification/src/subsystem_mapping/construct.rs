//! From a configuration, and what was found for each of its targets, to a graph.
//!
//! The caller makes each target's source ready and reads its descriptor
//! files; this module decides what that amounts to. A target that names no
//! source is passed over. The first target whose source could not be had fails
//! the build; failing that, the first descriptor file that could not be read
//! does. Only a complete set of records becomes a graph.

use crate::config::source_of;
use crate::config::ConfigModel;
use crate::config::SiostamConfig;
use crate::config::Target;
use crate::config::TargetModel;
use crate::config::TargetSourceModel;
use crate::error::CustomError;
use crate::subsystem_mapping::links::linked;
use crate::subsystem_mapping::links::reconstruct_links;
use crate::subsystem_mapping::merge::is_first_failure;
use crate::subsystem_mapping::merge::lemma_merged_push;
use crate::subsystem_mapping::merge::merged;
use crate::subsystem_mapping::merge::records_of;
use crate::subsystem_mapping::Graph;
use crate::subsystem_mapping::SubsystemFileSource;
use vstd::prelude::*;

verus! {

/// What was found for one target.
#[derive(Debug)]
pub enum TargetFiles {
    /// The folder that the target names does not exist.
    MissingFolder,
    /// The source could not be made ready for reading.
    Failed(CustomError),
    /// The source tree was walked: what reading each descriptor file gave, in
    /// the order the files were met.
    Found(Vec<Result<SubsystemFileSource, CustomError>>),
}

/// The message for a folder that does not exist.
pub open spec fn missing_folder_message() -> Seq<char> {
    "Local folder does not exists"@
}

/// `target` names a source.
pub open spec fn is_usable(target: TargetModel) -> bool {
    source_of(target) != TargetSourceModel::Unusable
}

/// What is found for the target at `i`, if that target names a source and
/// something is recorded for it.
pub open spec fn found_at(config: ConfigModel, found: Seq<TargetFiles>, i: int) -> Option<TargetFiles> {
    if 0 <= i < config.targets.len() && i < found.len() && is_usable(config.targets[i]) {
        Some(found[i])
    } else {
        None
    }
}

/// The message with which the target at `i` fails the build, if it does.
pub open spec fn failure_at(config: ConfigModel, found: Seq<TargetFiles>, i: int) -> Option<Seq<char>> {
    match found_at(config, found, i) {
        Some(TargetFiles::MissingFolder) => Some(missing_folder_message()),
        Some(TargetFiles::Failed(e)) => Some(e@),
        _ => None,
    }
}

/// The records that the target at `i` contributes.
pub open spec fn records_at(config: ConfigModel, found: Seq<TargetFiles>, i: int) -> Seq<
    Result<SubsystemFileSource, CustomError>,
> {
    match found_at(config, found, i) {
        Some(TargetFiles::Found(records)) => records@,
        _ => Seq::empty(),
    }
}

/// The records that the first `upto` targets contribute, target after target.
pub open spec fn gathered(config: ConfigModel, found: Seq<TargetFiles>, upto: nat) -> Seq<
    Result<SubsystemFileSource, CustomError>,
>
    decreases upto,
{
    if upto == 0 {
        Seq::empty()
    } else {
        gathered(config, found, (upto - 1) as nat) + records_at(config, found, upto - 1)
    }
}

/// `at` is the first target that fails the build.
pub open spec fn is_first_failed_target(config: ConfigModel, found: Seq<TargetFiles>, at: int) -> bool {
    &&& 0 <= at < config.targets.len()
    &&& failure_at(config, found, at) is Some
    &&& forall|j: int| 0 <= j < at ==> (#[trigger] failure_at(config, found, j)) is None
}

/// No target fails the build.
pub open spec fn no_target_failed(config: ConfigModel, found: Seq<TargetFiles>) -> bool {
    forall|j: int| 0 <= j < config.targets.len() ==> (#[trigger] failure_at(config, found, j)) is None
}

impl Target {
    /// Whether this target names a source: a folder, or a repository with
    /// a branch.
    pub fn names_a_source(&self) -> (usable: bool)
        ensures
            usable == is_usable(self@),
    {
        self.folder.is_some() || (self.url.is_some() && self.branch.is_some())
    }
}

impl Graph {
    /// The graph of a configuration, from what was found for each of its
    /// targets: `found` holds one entry for each target, in order.
    ///
    /// Targets that name no source, and targets for which `found` has no
    /// entry, contribute nothing. The build fails with the error of the first
    /// target whose folder is missing or whose source could not be made
    /// ready; if there is none, with the error of the first descriptor file
    /// that could not be read. Otherwise all records are merged, target
    /// after target, and every link is resolved.
    #[verifier::loop_isolation(false)]
    pub fn construct_from_config(config: &SiostamConfig, found: &Vec<TargetFiles>) -> (result: Result<
        Graph,
        CustomError,
    >)
        ensures
            match result {
                Ok(graph) => {
                    let records = gathered(config@, found@, config@.targets.len());
                    &&& no_target_failed(config@, found@)
                    &&& forall|i: int| 0 <= i < records.len() ==> (#[trigger] records[i]) is Ok
                    &&& graph@ == linked(merged(records_of(records)))
                },
                Err(e) => {
                    let records = gathered(config@, found@, config@.targets.len());
                    ||| exists|at: int|
                        is_first_failed_target(config@, found@, at) && Some(e@) == #[trigger] failure_at(
                            config@,
                            found@,
                            at,
                        )
                    ||| no_target_failed(config@, found@) && exists|at: int|
                        is_first_failure(records, at) && e@ == (#[trigger] records[at])->Err_0@
                },
            },
    {
        let ghost settings = config@;
        let ghost all = gathered(settings, found@, settings.targets.len());
        // Which sources could be had
        let mut t: usize = 0;
        while t < config.targets.len()
            invariant
                t <= config.targets.len(),
                settings == config@,
                forall|j: int| 0 <= j < t ==> (#[trigger] failure_at(settings, found@, j)) is None,
            decreases config.targets.len() - t,
        {
            assert(settings.targets[t as int] == config.targets@[t as int]@);
            if t < found.len() && config.targets[t].names_a_source() {
                match &found[t] {
                    TargetFiles::MissingFolder => {
                        assert(is_first_failed_target(settings, found@, t as int));
                        return Err(CustomError::new("Local folder does not exists".to_owned()));
                    },
                    TargetFiles::Failed(e) => {
                        assert(is_first_failed_target(settings, found@, t as int));
                        return Err(CustomError::new(e.message.clone()));
                    },
                    TargetFiles::Found(_) => {},
                }
            }
            t += 1;
        }
        assert(no_target_failed(settings, found@));

        // Which files could be read
        let mut u: usize = 0;
        while u < config.targets.len()
            invariant
                u <= config.targets.len(),
                settings == config@,
                all == gathered(settings, found@, settings.targets.len()),
                no_target_failed(settings, found@),
                forall|j: int|
                    0 <= j < gathered(settings, found@, u as nat).len() ==> (#[trigger] gathered(
                        settings,
                        found@,
                        u as nat,
                    )[j]) is Ok,
            decreases config.targets.len() - u,
        {
            assert(settings.targets[u as int] == config.targets@[u as int]@);
            let ghost before = gathered(settings, found@, u as nat);
            let ghost here = records_at(settings, found@, u as int);
            assert(gathered(settings, found@, (u + 1) as nat) == before + here);
            if u < found.len() && config.targets[u].names_a_source() {
                if let TargetFiles::Found(records) = &found[u] {
                    assert(here == records@);
                    let mut k: usize = 0;
                    while k < records.len()
                        invariant
                            k <= records.len(),
                            here == records@,
                            forall|j: int| 0 <= j < k ==> (#[trigger] here[j]) is Ok,
                        decreases records.len() - k,
                    {
                        if let Err(e) = &records[k] {
                            proof {
                                lemma_gathered_prefix(
                                    settings,
                                    found@,
                                    (u + 1) as nat,
                                    settings.targets.len(),
                                );
                                let at = before.len() + k;
                                assert((before + here)[at] == here[k as int]);
                                assert(all[at] == here[k as int]);
                                assert forall|j: int| 0 <= j < at implies (#[trigger] all[j]) is Ok by {
                                    assert(all[j] == (before + here)[j]);
                                    if j < before.len() {
                                        assert(before[j] is Ok);
                                    } else {
                                        assert(here[j - before.len()] is Ok);
                                    }
                                }
                                assert(is_first_failure(all, at));
                            }
                            return Err(CustomError::new(e.message.clone()));
                        }
                        k += 1;
                    }
                }
            }
            assert forall|j: int| 0 <= j < (before + here).len() implies (#[trigger] (before + here)[j]) is Ok by {
                if j < before.len() {
                    assert(before[j] is Ok);
                } else {
                    assert(here[j - before.len()] is Ok);
                }
            }
            u += 1;
        }

        // Merge, target after target
        let mut graph = Graph::new();
        let mut v: usize = 0;
        while v < config.targets.len()
            invariant
                v <= config.targets.len(),
                settings == config@,
                all == gathered(settings, found@, settings.targets.len()),
                forall|j: int| 0 <= j < all.len() ==> (#[trigger] all[j]) is Ok,
                graph@ == merged(records_of(gathered(settings, found@, v as nat))),
            decreases config.targets.len() - v,
        {
            assert(settings.targets[v as int] == config.targets@[v as int]@);
            let ghost before = gathered(settings, found@, v as nat);
            let ghost here = records_at(settings, found@, v as int);
            assert(gathered(settings, found@, (v + 1) as nat) == before + here);
            if v < found.len() && config.targets[v].names_a_source() {
                if let TargetFiles::Found(records) = &found[v] {
                    let mut k: usize = 0;
                    assert((before + here.take(0)) =~= before);
                    while k < records.len()
                        invariant
                            k <= records.len(),
                            here == records@,
                            graph@ == merged(records_of(before + here.take(k as int))),
                        decreases records.len() - k,
                    {
                        let ghost so_far = before + here.take(k as int);
                        if let Ok(file) = &records[k] {
                            proof {
                                lemma_merged_push(records_of(so_far), *file);
                                assert(records_of(before + here.take(k + 1)) =~= records_of(so_far).push(
                                    *file,
                                ));
                            }
                            graph.merge_file(file);
                        } else {
                            proof {
                                lemma_gathered_prefix(
                                    settings,
                                    found@,
                                    (v + 1) as nat,
                                    settings.targets.len(),
                                );
                                assert((before + here)[before.len() + k] == here[k as int]);
                                assert(all[before.len() + k] is Ok);
                            }
                        }
                        k += 1;
                    }
                    assert(here.take(k as int) =~= here);
                }
            }
            assert(before + here =~= gathered(settings, found@, (v + 1) as nat));
            v += 1;
        }
        reconstruct_links(&mut graph);
        Ok(graph)
    }
}

/// What the first targets contribute is the start of what more targets contribute.
pub proof fn lemma_gathered_prefix(config: ConfigModel, found: Seq<TargetFiles>, fewer: nat, more: nat)
    requires
        fewer <= more,
    ensures
        gathered(config, found, fewer).len() <= gathered(config, found, more).len(),
        forall|j: int|
            0 <= j < gathered(config, found, fewer).len() ==> gathered(config, found, more)[j]
                == #[trigger] gathered(config, found, fewer)[j],
    decreases more,
{
    if fewer < more {
        lemma_gathered_prefix(config, found, fewer, (more - 1) as nat);
    }
}

} // verus!
