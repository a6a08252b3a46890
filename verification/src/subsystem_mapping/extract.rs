//! From one source record to the entities it declares.
//!
//! A declaration counts when it has an identifier or a name; whichever is
//! missing takes the value of the other. A how-to counts when it has a url, a
//! dependency when it names its target. Everything else is left out without
//! failing the record.

use crate::subsystem_mapping::model_of;
use crate::subsystem_mapping::models_of;
use crate::subsystem_mapping::references::ReferenceByIndex;
use crate::subsystem_mapping::references::ReferenceModel;
use crate::subsystem_mapping::text_of;
use crate::subsystem_mapping::DependencyModel;
use crate::subsystem_mapping::HowTo;
use crate::subsystem_mapping::HowToModel;
use crate::subsystem_mapping::HowToSource;
use crate::subsystem_mapping::Subsystem;
use crate::subsystem_mapping::SubsystemDependency;
use crate::subsystem_mapping::SubsystemDependencySource;
use crate::subsystem_mapping::SubsystemFileSource;
use crate::subsystem_mapping::SubsystemModel;
use crate::subsystem_mapping::SubsystemSource;
use crate::subsystem_mapping::System;
use crate::subsystem_mapping::SystemModel;
use vstd::prelude::*;

verus! {

/// The entries of `first`, then those of `second`; an absent list has none.
pub open spec fn chained<T>(first: Option<Vec<T>>, second: Option<Vec<T>>) -> Seq<T> {
    (match first {
        Some(v) => v@,
        None => Seq::empty(),
    }) + (match second {
        Some(v) => v@,
        None => Seq::empty(),
    })
}

/// The identifier and the name of a declaration, each standing in for the
/// other when it is missing; nothing when both are.
pub open spec fn identity_of(id: Option<String>, name: Option<String>) -> Option<
    (Seq<char>, Seq<char>),
> {
    match (id, name) {
        (Some(i), Some(n)) => Some((i@, n@)),
        (Some(i), None) => Some((i@, i@)),
        (None, Some(n)) => Some((n@, n@)),
        (None, None) => None,
    }
}

/// An unresolved link to `id`.
pub open spec fn unresolved(id: Seq<char>) -> ReferenceModel {
    ReferenceModel { id, index: None }
}

/// An unresolved link to `id`, where there is one.
pub open spec fn unresolved_link(id: Option<Seq<char>>) -> Option<ReferenceModel> {
    match id {
        Some(i) => Some(unresolved(i)),
        None => None,
    }
}

/// The how-to that `source` declares: it needs a url, and shows the url
/// where it has no text of its own.
pub open spec fn how_to_from(source: HowToSource) -> Option<HowToModel> {
    match source.url {
        Some(url) => Some(
            HowToModel {
                url: url@,
                text: match source.text {
                    Some(t) => t@,
                    None => url@,
                },
            },
        ),
        None => None,
    }
}

/// The how-tos that `sources` declare, in order.
pub open spec fn how_tos_from(sources: Seq<HowToSource>) -> Seq<HowToModel> {
    sources.filter_map(|s: HowToSource| how_to_from(s))
}

/// The dependency that `source` declares: it needs the target's identifier.
pub open spec fn dependency_from(source: SubsystemDependencySource) -> Option<DependencyModel> {
    match source.id {
        Some(id) => Some(DependencyModel { subsystem: unresolved(id@), why: text_of(source.why) }),
        None => None,
    }
}

/// The dependencies that `sources` declare, in order.
pub open spec fn dependencies_from(sources: Seq<SubsystemDependencySource>) -> Seq<
    DependencyModel,
> {
    sources.filter_map(|s: SubsystemDependencySource| dependency_from(s))
}

/// The subsystem that `source` declares in a record found at `repo_name` and
/// `path`, under the parent `parent`.
pub open spec fn subsystem_from(
    source: SubsystemSource,
    repo_name: Seq<char>,
    path: Seq<char>,
    parent: Option<Seq<char>>,
) -> Option<SubsystemModel> {
    match identity_of(source.id, source.name) {
        Some((id, name)) => Some(
            SubsystemModel {
                id,
                name,
                repo_name,
                path,
                description: text_of(source.description),
                parent_system: unresolved_link(parent),
                dependencies: dependencies_from(chained(source.dependencies, source.dependency)),
                how_to: how_tos_from(chained(source.how_to, source.howto)),
            },
        ),
        None => None,
    }
}

impl SubsystemFileSource {
    /// The system that this record declares, if it declares a well-formed one.
    /// Its parent is the system that the record says it is stored in.
    pub open spec fn system_model(&self) -> Option<SystemModel> {
        match self.system {
            Some(system) => match identity_of(system.id, system.name) {
                Some((id, name)) => Some(
                    SystemModel {
                        id,
                        name,
                        repo_name: self.repo_name@,
                        path: self.path@,
                        description: text_of(system.description),
                        parent_system: unresolved_link(text_of(self.stored_in_system)),
                        how_to: how_tos_from(chained(system.how_to, system.howto)),
                    },
                ),
                None => None,
            },
            None => None,
        }
    }

    /// The well-formed subsystems that this record declares, in order, each
    /// placed under `parent`.
    pub open spec fn subsystem_models(&self, parent: Option<Seq<char>>) -> Seq<SubsystemModel> {
        chained(self.subsystems, self.subsystem).filter_map(
            |s: SubsystemSource| subsystem_from(s, self.repo_name@, self.path@, parent),
        )
    }

    /// The parent of this record's subsystems: the record's own system where
    /// it declares a well-formed one, else the system it is stored in, else none.
    pub open spec fn local_parent(&self) -> Option<Seq<char>> {
        match self.system_model() {
            Some(system) => Some(system.id),
            None => text_of(self.stored_in_system),
        }
    }
}

/// Identity falls back: a declaration with only a name is known by that
/// name, one with only an identifier is named by that identifier, one with
/// both keeps both, and one with neither is no declaration at all.
pub proof fn lemma_identity_falls_back(id: Option<String>, name: Option<String>)
    ensures
        id is None && name is None ==> identity_of(id, name) is None,
        id is None && name is Some ==> identity_of(id, name) == Some((name->0@, name->0@)),
        id is Some && name is None ==> identity_of(id, name) == Some((id->0@, id->0@)),
        id is Some && name is Some ==> identity_of(id, name) == Some((id->0@, name->0@)),
{
}

/// The system of a record follows the identity rule: it exists exactly when
/// the record declares a system with an identifier or a name, and then carries
/// the identity that the rule gives.
pub proof fn lemma_system_identity(file: SubsystemFileSource)
    ensures
        file.system_model() is Some <==> file.system is Some && identity_of(
            file.system->0.id,
            file.system->0.name,
        ) is Some,
        file.system_model() is Some ==> (file.system_model()->0.id, file.system_model()->0.name)
            == identity_of(file.system->0.id, file.system->0.name)->0,
{
}

/// A subsystem follows the identity rule: it is kept exactly when it has an
/// identifier or a name, and then carries the identity that the rule gives.
pub proof fn lemma_subsystem_identity(
    source: SubsystemSource,
    repo_name: Seq<char>,
    path: Seq<char>,
    parent: Option<Seq<char>>,
)
    ensures
        subsystem_from(source, repo_name, path, parent) is Some <==> identity_of(
            source.id,
            source.name,
        ) is Some,
        subsystem_from(source, repo_name, path, parent) is Some ==> (
            subsystem_from(source, repo_name, path, parent)->0.id,
            subsystem_from(source, repo_name, path, parent)->0.name,
        ) == identity_of(source.id, source.name)->0,
{
}

/// References to the entries of `first`, then to those of `second`.
pub fn iterate_over_option_vecs<'a, T>(
    vec_a: &'a Option<Vec<T>>,
    vec_b: &'a Option<Vec<T>>,
) -> (items: Vec<&'a T>)
    ensures
        items@.map_values(|r: &T| *r) == chained(*vec_a, *vec_b),
{
    let mut items: Vec<&'a T> = Vec::new();
    if let Some(a) = vec_a {
        let mut i: usize = 0;
        while i < a.len()
            invariant
                i <= a.len(),
                items@.len() == i,
                forall|k: int| 0 <= k < i ==> *items@[k] == a@[k],
            decreases a.len() - i,
        {
            items.push(&a[i]);
            i += 1;
        }
    }
    let ghost head = items@;
    if let Some(b) = vec_b {
        let mut j: usize = 0;
        while j < b.len()
            invariant
                j <= b.len(),
                items@.len() == head.len() + j,
                forall|k: int| 0 <= k < head.len() ==> items@[k] == head[k],
                forall|k: int| 0 <= k < j ==> *items@[head.len() + k] == b@[k],
            decreases b.len() - j,
        {
            items.push(&b[j]);
            j += 1;
        }
    }
    assert(items@.map_values(|r: &T| *r) =~= chained(*vec_a, *vec_b));
    items
}

/// A copy of an optional text.
fn clone_text(text: &Option<String>) -> (copy: Option<String>)
    ensures
        text_of(copy) == text_of(*text),
{
    match text {
        Some(t) => Some(t.clone()),
        None => None,
    }
}

/// The how-tos declared under either spelling.
fn extract_how_tos(first: &Option<Vec<HowToSource>>, second: &Option<Vec<HowToSource>>) -> (how_to: Vec<HowTo>)
    ensures
        models_of(how_to@) == how_tos_from(chained(*first, *second)),
{
    let sources = iterate_over_option_vecs(first, second);
    let ghost all = chained(*first, *second);
    let mut how_to: Vec<HowTo> = Vec::new();
    let mut i: usize = 0;
    while i < sources.len()
        invariant
            i <= sources.len(),
            sources@.map_values(|r: &HowToSource| *r) == all,
            models_of(how_to@) == how_tos_from(all.take(i as int)),
        decreases sources.len() - i,
    {
        let source = sources[i];
        assert(*source == all[i as int]) by {
            assert(sources@.map_values(|r: &HowToSource| *r)[i as int] == *sources@[i as int]);
        }
        proof {
            all.lemma_filter_map_take_succ(|s: HowToSource| how_to_from(s), i as int);
        }
        if let Some(url) = &source.url {
            let text = match &source.text {
                Some(t) => t.clone(),
                None => url.clone(),
            };
            how_to.push(HowTo { url: url.clone(), text });
        }
        i += 1;
        assert(models_of(how_to@) =~= how_tos_from(all.take(i as int)));
    }
    assert(all.take(i as int) =~= all);
    how_to
}

/// The dependencies declared under either spelling, none of them resolved.
fn extract_dependencies(
    first: &Option<Vec<SubsystemDependencySource>>,
    second: &Option<Vec<SubsystemDependencySource>>,
) -> (dependencies: Vec<SubsystemDependency>)
    ensures
        models_of(dependencies@) == dependencies_from(chained(*first, *second)),
{
    let sources = iterate_over_option_vecs(first, second);
    let ghost all = chained(*first, *second);
    let mut dependencies: Vec<SubsystemDependency> = Vec::new();
    let mut i: usize = 0;
    while i < sources.len()
        invariant
            i <= sources.len(),
            sources@.map_values(|r: &SubsystemDependencySource| *r) == all,
            models_of(dependencies@) == dependencies_from(all.take(i as int)),
        decreases sources.len() - i,
    {
        let source = sources[i];
        assert(*source == all[i as int]) by {
            assert(sources@.map_values(|r: &SubsystemDependencySource| *r)[i as int]
                == *sources@[i as int]);
        }
        proof {
            all.lemma_filter_map_take_succ(|s: SubsystemDependencySource| dependency_from(s), i as int);
        }
        if let Some(id) = &source.id {
            dependencies.push(
                SubsystemDependency {
                    subsystem: ReferenceByIndex::new(id),
                    why: clone_text(&source.why),
                },
            );
        }
        i += 1;
        assert(models_of(dependencies@) =~= dependencies_from(all.take(i as int)));
    }
    assert(all.take(i as int) =~= all);
    dependencies
}

impl SubsystemFileSource {
    /// Get a fully checked system out of the record.
    ///
    /// Returns `None` when the record declares no system, or one with
    /// neither identifier nor name.
    pub fn extract_system(&self) -> (system: Option<System>)
        ensures
            model_of(system) == self.system_model(),
    {
        let system = match &self.system {
            Some(system) => system,
            None => { return None; },
        };
        let (id, name) = match (&system.id, &system.name) {
            (Some(i), Some(n)) => (i.clone(), n.clone()),
            (Some(i), None) => (i.clone(), i.clone()),
            (None, Some(n)) => (n.clone(), n.clone()),
            (None, None) => { return None; },
        };
        let parent_system = match &self.stored_in_system {
            Some(s) => Some(ReferenceByIndex::new(s)),
            None => None,
        };
        let how_to = extract_how_tos(&system.how_to, &system.howto);
        Some(
            System {
                id,
                name,
                repo_name: self.repo_name.clone(),
                path: self.path.clone(),
                description: clone_text(&system.description),
                parent_system,
                how_to,
            },
        )
    }

    /// Get the valid subsystems of the record, each placed under
    /// `parent_system`. Subsystems with neither identifier nor name are left out.
    pub fn extract_subsystems(&self, parent_system: Option<&String>) -> (subsystems: Vec<Subsystem>)
        ensures
            models_of(subsystems@) == self.subsystem_models(
                match parent_system {
                    Some(p) => Some(p@),
                    None => None,
                },
            ),
    {
        let ghost parent = match parent_system {
            Some(p) => Some(p@),
            None => None,
        };
        let sources = iterate_over_option_vecs(&self.subsystems, &self.subsystem);
        let ghost all = chained(self.subsystems, self.subsystem);
        let mut subsystems: Vec<Subsystem> = Vec::new();
        let mut i: usize = 0;
        while i < sources.len()
            invariant
                i <= sources.len(),
                sources@.map_values(|r: &SubsystemSource| *r) == all,
                parent == match parent_system {
                    Some(p) => Some(p@),
                    None => None,
                },
                models_of(subsystems@) == all.take(i as int).filter_map(
                    |s: SubsystemSource| subsystem_from(s, self.repo_name@, self.path@, parent),
                ),
            decreases sources.len() - i,
        {
            let source = sources[i];
            assert(*source == all[i as int]) by {
                assert(sources@.map_values(|r: &SubsystemSource| *r)[i as int] == *sources@[i as int]);
            }
            proof {
                all.lemma_filter_map_take_succ(
                    |s: SubsystemSource| subsystem_from(s, self.repo_name@, self.path@, parent),
                    i as int,
                );
            }
            let identity = match (&source.id, &source.name) {
                (Some(i), Some(n)) => Some((i.clone(), n.clone())),
                (Some(i), None) => Some((i.clone(), i.clone())),
                (None, Some(n)) => Some((n.clone(), n.clone())),
                (None, None) => None,
            };
            if let Some((id, name)) = identity {
                let dependencies = extract_dependencies(&source.dependencies, &source.dependency);
                let how_to = extract_how_tos(&source.how_to, &source.howto);
                let parent_link = match parent_system {
                    Some(p) => Some(ReferenceByIndex::new(p)),
                    None => None,
                };
                subsystems.push(
                    Subsystem {
                        id,
                        name,
                        repo_name: self.repo_name.clone(),
                        path: self.path.clone(),
                        description: clone_text(&source.description),
                        parent_system: parent_link,
                        dependencies,
                        how_to,
                    },
                );
            }
            i += 1;
            assert(models_of(subsystems@) =~= all.take(i as int).filter_map(
                |s: SubsystemSource| subsystem_from(s, self.repo_name@, self.path@, parent),
            ));
        }
        assert(all.take(i as int) =~= all);
        subsystems
    }
}

} // verus!
