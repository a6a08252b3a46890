//! The graph of systems and subsystems, and how it is built from source records.
//!
//! A source record is what one descriptor file declares. Extraction turns the
//! well-formed declarations of a record into [`System`]s and [`Subsystem`]s whose
//! links are still names; merging appends them, record after record, to two
//! collections; linking then turns each name into the position of its target.

pub mod construct;
pub mod dot;
pub mod extract;
pub mod links;
pub mod merge;
pub mod references;
pub mod render;
pub mod representation;

use crate::subsystem_mapping::references::ReferenceByIndex;
use crate::subsystem_mapping::references::ReferenceModel;
use vstd::prelude::*;

verus! {

// -- Models in source records --

/// A pointer to further documentation, as declared.
#[derive(Debug)]
pub struct HowToSource {
    pub url: Option<String>,
    pub text: Option<String>,
}

/// A dependency of a subsystem, as declared.
#[derive(Debug)]
pub struct SubsystemDependencySource {
    pub id: Option<String>,
    pub why: Option<String>,
}

/// A system, as declared. Lists that exist under two spellings are read as
/// one list: the entries of the first field, then those of the second.
#[derive(Debug)]
pub struct SystemSource {
    pub id: Option<String>,
    pub name: Option<String>,
    pub description: Option<String>,
    pub howto: Option<Vec<HowToSource>>,
    pub how_to: Option<Vec<HowToSource>>,
}

/// A subsystem, as declared.
#[derive(Debug)]
pub struct SubsystemSource {
    pub id: Option<String>,
    pub name: Option<String>,
    pub description: Option<String>,
    pub dependency: Option<Vec<SubsystemDependencySource>>,
    pub dependencies: Option<Vec<SubsystemDependencySource>>,
    pub howto: Option<Vec<HowToSource>>,
    pub how_to: Option<Vec<HowToSource>>,
}

/// Everything one descriptor file declares, with the place it was found.
#[derive(Debug)]
pub struct SubsystemFileSource {
    pub stored_in_system: Option<String>,
    pub system: Option<SystemSource>,
    pub subsystem: Option<Vec<SubsystemSource>>,
    pub subsystems: Option<Vec<SubsystemSource>>,
    pub repo_name: String,
    pub path: String,
}

// -- Post-processed models --

/// A pointer to further documentation.
#[derive(Debug)]
pub struct HowTo {
    pub url: String,
    pub text: String,
}

/// A link from one subsystem to another, with the reason for it.
#[derive(Debug)]
pub struct SubsystemDependency {
    pub subsystem: ReferenceByIndex<Subsystem>,
    pub why: Option<String>,
}

/// A named grouping that holds subsystems and may sit inside another system.
#[derive(Debug)]
pub struct System {
    pub id: String,
    pub name: String,
    pub repo_name: String,
    pub path: String,
    pub description: Option<String>,
    pub parent_system: Option<ReferenceByIndex<System>>,
    pub how_to: Vec<HowTo>,
}

/// A unit of architecture that may depend on other subsystems.
#[derive(Debug)]
pub struct Subsystem {
    pub id: String,
    pub name: String,
    pub repo_name: String,
    pub path: String,
    pub description: Option<String>,
    pub parent_system: Option<ReferenceByIndex<System>>,
    pub dependencies: Vec<SubsystemDependency>,
    pub how_to: Vec<HowTo>,
}

/// All systems and subsystems of one build, in the order they were declared.
#[derive(Debug)]
pub struct Graph {
    pub systems: Vec<System>,
    pub subsystems: Vec<Subsystem>,
}

// -- What the post-processed models say --

/// What a [`HowTo`] says.
pub struct HowToModel {
    pub url: Seq<char>,
    pub text: Seq<char>,
}

/// What a [`SubsystemDependency`] says.
pub struct DependencyModel {
    pub subsystem: ReferenceModel,
    pub why: Option<Seq<char>>,
}

/// What a [`System`] says.
pub struct SystemModel {
    pub id: Seq<char>,
    pub name: Seq<char>,
    pub repo_name: Seq<char>,
    pub path: Seq<char>,
    pub description: Option<Seq<char>>,
    pub parent_system: Option<ReferenceModel>,
    pub how_to: Seq<HowToModel>,
}

/// What a [`Subsystem`] says.
pub struct SubsystemModel {
    pub id: Seq<char>,
    pub name: Seq<char>,
    pub repo_name: Seq<char>,
    pub path: Seq<char>,
    pub description: Option<Seq<char>>,
    pub parent_system: Option<ReferenceModel>,
    pub dependencies: Seq<DependencyModel>,
    pub how_to: Seq<HowToModel>,
}

/// What a [`Graph`] says: its entities by position, as plain values.
pub struct GraphModel {
    pub systems: Seq<SystemModel>,
    pub subsystems: Seq<SubsystemModel>,
}

/// The characters of an optional text.
pub open spec fn text_of(text: Option<String>) -> Option<Seq<char>> {
    match text {
        Some(t) => Some(t@),
        None => None,
    }
}

/// What an optional value says.
pub open spec fn model_of<T: View>(value: Option<T>) -> Option<T::V> {
    match value {
        Some(v) => Some(v@),
        None => None,
    }
}

/// What each value of a sequence says, in order.
pub open spec fn models_of<T: View>(values: Seq<T>) -> Seq<T::V> {
    values.map_values(|v: T| v@)
}

impl View for HowTo {
    type V = HowToModel;

    open spec fn view(&self) -> HowToModel {
        HowToModel { url: self.url@, text: self.text@ }
    }
}

impl View for SubsystemDependency {
    type V = DependencyModel;

    open spec fn view(&self) -> DependencyModel {
        DependencyModel { subsystem: self.subsystem@, why: text_of(self.why) }
    }
}

impl View for System {
    type V = SystemModel;

    open spec fn view(&self) -> SystemModel {
        SystemModel {
            id: self.id@,
            name: self.name@,
            repo_name: self.repo_name@,
            path: self.path@,
            description: text_of(self.description),
            parent_system: model_of(self.parent_system),
            how_to: models_of(self.how_to@),
        }
    }
}

impl View for Subsystem {
    type V = SubsystemModel;

    open spec fn view(&self) -> SubsystemModel {
        SubsystemModel {
            id: self.id@,
            name: self.name@,
            repo_name: self.repo_name@,
            path: self.path@,
            description: text_of(self.description),
            parent_system: model_of(self.parent_system),
            dependencies: models_of(self.dependencies@),
            how_to: models_of(self.how_to@),
        }
    }
}

impl View for Graph {
    type V = GraphModel;

    open spec fn view(&self) -> GraphModel {
        GraphModel { systems: models_of(self.systems@), subsystems: models_of(self.subsystems@) }
    }
}

} // verus!
