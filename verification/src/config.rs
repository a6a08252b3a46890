//! The configuration: which sources to read, and which of their files.

use crate::git_extraction::get_name_from_url;
use crate::git_extraction::name_from_url;
use crate::subsystem_mapping::models_of;
use crate::subsystem_mapping::text_of;
use vstd::prelude::*;
use vstd::std_specs::cmp::PartialEqSpecImpl;

verus! {

/// One source to read: a repository, given by `url` and `branch`, or a
/// local `folder`. Where `folder` is set, it is the folder that is read.
#[derive(Debug, Clone)]
pub struct Target {
    pub url: Option<String>,
    pub branch: Option<String>,
    pub folder: Option<String>,
}

/// The sources to read, and the ending by which descriptor files are known.
#[derive(Debug, Clone)]
pub struct SiostamConfig {
    pub suffix: String,
    pub targets: Vec<Target>,
}

/// What a [`Target`] says.
pub struct TargetModel {
    pub url: Option<Seq<char>>,
    pub branch: Option<Seq<char>>,
    pub folder: Option<Seq<char>>,
}

/// What a [`SiostamConfig`] says.
pub struct ConfigModel {
    pub suffix: Seq<char>,
    pub targets: Seq<TargetModel>,
}

impl View for Target {
    type V = TargetModel;

    open spec fn view(&self) -> TargetModel {
        TargetModel {
            url: text_of(self.url),
            branch: text_of(self.branch),
            folder: text_of(self.folder),
        }
    }
}

impl View for SiostamConfig {
    type V = ConfigModel;

    open spec fn view(&self) -> ConfigModel {
        ConfigModel { suffix: self.suffix@, targets: models_of(self.targets@) }
    }
}

/// Whether two optional texts say the same.
fn same_text(a: &Option<String>, b: &Option<String>) -> (same: bool)
    ensures
        same == (text_of(*a) == text_of(*b)),
{
    match (a, b) {
        (Some(x), Some(y)) => *x == *y,
        (None, None) => true,
        _ => false,
    }
}

impl PartialEq for Target {
    fn eq(&self, other: &Target) -> (same: bool) {
        same_text(&self.url, &other.url) && same_text(&self.branch, &other.branch) && same_text(
            &self.folder,
            &other.folder,
        )
    }
}

impl PartialEqSpecImpl for Target {
    open spec fn obeys_eq_spec() -> bool {
        true
    }

    open spec fn eq_spec(&self, other: &Target) -> bool {
        self@ == other@
    }
}

impl Eq for Target {

}

impl PartialEq for SiostamConfig {
    fn eq(&self, other: &SiostamConfig) -> (same: bool) {
        if !(self.suffix == other.suffix) {
            return false;
        }
        if self.targets.len() != other.targets.len() {
            assert(self@.targets.len() != other@.targets.len());
            return false;
        }
        let mut i: usize = 0;
        while i < self.targets.len()
            invariant
                i <= self.targets.len(),
                self.targets.len() == other.targets.len(),
                forall|k: int| 0 <= k < i ==> self@.targets[k] == other@.targets[k],
            decreases self.targets.len() - i,
        {
            if !(self.targets[i] == other.targets[i]) {
                assert(self@.targets[i as int] != other@.targets[i as int]);
                return false;
            }
            i += 1;
        }
        assert(self@.targets =~= other@.targets);
        true
    }
}

impl PartialEqSpecImpl for SiostamConfig {
    open spec fn obeys_eq_spec() -> bool {
        true
    }

    open spec fn eq_spec(&self, other: &SiostamConfig) -> bool {
        self@ == other@
    }
}

impl Eq for SiostamConfig {

}

/// Where a target is read from.
#[derive(Debug)]
pub enum TargetSource {
    /// A folder of this machine; it is known by its path.
    Folder { path: String, repo_name: String },
    /// A branch of a repository; it is known by the name in its address.
    Repository { url: String, branch: String, repo_name: String },
    /// Nowhere: the target names neither a folder nor a repository with a branch.
    Unusable,
}

/// What a [`TargetSource`] says.
pub enum TargetSourceModel {
    Folder { path: Seq<char>, repo_name: Seq<char> },
    Repository { url: Seq<char>, branch: Seq<char>, repo_name: Seq<char> },
    Unusable,
}

impl View for TargetSource {
    type V = TargetSourceModel;

    open spec fn view(&self) -> TargetSourceModel {
        match *self {
            TargetSource::Folder { path, repo_name } => TargetSourceModel::Folder {
                path: path@,
                repo_name: repo_name@,
            },
            TargetSource::Repository { url, branch, repo_name } => TargetSourceModel::Repository {
                url: url@,
                branch: branch@,
                repo_name: repo_name@,
            },
            TargetSource::Unusable => TargetSourceModel::Unusable,
        }
    }
}

/// Where `target` is read from: its folder, if it names one; else its
/// repository, if it names both an address and a branch; else nowhere.
pub open spec fn source_of(target: TargetModel) -> TargetSourceModel {
    match target.folder {
        Some(folder) => TargetSourceModel::Folder { path: folder, repo_name: folder },
        None => match (target.url, target.branch) {
            (Some(url), Some(branch)) => TargetSourceModel::Repository {
                url,
                branch,
                repo_name: name_from_url(url),
            },
            _ => TargetSourceModel::Unusable,
        },
    }
}

impl Target {
    /// Where this target is read from.
    pub fn source(&self) -> (source: TargetSource)
        ensures
            source@ == source_of(self@),
    {
        match &self.folder {
            Some(folder) => TargetSource::Folder { path: folder.clone(), repo_name: folder.clone() },
            None => match (&self.url, &self.branch) {
                (Some(url), Some(branch)) => TargetSource::Repository {
                    url: url.clone(),
                    branch: branch.clone(),
                    repo_name: get_name_from_url(url.as_str()).to_owned(),
                },
                _ => TargetSource::Unusable,
            },
        }
    }
}

} // verus!
