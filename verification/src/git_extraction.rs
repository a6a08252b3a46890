//! Names and files of a source tree.
//!
//! A source is known to the rest of the crate by a name, taken from the address
//! it was fetched from, and by the descriptor files found in its tree.

use crate::text::chars_of;
use crate::text::ends_with;
use crate::text::has_suffix;
use crate::text::string_of;
use vstd::prelude::*;
use vstd::string::*;

verus! {

/// A character that separates the parts of an address.
pub open spec fn is_separator(c: char) -> bool {
    c == '/' || c == '\\'
}

/// The place just after the last separator of `url`; the start, where `url`
/// has none.
pub open spec fn after_last_separator(url: Seq<char>) -> int
    decreases url.len(),
{
    if url.len() == 0 {
        0
    } else if is_separator(url.last()) {
        url.len() as int
    } else {
        after_last_separator(url.drop_last())
    }
}

/// The ending that marks the address of a repository.
pub open spec fn git_suffix() -> Seq<char> {
    seq!['.', 'g', 'i', 't']
}

/// Where the name ends in `url`: before the ending `.git`, if `url` has it.
pub open spec fn name_end(url: Seq<char>) -> int {
    if ends_with(url, git_suffix()) {
        url.len() - 4
    } else {
        url.len() as int
    }
}

/// The name of the repository at `url`: what stands after the last
/// separator, without the ending `.git`.
pub open spec fn name_from_url(url: Seq<char>) -> Seq<char> {
    url.subrange(after_last_separator(url), name_end(url))
}

/// [`after_last_separator`] is a place of `url` with no separator after it,
/// and with a separator just before it unless it is the start.
pub proof fn lemma_after_last_separator(url: Seq<char>)
    ensures
        0 <= after_last_separator(url) <= url.len(),
        after_last_separator(url) > 0 ==> is_separator(url[after_last_separator(url) - 1]),
        forall|k: int| after_last_separator(url) <= k < url.len() ==> !is_separator(url[k]),
    decreases url.len(),
{
    if url.len() > 0 && !is_separator(url.last()) {
        let rest = url.drop_last();
        lemma_after_last_separator(rest);
        assert forall|k: int| after_last_separator(url) <= k < url.len() implies !is_separator(
            url[k],
        ) by {
            if k < rest.len() {
                assert(rest[k] == url[k]);
            }
        }
        if after_last_separator(url) > 0 {
            assert(rest[after_last_separator(url) - 1] == url[after_last_separator(url) - 1]);
        }
    }
}

/// The name never starts after its end: the ending `.git` holds no separator.
pub proof fn lemma_name_is_in_range(url: Seq<char>)
    ensures
        0 <= after_last_separator(url) <= name_end(url) <= url.len(),
{
    lemma_after_last_separator(url);
    if ends_with(url, git_suffix()) {
        let tail = url.subrange(url.len() - 4, url.len() as int);
        let at = after_last_separator(url);
        if at > url.len() - 4 {
            assert(is_separator(url[at - 1]));
            assert(tail[at - 1 - (url.len() - 4)] == url[at - 1]);
        }
    }
}

/// Transforms `https://github.com/alexcrichton/git2-rs.git` into `git2-rs`.
pub fn get_name_from_url(url: &str) -> (name: &str)
    ensures
        name@ == name_from_url(url@),
{
    let chars = chars_of(url);
    let mut last_slash: usize = 0;
    let mut i: usize = 0;
    while i < chars.len()
        invariant
            i <= chars.len(),
            last_slash <= i,
            last_slash == after_last_separator(chars@.take(i as int)),
        decreases chars.len() - i,
    {
        assert(chars@.take(i + 1).drop_last() =~= chars@.take(i as int));
        if chars[i] == '/' || chars[i] == '\\' {
            last_slash = i + 1;
        }
        i += 1;
    }
    assert(chars@.take(i as int) =~= chars@);
    let mut suffix: Vec<char> = Vec::new();
    suffix.push('.');
    suffix.push('g');
    suffix.push('i');
    suffix.push('t');
    assert(suffix@ =~= git_suffix());
    let length_without_prefix = if has_suffix(&chars, &suffix) {
        chars.len() - 4
    } else {
        chars.len()
    };
    proof {
        lemma_name_is_in_range(url@);
    }
    url.substring_char(last_slash, length_without_prefix)
}

/// A way to prove who is asking, as a remote may accept it.
#[derive(Debug, Clone, Copy, PartialEq, Eq, Structural)]
pub enum CredentialKind {
    /// Only a user name.
    Username,
    /// A key pair.
    SshKey,
    /// A user name and a password.
    UserPassPlaintext,
}

/// What to answer a remote that asks for credentials.
#[derive(Debug, Clone, Copy, PartialEq, Eq, Structural)]
pub enum CredentialDecision {
    /// Refuse: the remote has asked too often.
    GiveUp,
    /// Refuse, after a pause if `throttle` is set: the remote accepts none of
    /// the ways this program knows.
    Unsupported { throttle: bool },
    /// Offer credentials of this kind, after a pause if `throttle` is set.
    Offer { throttle: bool, kind: CredentialKind },
}

/// How often a remote may ask for credentials before it is refused.
pub const MAX_CREDENTIAL_TRIES: u32 = 3;

/// The answer to the `tries`-th request of a remote that accepts the given
/// kinds: none after the third; else the first accepted of user name, key
/// pair, and user name with password, or a refusal where none is accepted;
/// from the second request on, the answer comes after a pause.
pub open spec fn credential_decision(tries: int, username: bool, ssh_key: bool, user_pass: bool) -> CredentialDecision {
    if tries > MAX_CREDENTIAL_TRIES {
        CredentialDecision::GiveUp
    } else if username {
        CredentialDecision::Offer { throttle: tries > 1, kind: CredentialKind::Username }
    } else if ssh_key {
        CredentialDecision::Offer { throttle: tries > 1, kind: CredentialKind::SshKey }
    } else if user_pass {
        CredentialDecision::Offer { throttle: tries > 1, kind: CredentialKind::UserPassPlaintext }
    } else {
        CredentialDecision::Unsupported { throttle: tries > 1 }
    }
}

/// Counts one more request for credentials and decides the answer to it.
///
/// `tries` is the number of requests so far; it stops counting at the
/// largest number it can hold, long after every request is refused.
pub fn next_credentials(tries: &mut u32, username: bool, ssh_key: bool, user_pass: bool) -> (decision:
    CredentialDecision)
    ensures
        *final(tries) == if *old(tries) < u32::MAX {
            (*old(tries) + 1) as u32
        } else {
            u32::MAX
        },
        decision == credential_decision(*final(tries) as int, username, ssh_key, user_pass),
{
    if *tries < u32::MAX {
        *tries = *tries + 1;
    }
    // Do not attempt too many times
    if *tries > MAX_CREDENTIAL_TRIES {
        return CredentialDecision::GiveUp;
    }
    // Throttle tries 2 and 3
    let throttle = *tries > 1;
    if username {
        CredentialDecision::Offer { throttle, kind: CredentialKind::Username }
    } else if ssh_key {
        CredentialDecision::Offer { throttle, kind: CredentialKind::SshKey }
    } else if user_pass {
        CredentialDecision::Offer { throttle, kind: CredentialKind::UserPassPlaintext }
    } else {
        CredentialDecision::Unsupported { throttle }
    }
}

/// A descriptor file found in a source tree.
#[derive(Debug)]
pub struct SubsystemFile {
    pub name: String,
    pub path: String,
    pub relative_path: String,
    pub repo_name: String,
}

/// What a [`SubsystemFile`] says.
pub struct SubsystemFileModel {
    pub name: Seq<char>,
    pub path: Seq<char>,
    pub relative_path: Seq<char>,
    pub repo_name: Seq<char>,
}

impl View for SubsystemFile {
    type V = SubsystemFileModel;

    open spec fn view(&self) -> SubsystemFileModel {
        SubsystemFileModel {
            name: self.name@,
            path: self.path@,
            relative_path: self.relative_path@,
            repo_name: self.repo_name@,
        }
    }
}

/// A file met while walking a source tree: its name, its path, and its path
/// from the root of the tree where that path can be written as text.
#[derive(Debug)]
pub struct DirectoryEntry {
    pub file_name: String,
    pub path: String,
    pub relative_path: Option<String>,
}

/// `path` with `/` between its parts, whatever the platform wrote.
pub open spec fn with_forward_slashes(path: Seq<char>) -> Seq<char> {
    path.map_values(
        |c: char|
            if c == '\\' {
                '/'
            } else {
                c
            },
    )
}

/// The path shown for `entry`.
pub open spec fn shown_path(entry: DirectoryEntry) -> Seq<char> {
    match entry.relative_path {
        Some(path) => with_forward_slashes(path@),
        None => "Corrupted path"@,
    }
}

/// The descriptor file that `entry` is, if its name ends with `suffix`.
pub open spec fn descriptor_in(entry: DirectoryEntry, repo_name: Seq<char>, suffix: Seq<char>) -> Option<
    SubsystemFileModel,
> {
    if ends_with(entry.file_name@, suffix) {
        Some(
            SubsystemFileModel {
                name: entry.file_name@,
                path: entry.path@,
                relative_path: shown_path(entry),
                repo_name,
            },
        )
    } else {
        None
    }
}

/// `path` with `/` between its parts.
fn replace_backslashes(path: &str) -> (shown: String)
    ensures
        shown@ == with_forward_slashes(path@),
{
    let chars = chars_of(path);
    let mut replaced: Vec<char> = Vec::new();
    let mut i: usize = 0;
    while i < chars.len()
        invariant
            i <= chars.len(),
            replaced@.len() == i,
            forall|k: int| 0 <= k < i ==> replaced@[k] == with_forward_slashes(chars@)[k],
        decreases chars.len() - i,
    {
        if chars[i] == '\\' {
            replaced.push('/');
        } else {
            replaced.push(chars[i]);
        }
        i += 1;
    }
    assert(replaced@ =~= with_forward_slashes(chars@));
    string_of(&replaced)
}

/// List the files of a source tree whose name ends with `suffix`, in the
/// order of `entries`, each with the name of its source and the path to show.
pub fn extract_files_from_repo(entries: &Vec<DirectoryEntry>, repo_name: &str, suffix: &str) -> (file_list:
    Vec<SubsystemFile>)
    ensures
        crate::subsystem_mapping::models_of(file_list@) == entries@.filter_map(
            |e: DirectoryEntry| descriptor_in(e, repo_name@, suffix@),
        ),
{
    let wanted = chars_of(suffix);
    let mut file_list: Vec<SubsystemFile> = Vec::new();
    let mut i: usize = 0;
    while i < entries.len()
        invariant
            i <= entries.len(),
            wanted@ == suffix@,
            crate::subsystem_mapping::models_of(file_list@) == entries@.take(i as int).filter_map(
                |e: DirectoryEntry| descriptor_in(e, repo_name@, suffix@),
            ),
        decreases entries.len() - i,
    {
        let entry = &entries[i];
        proof {
            entries@.lemma_filter_map_take_succ(
                |e: DirectoryEntry| descriptor_in(e, repo_name@, suffix@),
                i as int,
            );
        }
        let file_name = chars_of(entry.file_name.as_str());
        if has_suffix(&file_name, &wanted) {
            let relative_path = match &entry.relative_path {
                Some(path) => replace_backslashes(path.as_str()),
                None => "Corrupted path".to_owned(),
            };
            file_list.push(
                SubsystemFile {
                    name: entry.file_name.clone(),
                    path: entry.path.clone(),
                    relative_path,
                    repo_name: repo_name.to_owned(),
                },
            );
        }
        i += 1;
        assert(crate::subsystem_mapping::models_of(file_list@) =~= entries@.take(i as int).filter_map(
            |e: DirectoryEntry| descriptor_in(e, repo_name@, suffix@),
        ));
    }
    assert(entries@.take(i as int) =~= entries@);
    file_list
}

} // verus!
