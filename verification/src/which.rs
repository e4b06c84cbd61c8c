//! Finding an executable by name: first as a path of its own, then in the
//! directories of the search path.

use vstd::prelude::*;
use vstd::string::*;
use crate::paths::{file_name, path_file_name};
use crate::text::str_eq;

verus! {

/// Why the search could not be made.
#[derive(Debug, Clone, PartialEq, Eq)]
pub enum WhichError {
    /// The search path could not be read from the environment; the text is
    /// the platform's own description.
    VarError(String),
}

impl WhichError {
    /// The message that describes this failure to the user.
    pub fn message(&self) -> (msg: String)
        ensures
            msg@ == match *self {
                WhichError::VarError(why) => "Environment variable error: "@ + why@,
            },
    {
        match self {
            WhichError::VarError(why) => String::from_str("Environment variable error: ").concat(
                why.as_str(),
            ),
        }
    }
}

/// One entry of a directory of the search path, as it was read.
#[derive(Debug, Clone, PartialEq, Eq)]
pub enum Listed {
    /// The entry could not be read.
    Failed,
    /// The entry's path, and whether a regular file is there.
    Entry { path: String, is_file: bool },
}

/// One directory of the search path, as it was read.
#[derive(Debug, Clone, PartialEq, Eq)]
pub enum DirScan {
    /// The directory could not be listed.
    Unreadable,
    /// The directory's entries, in the order in which they were reported.
    Entries(Vec<Listed>),
}

/// The search path, as it was read.
#[derive(Debug, Clone, PartialEq, Eq)]
pub enum PathScan {
    /// The environment has no usable search path; the text says why.
    Unavailable(String),
    /// The directories of the search path, in the order in which it lists
    /// them.
    Scanned(Vec<DirScan>),
}

/// Where the search stands.
#[derive(Debug, PartialEq, Eq)]
pub enum WhichStep {
    /// The search path has to be read; the search is then asked again with
    /// what was read.
    ScanPath,
    /// The search has ended.
    Done(Result<Option<String>, WhichError>),
}

/// Where the search stands, with paths as text.
pub enum Resolution {
    /// The search path has to be read.
    NeedScan,
    /// The executable is at this path.
    Found(Seq<char>),
    /// No directory of the search path holds the executable.
    NotFound,
    /// The search path could not be read.
    EnvironmentError(Seq<char>),
}

impl View for WhichStep {
    type V = Resolution;

    open spec fn view(&self) -> Resolution {
        match self {
            WhichStep::ScanPath => Resolution::NeedScan,
            WhichStep::Done(Ok(Some(path))) => Resolution::Found(path@),
            WhichStep::Done(Ok(None)) => Resolution::NotFound,
            WhichStep::Done(Err(WhichError::VarError(why))) => Resolution::EnvironmentError(why@),
        }
    }
}

/// Whether an entry is the executable looked for: a regular file whose
/// name is exactly `name`. Nothing is inferred about extensions, and
/// permissions are not looked at.
pub open spec fn entry_matches(entry: Listed, name: Seq<char>) -> bool {
    entry matches Listed::Entry { path, is_file } && is_file && path_file_name(path@) == Some(
        name,
    )
}

/// The path of the first entry at or after `from` that matches, if any.
pub open spec fn first_in_dir(entries: Seq<Listed>, name: Seq<char>, from: int) -> Option<
    Seq<char>,
>
    decreases entries.len() - from,
{
    if from < 0 || from >= entries.len() {
        None
    } else if entry_matches(entries[from], name) {
        Some(entries[from]->path@)
    } else {
        first_in_dir(entries, name, from + 1)
    }
}

/// What one directory contributes: its first match, and nothing where it
/// could not be listed.
pub open spec fn dir_match(dir: DirScan, name: Seq<char>) -> Option<Seq<char>> {
    match dir {
        DirScan::Unreadable => None,
        DirScan::Entries(entries) => first_in_dir(entries@, name, 0),
    }
}

/// The match of the first directory at or after `from` that has one.
pub open spec fn first_in_path(dirs: Seq<DirScan>, name: Seq<char>, from: int) -> Option<
    Seq<char>,
>
    decreases dirs.len() - from,
{
    if from < 0 || from >= dirs.len() {
        None
    } else {
        match dir_match(dirs[from], name) {
            Some(path) => Some(path),
            None => first_in_path(dirs, name, from + 1),
        }
    }
}

/// Where the search for `name` stands, given whether `name` itself is the
/// path of a regular file and what is known of the search path.
///
/// A name that is a regular file's path is the answer, and the search path
/// is not asked for. Otherwise the search path is needed; without one the
/// search fails, and with one the answer is the first match in the first
/// directory that has one.
pub open spec fn resolution(name: Seq<char>, literal_is_file: bool, scan: Option<PathScan>)
    -> Resolution {
    if literal_is_file {
        Resolution::Found(name)
    } else {
        match scan {
            None => Resolution::NeedScan,
            Some(PathScan::Unavailable(why)) => Resolution::EnvironmentError(why@),
            Some(PathScan::Scanned(dirs)) => match first_in_path(dirs@, name, 0) {
                Some(path) => Resolution::Found(path),
                None => Resolution::NotFound,
            },
        }
    }
}

/// Looks for the first matching entry of one directory.
pub fn find_in_dir(entries: &Vec<Listed>, file_name: &str) -> (found: Option<String>)
    ensures
        crate::text::opt_text(found) == first_in_dir(entries@, file_name@, 0),
{
    let mut i: usize = 0;
    while i < entries.len()
        invariant
            i <= entries.len(),
            first_in_dir(entries@, file_name@, 0) == first_in_dir(entries@, file_name@, i as int),
        decreases entries.len() - i,
    {
        match &entries[i] {
            Listed::Entry { path, is_file } => {
                if *is_file {
                    match self::file_name(path.as_str()) {
                        Some(name) => {
                            if str_eq(name.as_str(), file_name) {
                                return Some(path.clone());
                            }
                        },
                        None => {},
                    }
                }
            },
            Listed::Failed => {},
        }
        i += 1;
    }
    None
}

/// Looks through the directories of the search path in their order.
pub fn find_in_path(dirs: &Vec<DirScan>, file_name: &str) -> (found: Option<String>)
    ensures
        crate::text::opt_text(found) == first_in_path(dirs@, file_name@, 0),
{
    let mut i: usize = 0;
    while i < dirs.len()
        invariant
            i <= dirs.len(),
            first_in_path(dirs@, file_name@, 0) == first_in_path(dirs@, file_name@, i as int),
        decreases dirs.len() - i,
    {
        match &dirs[i] {
            DirScan::Entries(entries) => {
                match find_in_dir(entries, file_name) {
                    Some(path) => {
                        return Some(path);
                    },
                    None => {},
                }
            },
            DirScan::Unreadable => {},
        }
        i += 1;
    }
    None
}

/// Resolves `file_name` to the path of an executable.
///
/// `literal_is_file` tells whether `file_name`, taken as a path, is a
/// regular file. `scan` is what reading the search path gave, or `None`
/// where it has not been read yet: the search then either ends without it
/// or asks for it.
pub fn which(file_name: &str, literal_is_file: bool, scan: Option<&PathScan>) -> (step: WhichStep)
    ensures
        step@ == resolution(
            file_name@,
            literal_is_file,
            match scan {
                Some(s) => Some(*s),
                None => None,
            },
        ),
        literal_is_file ==> step@ == Resolution::Found(file_name@),
{
    if literal_is_file {
        return WhichStep::Done(Ok(Some(file_name.to_owned())));
    }
    match scan {
        None => WhichStep::ScanPath,
        Some(PathScan::Unavailable(why)) => WhichStep::Done(
            Err(WhichError::VarError(why.clone())),
        ),
        Some(PathScan::Scanned(dirs)) => WhichStep::Done(Ok(find_in_path(dirs, file_name))),
    }
}

/// A name that is the path of a regular file resolves to itself, whatever
/// the search path holds and whether or not it was read.
pub proof fn lemma_literal_wins(name: Seq<char>, scan: Option<PathScan>)
    ensures
        resolution(name, true, scan) == Resolution::Found(name),
{
}

/// Once the search path was read, the search ends: it is not asked for a
/// second time.
pub proof fn lemma_scan_settles(name: Seq<char>, literal_is_file: bool, scan: PathScan)
    ensures
        !(resolution(name, literal_is_file, Some(scan)) is NeedScan),
{
}

/// What a directory's search gives is its first match: an entry that
/// matches, with no match before it; and it gives nothing only where no
/// entry matches.
pub proof fn lemma_first_in_dir(entries: Seq<Listed>, name: Seq<char>, from: int)
    requires
        0 <= from,
    ensures
        match first_in_dir(entries, name, from) {
            Some(path) => exists|i: int|
                from <= i < entries.len() && entry_matches(#[trigger] entries[i], name)
                    && entries[i]->path@ == path && forall|j: int|
                    from <= j < i ==> !entry_matches(#[trigger] entries[j], name),
            None => forall|i: int|
                from <= i < entries.len() ==> !entry_matches(#[trigger] entries[i], name),
        },
    decreases entries.len() - from,
{
    if from >= entries.len() {
    } else if entry_matches(entries[from], name) {
        assert(forall|j: int| from <= j < from ==> !entry_matches(#[trigger] entries[j], name));
    } else {
        lemma_first_in_dir(entries, name, from + 1);
        match first_in_dir(entries, name, from + 1) {
            Some(path) => {
                let i = choose|i: int|
                    from + 1 <= i < entries.len() && entry_matches(#[trigger] entries[i], name)
                        && entries[i]->path@ == path && forall|j: int|
                        from + 1 <= j < i ==> !entry_matches(#[trigger] entries[j], name);
                assert forall|j: int| from <= j < i implies !entry_matches(
                    #[trigger] entries[j],
                    name,
                ) by {
                    if j > from {
                        assert(from + 1 <= j < i);
                    }
                }
            },
            None => {
                assert forall|i: int| from <= i < entries.len() implies !entry_matches(
                    #[trigger] entries[i],
                    name,
                ) by {
                    if i > from {
                        assert(from + 1 <= i < entries.len());
                    }
                }
            },
        }
    }
}

/// What the search path gives is the match of its first directory that has
/// one: no directory before it has a match; and it gives nothing only where
/// no directory has one.
pub proof fn lemma_first_in_path(dirs: Seq<DirScan>, name: Seq<char>, from: int)
    requires
        0 <= from,
    ensures
        match first_in_path(dirs, name, from) {
            Some(path) => exists|i: int|
                from <= i < dirs.len() && dir_match(#[trigger] dirs[i], name) == Some(path)
                    && forall|j: int|
                    from <= j < i ==> dir_match(#[trigger] dirs[j], name) is None,
            None => forall|i: int|
                from <= i < dirs.len() ==> dir_match(#[trigger] dirs[i], name) is None,
        },
    decreases dirs.len() - from,
{
    if from >= dirs.len() {
    } else if dir_match(dirs[from], name) is Some {
        assert(forall|j: int| from <= j < from ==> dir_match(#[trigger] dirs[j], name) is None);
    } else {
        lemma_first_in_path(dirs, name, from + 1);
        match first_in_path(dirs, name, from + 1) {
            Some(path) => {
                let i = choose|i: int|
                    from + 1 <= i < dirs.len() && dir_match(#[trigger] dirs[i], name) == Some(
                        path,
                    ) && forall|j: int|
                        from + 1 <= j < i ==> dir_match(#[trigger] dirs[j], name) is None;
                assert forall|j: int| from <= j < i implies dir_match(
                    #[trigger] dirs[j],
                    name,
                ) is None by {
                    if j > from {
                        assert(from + 1 <= j < i);
                    }
                }
            },
            None => {
                assert forall|i: int| from <= i < dirs.len() implies dir_match(
                    #[trigger] dirs[i],
                    name,
                ) is None by {
                    if i > from {
                        assert(from + 1 <= i < dirs.len());
                    }
                }
            },
        }
    }
}

/// A directory that could not be listed, and an entry that could not be
/// read, take nothing away from the search: what the other directories and
/// entries give stands.
pub proof fn lemma_unreadable_contributes_nothing(name: Seq<char>)
    ensures
        dir_match(DirScan::Unreadable, name) is None,
        !entry_matches(Listed::Failed, name),
{
}

} // verus!
