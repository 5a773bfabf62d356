//! Projects and the executables found in their build output.
//!
//! A project is scanned from a snapshot of its build-output directory: the
//! caller lists the directory and hands the listing over as plain values, and
//! the rules here decide what counts as a target and what counts as a binary.

use crate::binaries::{HoistedBinary, Record};
use crate::error::{texts, texts_outcome, HoistError};
use crate::executables::{exec_path, is_executable, probe, FileStatus};
use crate::paths::{base_name, file_name, join, join_path};
use vstd::prelude::*;

verus! {

/// One entry of a target directory, as the file system reported it.
#[derive(Debug, Clone, PartialEq, Eq)]
pub struct FileEntry {
    /// The path of the entry; `None` when it cannot be written as text.
    pub path: Option<String>,
    /// The status of the path; `None` when it could not be read.
    pub status: Option<FileStatus>,
    /// The canonical form of the path, absolute and free of symbolic links;
    /// `None` when it could not be resolved.
    pub canonical: Option<String>,
}

/// The content of one target directory.
#[derive(Debug, Clone, PartialEq, Eq)]
pub enum TargetListing {
    /// The directory does not exist.
    Missing,
    /// The directory exists but could not be listed.
    Unreadable,
    /// The entries of the directory, in the order the file system gave them;
    /// `None` stands for an entry that could not be read.
    Entries(Vec<Option<FileEntry>>),
}

/// One entry of the build-output directory.
#[derive(Debug, Clone, PartialEq, Eq)]
pub struct TargetDir {
    /// The name of the entry; `None` when it cannot be written as text.
    pub name: Option<String>,
    /// Whether the entry is a directory.
    pub is_dir: bool,
    /// What the entry holds, if it is a directory.
    pub listing: TargetListing,
}

/// The build-output directory of a project.
#[derive(Debug, Clone, PartialEq, Eq)]
pub enum BuildOutput {
    /// The project has no build-output directory.
    Missing,
    /// The directory exists but could not be listed.
    Unreadable,
    /// The entries of the directory, in the order the file system gave them;
    /// `None` stands for an entry that could not be read.
    Targets(Vec<Option<TargetDir>>),
}

/// Whether an entry of the build-output directory counts as a target: it was
/// read, it is a directory, and its name is text.
pub open spec fn is_target(entry: Option<TargetDir>) -> bool {
    entry matches Some(dir) && dir.is_dir && dir.name is Some
}

/// Whether an entry of a target directory is kept: it was read, its path is
/// text, and probing it gives a name.
pub open spec fn is_binary(entry: Option<FileEntry>) -> bool {
    entry matches Some(file) && file.path matches Some(path) && probe(path@, file.status) is Ok
}

/// The names of the targets among `entries`, in order.
pub open spec fn target_names(entries: Seq<Option<TargetDir>>) -> Seq<Seq<char>>
    decreases entries.len(),
{
    if entries.len() == 0 {
        Seq::empty()
    } else {
        let before = target_names(entries.drop_last());
        if is_target(entries.last()) {
            before.push(entries.last()->0.name->0@)
        } else {
            before
        }
    }
}

/// The targets of a build-output directory: none where it is missing, an I/O
/// error where it cannot be listed.
pub open spec fn targets_of(output: BuildOutput) -> Result<Seq<Seq<char>>, HoistError> {
    match output {
        BuildOutput::Missing => Ok(Seq::empty()),
        BuildOutput::Unreadable => Err(HoistError::Io),
        BuildOutput::Targets(entries) => Ok(target_names(entries@)),
    }
}

/// The canonical paths of the binaries among `entries`, in order; an I/O
/// error where a binary has no canonical path.
pub open spec fn binaries_among(entries: Seq<Option<FileEntry>>) -> Result<
    Seq<Seq<char>>,
    HoistError,
>
    decreases entries.len(),
{
    if entries.len() == 0 {
        Ok(Seq::empty())
    } else {
        match binaries_among(entries.drop_last()) {
            Err(e) => Err(e),
            Ok(before) => if is_binary(entries.last()) {
                match entries.last()->0.canonical {
                    Some(path) => Ok(before.push(path@)),
                    None => Err(HoistError::Io),
                }
            } else {
                Ok(before)
            },
        }
    }
}

/// The binaries of one target directory: none where it is missing, an I/O
/// error where it cannot be listed.
pub open spec fn binaries_in(listing: TargetListing) -> Result<Seq<Seq<char>>, HoistError> {
    match listing {
        TargetListing::Missing => Ok(Seq::empty()),
        TargetListing::Unreadable => Err(HoistError::Io),
        TargetListing::Entries(entries) => binaries_among(entries@),
    }
}

/// The binaries of the targets among `entries`, target after target.
pub open spec fn binaries_under(entries: Seq<Option<TargetDir>>) -> Result<
    Seq<Seq<char>>,
    HoistError,
>
    decreases entries.len(),
{
    if entries.len() == 0 {
        Ok(Seq::empty())
    } else {
        match binaries_under(entries.drop_last()) {
            Err(e) => Err(e),
            Ok(before) => if is_target(entries.last()) {
                match binaries_in(entries.last()->0.listing) {
                    Ok(found) => Ok(before + found),
                    Err(e) => Err(e),
                }
            } else {
                Ok(before)
            },
        }
    }
}

/// Every binary of a project, by canonical path.
pub open spec fn discovered(output: BuildOutput) -> Result<Seq<Seq<char>>, HoistError> {
    match output {
        BuildOutput::Missing => Ok(Seq::empty()),
        BuildOutput::Unreadable => Err(HoistError::Io),
        BuildOutput::Targets(entries) => binaries_under(entries@),
    }
}

/// The first of `paths` whose base name is `name`.
pub open spec fn first_named(paths: Seq<Seq<char>>, name: Seq<char>) -> Option<Seq<char>>
    decreases paths.len(),
{
    if paths.len() == 0 {
        None
    } else if base_name(paths[0]) == Some(name) {
        Some(paths[0])
    } else {
        first_named(paths.drop_first(), name)
    }
}

/// For each of `names`, the first of `paths` that carries it; no binary is
/// found where one of the names is carried by none.
pub open spec fn selected(paths: Seq<Seq<char>>, names: Seq<Seq<char>>) -> Result<
    Seq<Seq<char>>,
    HoistError,
>
    decreases names.len(),
{
    if names.len() == 0 {
        Ok(Seq::empty())
    } else {
        match selected(paths, names.drop_last()) {
            Err(e) => Err(e),
            Ok(before) => match first_named(paths, names.last()) {
                Some(path) => Ok(before.push(path)),
                None => Err(HoistError::BinaryNotFound),
            },
        }
    }
}

/// One record per path: the base name of the path, and the path. The name
/// is invalid where a path has no base name.
pub open spec fn records_of(paths: Seq<Seq<char>>) -> Result<Seq<Record>, HoistError>
    decreases paths.len(),
{
    if paths.len() == 0 {
        Ok(Seq::empty())
    } else {
        match records_of(paths.drop_last()) {
            Err(e) => Err(e),
            Ok(before) => match base_name(paths.last()) {
                Some(name) => Ok(before.push((name, paths.last()))),
                None => Err(HoistError::InvalidName),
            },
        }
    }
}

/// The name of the build-output directory under a project's root.
pub open spec fn target_dir_name() -> Seq<char> {
    seq!['t', 'a', 'r', 'g', 'e', 't']
}

/// A project: a root directory and the binaries discovered under it.
#[derive(Debug, Clone, PartialEq, Eq)]
pub struct Project {
    /// The project root location
    pub root: String,
    /// Binaries
    pub binaries: Vec<String>,
}

impl Project {
    /// The paths of the discovered binaries.
    pub open spec fn paths(&self) -> Seq<Seq<char>> {
        texts(self.binaries@)
    }

    /// A project rooted at `root`, with nothing discovered yet.
    pub fn from_root(root: &str) -> (project: Self)
        ensures
            project.root@ == root@,
            project.paths() == Seq::<Seq<char>>::empty(),
    {
        Project { root: root.to_owned(), binaries: Vec::new() }
    }

    /// Create a new [Project] from the current dir, which the caller looked
    /// up; fails with an I/O error where there is none.
    pub fn from_current_dir(current_dir: Option<&str>) -> (project: Result<Self, HoistError>)
        ensures
            current_dir is None ==> project == Err::<Self, HoistError>(HoistError::Io),
            current_dir matches Some(dir) ==> project matches Ok(p) && p.root@ == dir@ && p.paths()
                == Seq::<Seq<char>>::empty(),
    {
        match current_dir {
            Some(dir) => Ok(Project::from_root(dir)),
            None => Err(HoistError::Io),
        }
    }

    /// The build-output directory of the project: `target` under its root.
    pub fn target_dir(&self) -> (dir: String)
        ensures
            dir@ == join(self.root@, target_dir_name()),
    {
        proof {
            reveal_strlit("target");
            assert("target"@ == target_dir_name());
        }
        join_path(self.root.as_str(), "target")
    }

    /// The directory of the target called `target`.
    pub fn target_path(&self, target: &str) -> (dir: String)
        ensures
            dir@ == join(join(self.root@, target_dir_name()), target@),
    {
        let build_output = self.target_dir();
        join_path(build_output.as_str(), target)
    }

    /// Constructs project binaries from a list of binary string names.
    ///
    /// Loads the project from `output` first. Then each name selects the
    /// first discovered binary whose base name it is. A name that selects
    /// nothing fails the whole call: the project then holds what was
    /// discovered, and no selection.
    pub fn set_binaries(&mut self, output: &BuildOutput, binaries: Vec<String>) -> (outcome:
        Result<(), HoistError>)
        ensures
            final(self).root == old(self).root,
            discovered(*output) matches Err(e) ==> outcome == Err::<(), HoistError>(e)
                && final(self).binaries == old(self).binaries,
            discovered(*output) matches Ok(found) ==> match selected(found, texts(binaries@)) {
                Ok(chosen) => outcome is Ok && final(self).paths() == chosen,
                Err(e) => outcome == Err::<(), HoistError>(e) && final(self).paths() == found,
            },
    {
        match self.load(output) {
            Err(e) => {
                return Err(e);
            },
            Ok(()) => {},
        }
        let ghost found = self.paths();
        let ghost names = texts(binaries@);
        let mut bins: Vec<String> = Vec::new();
        let mut i: usize = 0;
        while i < binaries.len()
            invariant
                i <= binaries.len(),
                names == texts(binaries@),
                found == self.paths(),
                self.root == old(self).root,
                discovered(*output) == Ok::<Seq<Seq<char>>, HoistError>(found),
                selected(found, names.take(i as int)) matches Ok(chosen) && chosen == texts(bins@),
            decreases binaries.len() - i,
        {
            assert(names.take(i as int + 1).drop_last() == names.take(i as int));
            match find_named(&self.binaries, binaries[i].as_str()) {
                Some(path) => {
                    bins.push(path);
                },
                None => {
                    proof {
                        assert(selected(found, names.take(i as int + 1)) is Err);
                        lemma_selected_fails_for_good(found, names, i as int + 1);
                    }
                    return Err(HoistError::BinaryNotFound);
                },
            }
            i = i + 1;
        }
        assert(names.take(i as int) == names);
        self.binaries = bins;
        Ok(())
    }

    /// Builds [HoistedBinary] objects from the project binaries: each path
    /// gives the record of its base name and itself.
    pub fn hoisted_binaries(&self) -> (hoisted: Result<Vec<HoistedBinary>, HoistError>)
        ensures
            crate::binaries::records_outcome(hoisted) == records_of(self.paths()),
    {
        let ghost paths = self.paths();
        let mut hoisted: Vec<HoistedBinary> = Vec::new();
        let mut i: usize = 0;
        while i < self.binaries.len()
            invariant
                i <= self.binaries.len(),
                paths == texts(self.binaries@),
                records_of(paths.take(i as int)) matches Ok(records) && records
                    == crate::binaries::views(hoisted@),
            decreases self.binaries.len() - i,
        {
            assert(paths.take(i as int + 1).drop_last() == paths.take(i as int));
            match file_name(self.binaries[i].as_str()) {
                Some(name) => {
                    let binary = HoistedBinary::new(name, self.binaries[i].clone());
                    hoisted.push(binary);
                },
                None => {
                    proof {
                        assert(records_of(paths.take(i as int + 1)) is Err);
                        lemma_records_fail_for_good(paths, i as int + 1);
                    }
                    return Err(HoistError::InvalidName);
                },
            }
            i = i + 1;
        }
        assert(paths.take(i as int) == paths);
        Ok(hoisted)
    }

    /// Get a list of targets for the project: the names of the directories
    /// directly under its build-output directory. Entries that could not be
    /// read, or whose name is no text, are passed over.
    pub fn get_targets(&self, output: &BuildOutput) -> (targets: Result<Vec<String>, HoistError>)
        ensures
            texts_outcome(targets) == targets_of(*output),
    {
        match output {
            BuildOutput::Missing => {
                let targets: Vec<String> = Vec::new();
                assert(texts(targets@) == Seq::<Seq<char>>::empty());
                Ok(targets)
            },
            BuildOutput::Unreadable => Err(HoistError::Io),
            BuildOutput::Targets(entries) => {
                let mut targets: Vec<String> = Vec::new();
                let mut i: usize = 0;
                while i < entries.len()
                    invariant
                        i <= entries.len(),
                        target_names(entries@.take(i as int)) == texts(targets@),
                    decreases entries.len() - i,
                {
                    assert(entries@.take(i as int + 1).drop_last() == entries@.take(i as int));
                    match &entries[i] {
                        Some(dir) => {
                            if dir.is_dir {
                                match &dir.name {
                                    Some(name) => {
                                        let target = name.clone();
                                        targets.push(target);
                                    },
                                    None => {},
                                }
                            }
                        },
                        None => {},
                    }
                    i = i + 1;
                }
                assert(entries@.take(i as int) == entries@);
                Ok(targets)
            },
        }
    }

    /// Attempts to load local binaries from the target directory: replaces
    /// what the project held by the binaries of every target, target after
    /// target. On an error the project keeps what it held.
    pub fn load(&mut self, output: &BuildOutput) -> (outcome: Result<(), HoistError>)
        ensures
            final(self).root == old(self).root,
            discovered(*output) matches Ok(found) ==> outcome is Ok && final(self).paths() == found,
            discovered(*output) matches Err(e) ==> outcome == Err::<(), HoistError>(e)
                && final(self).binaries == old(self).binaries,
    {
        match output {
            BuildOutput::Missing => {
                self.binaries = Vec::new();
                Ok(())
            },
            BuildOutput::Unreadable => Err(HoistError::Io),
            BuildOutput::Targets(entries) => {
                let mut binaries: Vec<String> = Vec::new();
                let mut i: usize = 0;
                while i < entries.len()
                    invariant
                        i <= entries.len(),
                        *self == *old(self),
                        *output matches BuildOutput::Targets(all) && all == *entries,
                        binaries_under(entries@.take(i as int)) matches Ok(found) && found
                            == texts(binaries@),
                    decreases entries.len() - i,
                {
                    assert(entries@.take(i as int + 1).drop_last() == entries@.take(i as int));
                    match &entries[i] {
                        Some(dir) => {
                            if dir.is_dir && dir.name.is_some() {
                                match Project::extract_binaries(&dir.listing) {
                                    Ok(mut found) => {
                                        binaries.append(&mut found);
                                    },
                                    Err(e) => {
                                        proof {
                                            assert(is_target(entries@[i as int]));
                                            assert(binaries_under(entries@.take(i as int + 1))
                                                == Err::<Seq<Seq<char>>, HoistError>(e));
                                            lemma_discovery_fails_for_good(
                                                entries@,
                                                i as int + 1,
                                            );
                                        }
                                        return Err(e);
                                    },
                                }
                            }
                        },
                        None => {},
                    }
                    i = i + 1;
                }
                assert(entries@.take(i as int) == entries@);
                self.binaries = binaries;
                Ok(())
            },
        }
    }

    /// Extract binaries from a target directory: the canonical paths of the
    /// entries that probe as executables, in the order of the listing.
    ///
    /// A missing directory holds no binaries. Entries that could not be read
    /// or that are no executables are passed over. An executable whose path
    /// cannot be resolved is an I/O error.
    pub fn extract_binaries(target: &TargetListing) -> (binaries: Result<Vec<String>, HoistError>)
        ensures
            texts_outcome(binaries) == binaries_in(*target),
    {
        match target {
            TargetListing::Missing => {
                let binaries: Vec<String> = Vec::new();
                assert(texts(binaries@) == Seq::<Seq<char>>::empty());
                Ok(binaries)
            },
            TargetListing::Unreadable => Err(HoistError::Io),
            TargetListing::Entries(entries) => {
                let mut binaries: Vec<String> = Vec::new();
                let mut i: usize = 0;
                while i < entries.len()
                    invariant
                        i <= entries.len(),
                        *target matches TargetListing::Entries(all) && all == *entries,
                        binaries_among(entries@.take(i as int)) matches Ok(found) && found
                            == texts(binaries@),
                    decreases entries.len() - i,
                {
                    assert(entries@.take(i as int + 1).drop_last() == entries@.take(i as int));
                    if is_kept(&entries[i]) {
                        match &entries[i] {
                            Some(file) => {
                                match &file.canonical {
                                    Some(path) => {
                                        let binary = path.clone();
                                        binaries.push(binary);
                                    },
                                    None => {
                                        proof {
                                            assert(binaries_among(entries@.take(i as int + 1))
                                                == Err::<Seq<Seq<char>>, HoistError>(
                                                HoistError::Io,
                                            ));
                                            lemma_extraction_fails_for_good(
                                                entries@,
                                                i as int + 1,
                                            );
                                        }
                                        return Err(HoistError::Io);
                                    },
                                }
                            },
                            None => {},
                        }
                    }
                    i = i + 1;
                }
                assert(entries@.take(i as int) == entries@);
                Ok(binaries)
            },
        }
    }
}

/// Decides [`is_binary`].
fn is_kept(entry: &Option<FileEntry>) -> (kept: bool)
    ensures
        kept == is_binary(*entry),
{
    match entry {
        Some(file) => match &file.path {
            Some(path) => exec_path(path.as_str(), file.status).is_ok(),
            None => false,
        },
        None => false,
    }
}

/// Computes [`first_named`].
fn find_named(paths: &Vec<String>, name: &str) -> (found: Option<String>)
    ensures
        found is Some == first_named(texts(paths@), name@) is Some,
        found matches Some(path) ==> first_named(texts(paths@), name@) == Some(path@),
{
    let ghost all = texts(paths@);
    let wanted = name.to_owned();
    let mut i: usize = 0;
    assert(all.skip(0) == all);
    while i < paths.len()
        invariant
            i <= paths.len(),
            all == texts(paths@),
            wanted@ == name@,
            first_named(all, name@) == first_named(all.skip(i as int), name@),
        decreases paths.len() - i,
    {
        assert(all.skip(i as int).drop_first() == all.skip(i as int + 1));
        match file_name(paths[i].as_str()) {
            Some(base) => {
                if base == wanted {
                    return Some(paths[i].clone());
                }
            },
            None => {},
        }
        i = i + 1;
    }
    None
}

/// Once a prefix of the names selects nothing, so does every longer one.
proof fn lemma_selected_fails_for_good(paths: Seq<Seq<char>>, names: Seq<Seq<char>>, upto: int)
    requires
        0 <= upto <= names.len(),
        selected(paths, names.take(upto)) is Err,
    ensures
        selected(paths, names) == selected(paths, names.take(upto)),
    decreases names.len() - upto,
{
    if upto == names.len() {
        assert(names.take(upto) == names);
    } else {
        assert(names.take(upto + 1).drop_last() == names.take(upto));
        lemma_selected_fails_for_good(paths, names, upto + 1);
    }
}

/// Once a prefix of the paths gives no records, neither does a longer one.
proof fn lemma_records_fail_for_good(paths: Seq<Seq<char>>, upto: int)
    requires
        0 <= upto <= paths.len(),
        records_of(paths.take(upto)) is Err,
    ensures
        records_of(paths) == records_of(paths.take(upto)),
    decreases paths.len() - upto,
{
    if upto == paths.len() {
        assert(paths.take(upto) == paths);
    } else {
        assert(paths.take(upto + 1).drop_last() == paths.take(upto));
        lemma_records_fail_for_good(paths, upto + 1);
    }
}

/// Once a prefix of a listing fails, so does the whole listing.
proof fn lemma_extraction_fails_for_good(entries: Seq<Option<FileEntry>>, upto: int)
    requires
        0 <= upto <= entries.len(),
        binaries_among(entries.take(upto)) is Err,
    ensures
        binaries_among(entries) == binaries_among(entries.take(upto)),
    decreases entries.len() - upto,
{
    if upto == entries.len() {
        assert(entries.take(upto) == entries);
    } else {
        assert(entries.take(upto + 1).drop_last() == entries.take(upto));
        lemma_extraction_fails_for_good(entries, upto + 1);
    }
}

/// Once a prefix of the targets fails, so does the whole build output.
proof fn lemma_discovery_fails_for_good(entries: Seq<Option<TargetDir>>, upto: int)
    requires
        0 <= upto <= entries.len(),
        binaries_under(entries.take(upto)) is Err,
    ensures
        binaries_under(entries) == binaries_under(entries.take(upto)),
    decreases entries.len() - upto,
{
    if upto == entries.len() {
        assert(entries.take(upto) == entries);
    } else {
        assert(entries.take(upto + 1).drop_last() == entries.take(upto));
        lemma_discovery_fails_for_good(entries, upto + 1);
    }
}

/// A build-output directory that does not exist is no error: the project
/// then has no targets and no binaries, and so has a target directory that
/// does not exist.
pub proof fn lemma_missing_output_is_empty()
    ensures
        targets_of(BuildOutput::Missing) == Ok::<Seq<Seq<char>>, HoistError>(Seq::empty()),
        discovered(BuildOutput::Missing) == Ok::<Seq<Seq<char>>, HoistError>(Seq::empty()),
        binaries_in(TargetListing::Missing) == Ok::<Seq<Seq<char>>, HoistError>(Seq::empty()),
{
}

/// Of a directory that holds one executable and one file that nobody may
/// execute, exactly the executable is extracted, in whichever order the two
/// are listed.
pub proof fn lemma_only_the_executable_is_extracted(
    executable: FileEntry,
    other: FileEntry,
    entries: Vec<Option<FileEntry>>,
)
    requires
        entries@ == seq![Some(executable), Some(other)] || entries@ == seq![
            Some(other),
            Some(executable),
        ],
        is_binary(Some(executable)),
        executable.canonical is Some,
        other.status matches Some(status) && !is_executable(status),
    ensures
        binaries_in(TargetListing::Entries(entries)) == Ok::<Seq<Seq<char>>, HoistError>(
            seq![executable.canonical->0@],
        ),
{
    let all = entries@;
    let first = all.drop_last();
    assert(first.len() == 1);
    assert(first.drop_last() == Seq::<Option<FileEntry>>::empty());
    assert(first.last() == all[0]);
    assert(all.last() == all[1]);
    assert(!is_binary(Some(other)));
    reveal_with_fuel(binaries_among, 3);
    let path = executable.canonical->0@;
    assert(Seq::<Seq<char>>::empty().push(path) == seq![path]);
}

} // verus!
