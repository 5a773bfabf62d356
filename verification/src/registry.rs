//! The registry: the set of known binary records, kept free of duplicates.

use crate::binaries::{clone_all, records_outcome, views, HoistedBinary, Record};
use crate::error::{texts, HoistError};
use crate::project::{discovered, records_of, selected, BuildOutput, Project};
use vstd::prelude::*;
use vstd::std_specs::cmp::PartialEqSpecImpl;

verus! {

/// `records` with `record` added, unless it is already there.
pub open spec fn inserted(records: Seq<Record>, record: Record) -> Seq<Record> {
    if records.contains(record) {
        records
    } else {
        records.push(record)
    }
}

/// `records` after inserting each of `new`, in order.
pub open spec fn merged(records: Seq<Record>, new: Seq<Record>) -> Seq<Record>
    decreases new.len(),
{
    if new.len() == 0 {
        records
    } else {
        inserted(merged(records, new.drop_last()), new.last())
    }
}

/// The first of `records` with the name `name`.
pub open spec fn first_called(records: Seq<Record>, name: Seq<char>) -> Option<Record>
    decreases records.len(),
{
    if records.len() == 0 {
        None
    } else if records[0].0 == name {
        Some(records[0])
    } else {
        first_called(records.drop_first(), name)
    }
}

/// The records that installing from `output` adds: those of every
/// discovered binary where `names` is empty, else those of the binaries
/// that `names` selects.
pub open spec fn install_records(output: BuildOutput, names: Seq<Seq<char>>) -> Result<
    Seq<Record>,
    HoistError,
> {
    match discovered(output) {
        Err(e) => Err(e),
        Ok(found) => if names.len() == 0 {
            records_of(found)
        } else {
            match selected(found, names) {
                Err(e) => Err(e),
                Ok(chosen) => records_of(chosen),
            }
        },
    }
}

/// How an install that added `records` ends.
pub open spec fn outcome_of(records: Seq<Record>) -> InstallOutcome {
    if records.len() == 0 {
        InstallOutcome::NothingFound
    } else {
        InstallOutcome::Registered
    }
}

/// How an install ended.
#[derive(Debug, Clone, Copy, PartialEq, Eq, Structural)]
pub enum InstallOutcome {
    /// No project root was known. The registry is as it was and need not be
    /// saved.
    NoProject,
    /// The project holds no binaries. The registry is as it was and must not
    /// be saved.
    NothingFound,
    /// Binaries were found and merged in. The registry is to be saved.
    Registered,
}

/// The global hoist registry: the memoized binaries that have been built and
/// registered, each identified by its name together with its location.
#[derive(Debug)]
pub struct HoistRegistry {
    binaries: Vec<HoistedBinary>,
}

impl View for HoistRegistry {
    type V = Seq<Record>;

    closed spec fn view(&self) -> Seq<Record> {
        views(self.binaries@)
    }
}

impl Clone for HoistRegistry {
    fn clone(&self) -> (copy: Self)
        ensures
            copy@ == self@,
    {
        HoistRegistry { binaries: clone_all(&self.binaries) }
    }
}

impl PartialEq for HoistRegistry {
    fn eq(&self, other: &Self) -> (same: bool) {
        let forth = self.holds_all_of(other);
        let back = other.holds_all_of(self);
        proof {
            if forth && back {
                assert(self@.to_set() =~= other@.to_set());
            }
        }
        forth && back
    }
}

impl Eq for HoistRegistry {

}

impl PartialEqSpecImpl for HoistRegistry {
    open spec fn obeys_eq_spec() -> bool {
        true
    }

    open spec fn eq_spec(&self, other: &Self) -> bool {
        self.records() == other.records()
    }
}

impl Default for HoistRegistry {
    fn default() -> (registry: Self)
        ensures
            registry@ == Seq::<Record>::empty(),
            registry.wf(),
    {
        HoistRegistry { binaries: Vec::new() }
    }
}

impl HoistRegistry {
    /// No record occurs twice.
    pub open spec fn wf(&self) -> bool {
        self@.no_duplicates()
    }

    /// The registered records as a set.
    pub open spec fn records(&self) -> Set<Record> {
        self@.to_set()
    }

    /// The number of registered records.
    pub fn len(&self) -> (count: usize)
        ensures
            count == self@.len(),
    {
        self.binaries.len()
    }

    /// Whether nothing is registered.
    pub fn is_empty(&self) -> (empty: bool)
        ensures
            empty == (self@.len() == 0),
    {
        self.binaries.len() == 0
    }

    /// Whether `binary` is registered, under this name and at this location.
    pub fn contains(&self, binary: &HoistedBinary) -> (found: bool)
        ensures
            found == self@.contains(binary@),
    {
        let mut i: usize = 0;
        while i < self.binaries.len()
            invariant
                i <= self.binaries.len(),
                forall|j: int| 0 <= j < i ==> self@[j] != binary@,
            decreases self.binaries.len() - i,
        {
            if self.binaries[i].same_as(binary) {
                assert(self@[i as int] == binary@);
                return true;
            }
            i = i + 1;
        }
        false
    }

    /// Whether every record of `other` is registered here.
    pub fn holds_all_of(&self, other: &HoistRegistry) -> (all: bool)
        ensures
            all == other@.to_set().subset_of(self@.to_set()),
    {
        let mut i: usize = 0;
        while i < other.binaries.len()
            invariant
                i <= other.binaries.len(),
                forall|j: int| 0 <= j < i ==> self@.contains(#[trigger] other@[j]),
            decreases other.binaries.len() - i,
        {
            if !self.contains(&other.binaries[i]) {
                assert(other@.to_set().contains(other@[i as int]));
                return false;
            }
            i = i + 1;
        }
        assert forall|r: Record| other@.to_set().contains(r) implies self@.to_set().contains(r) by {
            let j = choose|j: int| 0 <= j < other@.len() && other@[j] == r;
            assert(self@.contains(other@[j]));
        }
        true
    }

    /// Inserts a [HoistedBinary] into the registry.
    /// Will not insert if the binary already exists in the registry.
    pub fn insert(&mut self, binary: HoistedBinary)
        requires
            old(self).wf(),
        ensures
            final(self)@ == inserted(old(self)@, binary@),
            final(self).wf(),
    {
        if !self.contains(&binary) {
            self.binaries.push(binary);
        }
    }

    /// Inserts every one of `binaries`, in order.
    pub fn insert_all(&mut self, binaries: Vec<HoistedBinary>)
        requires
            old(self).wf(),
        ensures
            final(self)@ == merged(old(self)@, views(binaries@)),
            final(self).wf(),
    {
        let ghost new = views(binaries@);
        let mut i: usize = 0;
        while i < binaries.len()
            invariant
                i <= binaries.len(),
                new == views(binaries@),
                self.wf(),
                self@ == merged(old(self)@, new.take(i as int)),
            decreases binaries.len() - i,
        {
            assert(new.take(i as int + 1).drop_last() == new.take(i as int));
            self.insert(binaries[i].clone());
            i = i + 1;
        }
        assert(new.take(i as int) == new);
    }

    /// The registered records, oldest first.
    pub fn list(&self) -> (binaries: Vec<HoistedBinary>)
        ensures
            views(binaries@) == self@,
    {
        clone_all(&self.binaries)
    }

    /// Finds the binary called `name`: the one registered first where
    /// several carry the name, and no binary where none does.
    pub fn find(&self, name: &str) -> (found: Result<HoistedBinary, HoistError>)
        ensures
            match first_called(self@, name@) {
                Some(record) => found matches Ok(binary) && binary@ == record,
                None => found == Err::<HoistedBinary, HoistError>(HoistError::BinaryNotFound),
            },
    {
        let wanted = name.to_owned();
        let mut i: usize = 0;
        assert(self@.skip(0) == self@);
        while i < self.binaries.len()
            invariant
                i <= self.binaries.len(),
                wanted@ == name@,
                first_called(self@, name@) == first_called(self@.skip(i as int), name@),
            decreases self.binaries.len() - i,
        {
            assert(self@.skip(i as int).drop_first() == self@.skip(i as int + 1));
            if self.binaries[i].name == wanted {
                return Ok(self.binaries[i].clone());
            }
            i = i + 1;
        }
        Err(HoistError::BinaryNotFound)
    }

    /// Installs binaries in the registry.
    ///
    /// With no project root nothing is done. Otherwise the project is
    /// loaded from `output`; with no names every discovered binary is taken,
    /// else the binaries that `binaries` names, each of which must be found.
    /// Their records are merged into the registry. The outcome says whether
    /// the registry is to be saved: it is not where nothing was discovered.
    /// On an error the registry is as it was.
    pub fn install(
        &mut self,
        root: Option<&str>,
        output: &BuildOutput,
        binaries: Vec<String>,
    ) -> (outcome: Result<InstallOutcome, HoistError>)
        requires
            old(self).wf(),
        ensures
            final(self).wf(),
            root is None ==> outcome == Ok::<InstallOutcome, HoistError>(InstallOutcome::NoProject)
                && final(self)@ == old(self)@,
            root is Some ==> match install_records(*output, texts(binaries@)) {
                Err(e) => outcome == Err::<InstallOutcome, HoistError>(e)
                    && final(self)@ == old(self)@,
                Ok(records) => outcome == Ok::<InstallOutcome, HoistError>(outcome_of(records))
                    && final(self)@ == merged(old(self)@, records),
            },
    {
        let mut project = match root {
            Some(dir) => Project::from_root(dir),
            None => {
                return Ok(InstallOutcome::NoProject);
            },
        };
        let loaded = if binaries.len() == 0 {
            project.load(output)
        } else {
            project.set_binaries(output, binaries)
        };
        match loaded {
            Err(e) => {
                return Err(e);
            },
            Ok(()) => {},
        }
        let hoisted = match project.hoisted_binaries() {
            Err(e) => {
                return Err(e);
            },
            Ok(hoisted) => hoisted,
        };
        let registered = hoisted.len();
        self.insert_all(hoisted);
        if registered == 0 {
            Ok(InstallOutcome::NothingFound)
        } else {
            Ok(InstallOutcome::Registered)
        }
    }
}

/// The registry after one install from `output` with `names`, or the error
/// that leaves it as it was.
pub open spec fn installed(
    records: Seq<Record>,
    output: BuildOutput,
    names: Seq<Seq<char>>,
) -> Result<Seq<Record>, HoistError> {
    match install_records(output, names) {
        Ok(new) => Ok(merged(records, new)),
        Err(e) => Err(e),
    }
}

/// The registry after `times` installs in a row from the same `output` with
/// the same `names`, `times` being at least one.
pub open spec fn installed_repeatedly(
    records: Seq<Record>,
    output: BuildOutput,
    names: Seq<Seq<char>>,
    times: nat,
) -> Result<Seq<Record>, HoistError>
    decreases times,
{
    if times <= 1 {
        installed(records, output, names)
    } else {
        match installed_repeatedly(records, output, names, (times - 1) as nat) {
            Ok(before) => installed(before, output, names),
            Err(e) => Err(e),
        }
    }
}

/// Inserting keeps what was there, in place, and adds nothing twice.
pub proof fn lemma_inserted(records: Seq<Record>, record: Record)
    requires
        records.no_duplicates(),
    ensures
        inserted(records, record).no_duplicates(),
        inserted(records, record).to_set() == records.to_set().insert(record),
        inserted(records, record).contains(record),
        forall|r: Record| records.contains(r) ==> inserted(records, record).contains(r),
{
    let after = inserted(records, record);
    if records.contains(record) {
        assert(records.to_set().insert(record) == records.to_set());
    } else {
        assert(after[records.len() as int] == record);
        assert forall|r: Record| records.contains(r) implies after.contains(r) by {
            let i = choose|i: int| 0 <= i < records.len() && records[i] == r;
            assert(after[i] == r);
        }
        assert forall|r: Record| after.to_set().contains(r) == records.to_set().insert(
            record,
        ).contains(r) by {
            if after.contains(r) {
                let i = choose|i: int| 0 <= i < after.len() && after[i] == r;
                if i < records.len() {
                    assert(records[i] == r);
                }
            }
        }
        assert(after.to_set() == records.to_set().insert(record));
    }
}

/// Merging keeps a registry free of duplicates, and the result holds
/// exactly what the registry held and what was merged in.
pub proof fn lemma_merged(records: Seq<Record>, new: Seq<Record>)
    requires
        records.no_duplicates(),
    ensures
        merged(records, new).no_duplicates(),
        merged(records, new).to_set() == records.to_set().union(new.to_set()),
    decreases new.len(),
{
    if new.len() == 0 {
        assert(new.to_set() == Set::<Record>::empty());
        assert(records.to_set().union(new.to_set()) == records.to_set());
    } else {
        let front = new.drop_last();
        lemma_merged(records, front);
        lemma_inserted(merged(records, front), new.last());
        assert(front.push(new.last()) == new);
        assert forall|r: Record| new.to_set().contains(r) == front.to_set().insert(
            new.last(),
        ).contains(r) by {
            if new.contains(r) {
                let i = choose|i: int| 0 <= i < new.len() && new[i] == r;
                if i < front.len() {
                    assert(front[i] == r);
                }
            }
            if front.contains(r) {
                let i = choose|i: int| 0 <= i < front.len() && front[i] == r;
                assert(new[i] == r);
            }
            if r == new.last() {
                assert(new[new.len() - 1] == r);
            }
        }
        assert(new.to_set() == front.to_set().insert(new.last()));
        assert(merged(records, new).to_set() == records.to_set().union(new.to_set()));
    }
}

/// Merging in records that are all registered already changes nothing.
pub proof fn lemma_merged_known(records: Seq<Record>, new: Seq<Record>)
    requires
        forall|i: int| 0 <= i < new.len() ==> records.contains(#[trigger] new[i]),
    ensures
        merged(records, new) == records,
    decreases new.len(),
{
    if new.len() > 0 {
        let front = new.drop_last();
        assert forall|i: int| 0 <= i < front.len() implies records.contains(
            #[trigger] front[i],
        ) by {
            assert(front[i] == new[i]);
        }
        lemma_merged_known(records, front);
        assert(records.contains(new[new.len() - 1]));
    }
}

/// Merging a list without duplicates into nothing gives the list back.
pub proof fn lemma_merged_into_nothing(records: Seq<Record>)
    requires
        records.no_duplicates(),
    ensures
        merged(Seq::empty(), records) == records,
    decreases records.len(),
{
    if records.len() > 0 {
        let front = records.drop_last();
        lemma_merged_into_nothing(front);
        assert(!front.contains(records.last()));
        assert(front.push(records.last()) == records);
    }
}

/// However often and in whatever order records are inserted into an empty
/// registry, it ends up holding each distinct record once: its size is the
/// number of distinct records inserted.
pub proof fn lemma_insertions_count_distinct_records(insertions: Seq<Record>)
    ensures
        merged(Seq::empty(), insertions).no_duplicates(),
        merged(Seq::empty(), insertions).to_set() == insertions.to_set(),
        merged(Seq::empty(), insertions).len() == insertions.to_set().len(),
{
    let empty = Seq::<Record>::empty();
    lemma_merged(empty, insertions);
    assert(empty.to_set() == Set::<Record>::empty());
    assert(empty.to_set().union(insertions.to_set()) == insertions.to_set());
    merged(empty, insertions).unique_seq_to_set();
}

/// Two runs of insertions that insert the same distinct records, in any
/// order and with any repetitions, give registries of the same records and
/// the same size.
pub proof fn lemma_insertion_order_is_immaterial(first: Seq<Record>, second: Seq<Record>)
    requires
        first.to_set() == second.to_set(),
    ensures
        merged(Seq::empty(), first).to_set() == merged(Seq::empty(), second).to_set(),
        merged(Seq::empty(), first).len() == merged(Seq::empty(), second).len(),
{
    lemma_insertions_count_distinct_records(first);
    lemma_insertions_count_distinct_records(second);
}

/// Merging the same records in a second time changes nothing.
pub proof fn lemma_merged_twice(records: Seq<Record>, new: Seq<Record>)
    requires
        records.no_duplicates(),
    ensures
        merged(merged(records, new), new) == merged(records, new),
{
    lemma_merged(records, new);
    let once = merged(records, new);
    assert forall|i: int| 0 <= i < new.len() implies once.contains(#[trigger] new[i]) by {
        assert(new.to_set().contains(new[i]));
        assert(once.to_set().contains(new[i]));
    }
    lemma_merged_known(once, new);
}

/// Installing is idempotent: any number of installs in a row from the same
/// build output with the same names leave the registry exactly as the first
/// one left it, and fail as the first one failed.
pub proof fn lemma_install_is_idempotent(
    records: Seq<Record>,
    output: BuildOutput,
    names: Seq<Seq<char>>,
    times: nat,
)
    requires
        records.no_duplicates(),
        times >= 1,
    ensures
        installed_repeatedly(records, output, names, times) == installed(records, output, names),
    decreases times,
{
    if times > 1 {
        lemma_install_is_idempotent(records, output, names, (times - 1) as nat);
        if installed(records, output, names) is Ok {
            lemma_merged_twice(records, install_records(output, names)->Ok_0);
        }
    }
}

} // verus!
