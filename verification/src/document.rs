//! The stored form of the registry: a document with one list of entries,
//! which is left out altogether when the registry is empty.

use crate::binaries::{views, HoistedBinary, Record};
use crate::error::HoistError;
use crate::registry::{lemma_merged, lemma_merged_into_nothing, merged, HoistRegistry};
use vstd::prelude::*;

verus! {

/// An entry as the contracts see it: the name and the location, each of
/// which may be missing.
pub type EntryView = (Option<Seq<char>>, Option<Seq<char>>);

/// A document as the contracts see it: the list of entries, or `None` where
/// the document has no list.
pub type DocumentView = Option<Seq<EntryView>>;

/// One entry of a stored registry.
#[derive(Debug, Clone, PartialEq, Eq)]
pub struct DocumentEntry {
    /// The binary name, if the entry gives one.
    pub name: Option<String>,
    /// The binary location, if the entry gives one.
    pub location: Option<String>,
}

/// The view of an optional string.
pub open spec fn optional_text(text: Option<String>) -> Option<Seq<char>> {
    match text {
        Some(t) => Some(t@),
        None => None,
    }
}

impl View for DocumentEntry {
    type V = EntryView;

    open spec fn view(&self) -> EntryView {
        (optional_text(self.name), optional_text(self.location))
    }
}

/// The views of a list of entries, in the same order.
pub open spec fn entry_views(entries: Seq<DocumentEntry>) -> Seq<EntryView> {
    entries.map_values(|e: DocumentEntry| e@)
}

/// A stored registry.
#[derive(Debug, Clone, PartialEq, Eq)]
pub struct RegistryDocument {
    /// The list of hoisted binaries; `None` where the document has no such
    /// list.
    pub binaries: Option<Vec<DocumentEntry>>,
}

impl View for RegistryDocument {
    type V = DocumentView;

    open spec fn view(&self) -> DocumentView {
        match self.binaries {
            Some(entries) => Some(entry_views(entries@)),
            None => None,
        }
    }
}

/// The entry that stores `record`.
pub open spec fn entry_of(record: Record) -> EntryView {
    (Some(record.0), Some(record.1))
}

/// The entries that store `records`, in order.
pub open spec fn entries_of(records: Seq<Record>) -> Seq<EntryView> {
    records.map_values(|r: Record| entry_of(r))
}

/// The records that `entries` give, in order. A registry is corrupt where
/// an entry lacks its name or its location.
pub open spec fn records_in(entries: Seq<EntryView>) -> Result<Seq<Record>, HoistError>
    decreases entries.len(),
{
    if entries.len() == 0 {
        Ok(Seq::empty())
    } else {
        match records_in(entries.drop_last()) {
            Err(e) => Err(e),
            Ok(before) => match entries.last() {
                (Some(name), Some(location)) => Ok(before.push((name, location))),
                _ => Err(HoistError::CorruptRegistry),
            },
        }
    }
}

/// The registry that a document stores: empty where the document has no
/// list, else the records of its entries, each kept once.
pub open spec fn decoded(document: DocumentView) -> Result<Seq<Record>, HoistError> {
    match document {
        None => Ok(Seq::empty()),
        Some(entries) => match records_in(entries) {
            Ok(records) => Ok(merged(Seq::empty(), records)),
            Err(e) => Err(e),
        },
    }
}

/// The document that stores `records`: without a list where there are
/// none, else with one entry for each, in order.
pub open spec fn encoded(records: Seq<Record>) -> DocumentView {
    if records.len() == 0 {
        None
    } else {
        Some(entries_of(records))
    }
}

impl HoistRegistry {
    /// Build a new [HoistRegistry] from the stored document.
    ///
    /// A document without a list is an empty registry. A record that the
    /// list holds several times is registered once. An entry without a name
    /// or without a location makes the registry corrupt.
    pub fn new(document: &RegistryDocument) -> (registry: Result<HoistRegistry, HoistError>)
        ensures
            match decoded(document@) {
                Ok(records) => registry matches Ok(r) && r@ == records && r.wf(),
                Err(e) => registry matches Err(failure) && failure == e,
            },
    {
        let mut registry = HoistRegistry::default();
        match &document.binaries {
            None => Ok(registry),
            Some(entries) => {
                let ghost all = entry_views(entries@);
                let mut i: usize = 0;
                while i < entries.len()
                    invariant
                        i <= entries.len(),
                        all == entry_views(entries@),
                        document@ == Some(all),
                        registry.wf(),
                        records_in(all.take(i as int)) matches Ok(records) && registry@ == merged(
                            Seq::empty(),
                            records,
                        ),
                    decreases entries.len() - i,
                {
                    assert(all.take(i as int + 1).drop_last() == all.take(i as int));
                    match (&entries[i].name, &entries[i].location) {
                        (Some(name), Some(location)) => {
                            proof {
                                let before = records_in(all.take(i as int))->Ok_0;
                                let record = (name@, location@);
                                assert(before.push(record).drop_last() == before);
                            }
                            registry.insert(HoistedBinary::new(name.clone(), location.clone()));
                        },
                        _ => {
                            proof {
                                assert(records_in(all.take(i as int + 1)) is Err);
                                lemma_corrupt_for_good(all, i as int + 1);
                            }
                            return Err(HoistError::CorruptRegistry);
                        },
                    }
                    i = i + 1;
                }
                assert(all.take(i as int) == all);
                Ok(registry)
            },
        }
    }

    /// Writes the [HoistRegistry] as a document: one entry for each record,
    /// in order, and no list at all where the registry is empty.
    pub fn write(&self) -> (document: RegistryDocument)
        ensures
            document@ == encoded(self@),
    {
        let binaries = self.list();
        if binaries.len() == 0 {
            return RegistryDocument { binaries: None };
        }
        let mut entries: Vec<DocumentEntry> = Vec::new();
        let mut i: usize = 0;
        while i < binaries.len()
            invariant
                i <= binaries.len(),
                entries@.len() == i,
                forall|j: int| 0 <= j < i ==> (#[trigger] entries@[j])@ == entry_of(binaries@[j]@),
            decreases binaries.len() - i,
        {
            entries.push(
                DocumentEntry {
                    name: Some(binaries[i].name.clone()),
                    location: Some(binaries[i].location.clone()),
                },
            );
            i = i + 1;
        }
        RegistryDocument { binaries: Some(entries) }
    }
}

/// Once a prefix of the entries is corrupt, so is the whole list.
proof fn lemma_corrupt_for_good(entries: Seq<EntryView>, upto: int)
    requires
        0 <= upto <= entries.len(),
        records_in(entries.take(upto)) is Err,
    ensures
        records_in(entries) == records_in(entries.take(upto)),
    decreases entries.len() - upto,
{
    if upto == entries.len() {
        assert(entries.take(upto) == entries);
    } else {
        assert(entries.take(upto + 1).drop_last() == entries.take(upto));
        lemma_corrupt_for_good(entries, upto + 1);
    }
}

/// The entries that store a list of records give that list back.
pub proof fn lemma_entries_give_their_records(records: Seq<Record>)
    ensures
        records_in(entries_of(records)) == Ok::<Seq<Record>, HoistError>(records),
    decreases records.len(),
{
    let entries = entries_of(records);
    if records.len() > 0 {
        let front = records.drop_last();
        lemma_entries_give_their_records(front);
        assert(entries.drop_last() == entries_of(front));
        assert(entries.last() == entry_of(records.last()));
        assert(records_in(entries.drop_last()) == Ok::<Seq<Record>, HoistError>(front));
        assert(front.push((records.last().0, records.last().1)) == records);
    } else {
        assert(records == Seq::<Record>::empty());
    }
}

/// Writing a registry and reading the document back gives the registry
/// again, in the same order.
pub proof fn lemma_written_registry_reads_back(records: Seq<Record>)
    requires
        records.no_duplicates(),
    ensures
        decoded(encoded(records)) == Ok::<Seq<Record>, HoistError>(records),
{
    if records.len() > 0 {
        lemma_entries_give_their_records(records);
        lemma_merged_into_nothing(records);
    } else {
        assert(records == Seq::<Record>::empty());
    }
}

/// Saving what was just loaded changes nothing: the registry read from a
/// document, written and read again, is the same registry.
pub proof fn lemma_save_after_load_changes_nothing(document: DocumentView)
    requires
        decoded(document) is Ok,
    ensures
        decoded(encoded(decoded(document)->Ok_0)) == decoded(document),
{
    let records = decoded(document)->Ok_0;
    if document is Some {
        lemma_merged(Seq::empty(), records_in(document->0)->Ok_0);
    }
    lemma_written_registry_reads_back(records);
}

/// An empty registry is stored without a list, and a document without a
/// list is read as the empty registry.
pub proof fn lemma_empty_registry_is_stored_without_a_list()
    ensures
        encoded(Seq::<Record>::empty()) == None::<Seq<EntryView>>,
        decoded(None) == Ok::<Seq<Record>, HoistError>(Seq::empty()),
        decoded(encoded(Seq::<Record>::empty())) == Ok::<Seq<Record>, HoistError>(Seq::empty()),
{
}

} // verus!
