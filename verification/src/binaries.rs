//! Binary records: a logical name paired with the place the file lives.

use crate::error::HoistError;
use crate::paths::{join, join_path};
use vstd::prelude::*;
use vstd::std_specs::cmp::PartialEqSpecImpl;
use vstd::string::*;

verus! {

/// A record as the contracts see it: the name, then the location.
pub type Record = (Seq<char>, Seq<char>);

/// A named executable and its canonical location on disk.
///
/// Two records are the same record exactly when both the name and the
/// location agree, so one name may be registered at several locations.
#[derive(Debug)]
pub struct HoistedBinary {
    /// The binary name
    pub name: String,
    /// The binary location
    pub location: String,
}

impl View for HoistedBinary {
    type V = Record;

    open spec fn view(&self) -> Record {
        (self.name@, self.location@)
    }
}

impl Clone for HoistedBinary {
    fn clone(&self) -> (copy: Self)
        ensures
            copy == *self,
    {
        HoistedBinary { name: self.name.clone(), location: self.location.clone() }
    }
}

impl PartialEq for HoistedBinary {
    fn eq(&self, other: &Self) -> (same: bool) {
        self.name == other.name && self.location == other.location
    }
}

impl Eq for HoistedBinary {

}

impl PartialEqSpecImpl for HoistedBinary {
    open spec fn obeys_eq_spec() -> bool {
        true
    }

    open spec fn eq_spec(&self, other: &Self) -> bool {
        self.name@ == other.name@ && self.location@ == other.location@
    }
}

/// A file to copy and the path it is copied to.
#[derive(Debug, Clone, PartialEq, Eq)]
pub struct CopyOrder {
    /// The file to read.
    pub source: String,
    /// The file to create or replace.
    pub destination: String,
}

/// The views of a list of records, in the same order.
pub open spec fn views(binaries: Seq<HoistedBinary>) -> Seq<Record> {
    binaries.map_values(|b: HoistedBinary| b@)
}

/// A result holding a list of records as the contracts see it.
pub open spec fn records_outcome(outcome: Result<Vec<HoistedBinary>, HoistError>) -> Result<
    Seq<Record>,
    HoistError,
> {
    match outcome {
        Ok(list) => Ok(views(list@)),
        Err(e) => Err(e),
    }
}

impl HoistedBinary {
    /// Creates a new hoisted binary.
    pub fn new(name: String, location: String) -> (binary: Self)
        ensures
            binary@ == (name@, location@),
    {
        HoistedBinary { name, location }
    }

    /// Whether `self` and `other` are the same record.
    pub fn same_as(&self, other: &HoistedBinary) -> (same: bool)
        ensures
            same == (self@ == other@),
    {
        self.name == other.name && self.location == other.location
    }

    /// The line that shows this binary where the user picks among binaries.
    pub fn label(&self) -> (text: String)
        ensures
            text@ == label_of(self@),
    {
        let mut text = self.name.clone();
        text.append(" (");
        text.append(self.location.as_str());
        text.append(")");
        text
    }

    /// Says which file has to be copied where to place this binary in the
    /// current directory, which the caller looked up. Without a current
    /// directory this is an I/O error.
    pub fn copy_to_current_dir(&self, current_dir: Option<&str>) -> (order: Result<
        CopyOrder,
        HoistError,
    >)
        ensures
            current_dir is None ==> order == Err::<CopyOrder, HoistError>(HoistError::Io),
            current_dir matches Some(dir) ==> order matches Ok(o) && o.source@ == self.location@
                && o.destination@ == join(dir@, self.name@),
    {
        match current_dir {
            Some(dir) => Ok(self.copy_to_dir(dir)),
            None => Err(HoistError::Io),
        }
    }

    /// Says which file has to be copied where to place this binary in `dir`:
    /// the source is the recorded location, the destination is the binary's
    /// name resolved against `dir`.
    pub fn copy_to_dir(&self, dir: &str) -> (order: CopyOrder)
        ensures
            order.source@ == self.location@,
            order.destination@ == join(dir@, self.name@),
    {
        CopyOrder {
            source: self.location.clone(),
            destination: join_path(dir, self.name.as_str()),
        }
    }
}

/// How a record is shown where the user picks among records: the name, then
/// the location in round brackets.
pub open spec fn label_of(record: Record) -> Seq<char> {
    record.0 + " ("@ + record.1 + ")"@
}

/// Says which files have to be copied where to place each of `binaries` in
/// `dir`, in order.
pub fn copy_all_to_dir(binaries: &Vec<HoistedBinary>, dir: &str) -> (orders: Vec<CopyOrder>)
    ensures
        orders@.len() == binaries@.len(),
        forall|i: int|
            0 <= i < binaries@.len() ==> (#[trigger] orders@[i]).source@ == binaries@[i].location@
                && orders@[i].destination@ == join(dir@, binaries@[i].name@),
{
    let mut orders: Vec<CopyOrder> = Vec::new();
    let mut i: usize = 0;
    while i < binaries.len()
        invariant
            i <= binaries.len(),
            orders@.len() == i,
            forall|k: int|
                0 <= k < i ==> (#[trigger] orders@[k]).source@ == binaries@[k].location@
                    && orders@[k].destination@ == join(dir@, binaries@[k].name@),
        decreases binaries.len() - i,
    {
        orders.push(binaries[i].copy_to_dir(dir));
        i = i + 1;
    }
    orders
}

/// Copies a list of records.
pub fn clone_all(binaries: &Vec<HoistedBinary>) -> (copy: Vec<HoistedBinary>)
    ensures
        copy@ == binaries@,
{
    let mut copy: Vec<HoistedBinary> = Vec::new();
    let mut i: usize = 0;
    while i < binaries.len()
        invariant
            i <= binaries.len(),
            copy@ == binaries@.take(i as int),
        decreases binaries.len() - i,
    {
        copy.push(binaries[i].clone());
        i = i + 1;
    }
    copy
}

} // verus!
