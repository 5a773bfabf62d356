//! Hoisting: which registered binaries to copy for a request, and what to do
//! when a name is claimed by more than one of them.

use crate::binaries::{clone_all, records_outcome, views, HoistedBinary, Record};
use crate::error::{texts, HoistError};
use crate::registry::{merged, HoistRegistry};
use vstd::prelude::*;

verus! {

/// How many of `pool` are called `name`.
pub open spec fn count_named(pool: Seq<Record>, name: Seq<char>) -> nat
    decreases pool.len(),
{
    if pool.len() == 0 {
        0
    } else {
        count_named(pool.drop_last(), name) + if pool.last().0 == name {
            1nat
        } else {
            0nat
        }
    }
}

/// Whether one of `names` is the name of one of `records`.
pub open spec fn any_known(records: Seq<Record>, names: Seq<Seq<char>>) -> bool {
    exists|i: int| 0 <= i < names.len() && count_named(records, #[trigger] names[i]) > 0
}

/// Whether each of `names` is the name of one of `pool`.
pub open spec fn all_found(pool: Seq<Record>, names: Seq<Seq<char>>) -> bool {
    forall|i: int| 0 <= i < names.len() ==> count_named(pool, #[trigger] names[i]) > 0
}

/// The records to choose from: the registered ones, and with them the
/// binaries found in the current project where the registry knows none of
/// the requested names.
pub open spec fn candidates(records: Seq<Record>, names: Seq<Seq<char>>, local: Seq<Record>) -> Seq<
    Record,
> {
    if any_known(records, names) {
        records
    } else {
        merged(records, local)
    }
}

/// Whether `names` ask for `name`: a request without names asks for every
/// name.
pub open spec fn asked_for(names: Seq<Seq<char>>, name: Seq<char>) -> bool {
    names.len() == 0 || names.contains(name)
}

/// Whether `record` is requested by `names` and, among `pool`, shares its
/// name with another record (`ambiguous`) or with none (not `ambiguous`).
pub open spec fn is_chosen(
    record: Record,
    pool: Seq<Record>,
    names: Seq<Seq<char>>,
    ambiguous: bool,
) -> bool {
    asked_for(names, record.0) && (count_named(pool, record.0) > 1) == ambiguous
}

/// The records of `part` that are chosen, in order.
pub open spec fn chosen(
    part: Seq<Record>,
    pool: Seq<Record>,
    names: Seq<Seq<char>>,
    ambiguous: bool,
) -> Seq<Record>
    decreases part.len(),
{
    if part.len() == 0 {
        Seq::empty()
    } else {
        let before = chosen(part.drop_last(), pool, names, ambiguous);
        if is_chosen(part.last(), pool, names, ambiguous) {
            before.push(part.last())
        } else {
            before
        }
    }
}

/// The requested records whose name no other record of `pool` carries.
pub open spec fn unambiguous(pool: Seq<Record>, names: Seq<Seq<char>>) -> Seq<Record> {
    chosen(pool, pool, names, false)
}

/// The requested records whose name several records of `pool` carry.
pub open spec fn conflicting(pool: Seq<Record>, names: Seq<Seq<char>>) -> Seq<Record> {
    chosen(pool, pool, names, true)
}

/// What a plan holds, as the contracts see it.
pub enum PlanView {
    /// Nothing was requested by name: the caller has to choose.
    NeedsSelection { candidates: Seq<Record> },
    /// A requested name is carried by several records: the caller has to
    /// choose among them.
    Conflict { unambiguous: Seq<Record>, conflicting: Seq<Record> },
    /// These records are to be copied.
    Copy { records: Seq<Record> },
}

/// The plan for a request.
///
/// With no names, every candidate is asked for where the caller wants all
/// of them, else the caller has to choose. With names, each must be the
/// name of a candidate. Where each record that is asked for is alone with
/// its name, those records are copied; otherwise the conflict is reported.
pub open spec fn planned(
    records: Seq<Record>,
    names: Seq<Seq<char>>,
    local: Seq<Record>,
    take_all: bool,
) -> Result<PlanView, HoistError> {
    let pool = candidates(records, names, local);
    if names.len() == 0 && !take_all {
        Ok(PlanView::NeedsSelection { candidates: pool })
    } else if !all_found(pool, names) {
        Err(HoistError::BinaryNotFound)
    } else if conflicting(pool, names).len() == 0 {
        Ok(PlanView::Copy { records: unambiguous(pool, names) })
    } else {
        Ok(
            PlanView::Conflict {
                unambiguous: unambiguous(pool, names),
                conflicting: conflicting(pool, names),
            },
        )
    }
}

/// Whether each of `picked` is one of `offered`.
pub open spec fn all_offered(picked: Seq<Record>, offered: Seq<Record>) -> bool {
    forall|i: int| 0 <= i < picked.len() ==> offered.contains(#[trigger] picked[i])
}

/// The records to copy once the caller has picked: what the plan copies
/// anyway, followed by the picked ones. To pick a record that was not
/// offered is to ask for a binary that is not there.
pub open spec fn resolved(plan: PlanView, picked: Seq<Record>) -> Result<Seq<Record>, HoistError> {
    match plan {
        PlanView::Copy { records } => Ok(records),
        PlanView::NeedsSelection { candidates } => if all_offered(picked, candidates) {
            Ok(picked)
        } else {
            Err(HoistError::BinaryNotFound)
        },
        PlanView::Conflict { unambiguous, conflicting } => if all_offered(picked, conflicting) {
            Ok(unambiguous + picked)
        } else {
            Err(HoistError::BinaryNotFound)
        },
    }
}

/// What is to be done for a hoist request.
#[derive(Debug, Clone, PartialEq, Eq)]
pub enum HoistPlan {
    /// Nothing was requested by name: the caller has to choose among the
    /// candidates.
    NeedsSelection {
        /// Everything that can be hoisted.
        candidates: Vec<HoistedBinary>,
    },
    /// A requested name is carried by several records: the caller has to
    /// choose among the conflicting ones.
    Conflict {
        /// The requested records that are alone with their name.
        unambiguous: Vec<HoistedBinary>,
        /// The requested records that share their name with another.
        conflicting: Vec<HoistedBinary>,
    },
    /// These records are to be copied.
    Copy {
        /// The records to copy, in order.
        records: Vec<HoistedBinary>,
    },
}

impl View for HoistPlan {
    type V = PlanView;

    open spec fn view(&self) -> PlanView {
        match self {
            HoistPlan::NeedsSelection { candidates } => PlanView::NeedsSelection {
                candidates: views(candidates@),
            },
            HoistPlan::Conflict { unambiguous, conflicting } => PlanView::Conflict {
                unambiguous: views(unambiguous@),
                conflicting: views(conflicting@),
            },
            HoistPlan::Copy { records } => PlanView::Copy { records: views(records@) },
        }
    }
}

/// A plan or an error, as the contracts see it.
pub open spec fn plan_outcome(outcome: Result<HoistPlan, HoistError>) -> Result<
    PlanView,
    HoistError,
> {
    match outcome {
        Ok(plan) => Ok(plan@),
        Err(e) => Err(e),
    }
}

/// Decides [`asked_for`].
fn is_requested(names: &Vec<String>, name: &String) -> (found: bool)
    ensures
        found == asked_for(texts(names@), name@),
{
    if names.len() == 0 {
        return true;
    }
    let ghost all = texts(names@);
    let mut i: usize = 0;
    while i < names.len()
        invariant
            i <= names.len(),
            all == texts(names@),
            forall|j: int| 0 <= j < i ==> all[j] != name@,
        decreases names.len() - i,
    {
        if names[i] == *name {
            assert(all[i as int] == name@);
            return true;
        }
        i = i + 1;
    }
    false
}

/// Computes [`count_named`].
fn count_called(pool: &Vec<HoistedBinary>, name: &String) -> (count: usize)
    ensures
        count == count_named(views(pool@), name@),
{
    let ghost all = views(pool@);
    let mut count: usize = 0;
    let mut i: usize = 0;
    while i < pool.len()
        invariant
            i <= pool.len(),
            all == views(pool@),
            count <= i,
            count == count_named(all.take(i as int), name@),
        decreases pool.len() - i,
    {
        assert(all.take(i as int + 1).drop_last() == all.take(i as int));
        if pool[i].name == *name {
            count = count + 1;
        }
        i = i + 1;
    }
    assert(all.take(i as int) == all);
    count
}

/// Computes [`chosen`] over the whole pool.
fn choose_from(pool: &Vec<HoistedBinary>, names: &Vec<String>, ambiguous: bool) -> (picked: Vec<
    HoistedBinary,
>)
    ensures
        views(picked@) == chosen(views(pool@), views(pool@), texts(names@), ambiguous),
{
    let ghost all = views(pool@);
    let mut picked: Vec<HoistedBinary> = Vec::new();
    let mut i: usize = 0;
    while i < pool.len()
        invariant
            i <= pool.len(),
            all == views(pool@),
            views(picked@) == chosen(all.take(i as int), all, texts(names@), ambiguous),
        decreases pool.len() - i,
    {
        assert(all.take(i as int + 1).drop_last() == all.take(i as int));
        if is_requested(names, &pool[i].name) {
            let shared = count_called(pool, &pool[i].name) > 1;
            if shared == ambiguous {
                let binary = pool[i].clone();
                picked.push(binary);
            }
        }
        i = i + 1;
    }
    assert(all.take(i as int) == all);
    picked
}

/// Whether `binary` is one of `list`.
fn is_among(list: &Vec<HoistedBinary>, binary: &HoistedBinary) -> (found: bool)
    ensures
        found == views(list@).contains(binary@),
{
    let ghost all = views(list@);
    let mut i: usize = 0;
    while i < list.len()
        invariant
            i <= list.len(),
            all == views(list@),
            forall|j: int| 0 <= j < i ==> all[j] != binary@,
        decreases list.len() - i,
    {
        if list[i].same_as(binary) {
            assert(all[i as int] == binary@);
            return true;
        }
        i = i + 1;
    }
    false
}

/// Decides [`all_offered`].
fn are_offered(picked: &Vec<HoistedBinary>, offered: &Vec<HoistedBinary>) -> (all: bool)
    ensures
        all == all_offered(views(picked@), views(offered@)),
{
    let ghost wanted = views(picked@);
    let mut i: usize = 0;
    while i < picked.len()
        invariant
            i <= picked.len(),
            wanted == views(picked@),
            forall|j: int| 0 <= j < i ==> views(offered@).contains(#[trigger] wanted[j]),
        decreases picked.len() - i,
    {
        if !is_among(offered, &picked[i]) {
            assert(!views(offered@).contains(wanted[i as int]));
            return false;
        }
        i = i + 1;
    }
    true
}

impl HoistPlan {
    /// The records to copy once the caller has picked among what the plan
    /// offered: what the plan copies anyway, followed by the picked ones.
    /// A plan that offers nothing to pick from copies its records, whatever
    /// was picked. Picking a record that was not offered finds no binary.
    pub fn select(&self, picked: &Vec<HoistedBinary>) -> (selection: Result<
        Vec<HoistedBinary>,
        HoistError,
    >)
        ensures
            records_outcome(selection) == resolved(self@, views(picked@)),
    {
        match self {
            HoistPlan::Copy { records } => Ok(clone_all(records)),
            HoistPlan::NeedsSelection { candidates } => {
                if are_offered(picked, candidates) {
                    Ok(clone_all(picked))
                } else {
                    Err(HoistError::BinaryNotFound)
                }
            },
            HoistPlan::Conflict { unambiguous, conflicting } => {
                if are_offered(picked, conflicting) {
                    let mut selection = clone_all(unambiguous);
                    let mut rest = clone_all(picked);
                    proof {
                        assert(views(selection@ + rest@) == views(selection@) + views(rest@));
                    }
                    selection.append(&mut rest);
                    Ok(selection)
                } else {
                    Err(HoistError::BinaryNotFound)
                }
            },
        }
    }
}

impl HoistRegistry {
    /// Whether the current project has to be scanned before hoisting
    /// `binaries`: it has where the registry knows none of the names.
    pub fn wants_local_scan(&self, binaries: &Vec<String>) -> (wanted: bool)
        ensures
            wanted == !any_known(self@, texts(binaries@)),
    {
        let pool = self.list();
        let ghost names = texts(binaries@);
        let mut i: usize = 0;
        while i < binaries.len()
            invariant
                i <= binaries.len(),
                names == texts(binaries@),
                views(pool@) == self@,
                forall|j: int| 0 <= j < i ==> count_named(self@, #[trigger] names[j]) == 0,
            decreases binaries.len() - i,
        {
            if count_called(&pool, &binaries[i]) > 0 {
                assert(count_named(self@, names[i as int]) > 0);
                return false;
            }
            i = i + 1;
        }
        true
    }

    /// Plans the hoisting of `binaries` from the registry into scope.
    ///
    /// `local` holds the binaries of the current project; they are candidates
    /// only where the registry knows none of the names. `take_all` says what
    /// a request without names means: everything, or a choice by the caller.
    /// A name that no candidate carries finds no binary. A name that is
    /// asked for and that several candidates carry is a conflict, which the
    /// plan reports without picking one of them.
    pub fn hoist(
        &self,
        binaries: &Vec<String>,
        local: &Vec<HoistedBinary>,
        take_all: bool,
    ) -> (plan: Result<HoistPlan, HoistError>)
        requires
            self.wf(),
        ensures
            plan_outcome(plan) == planned(self@, texts(binaries@), views(local@), take_all),
    {
        let mut pool = self.clone();
        if self.wants_local_scan(binaries) {
            pool.insert_all(clone_all(local));
        }
        let pool = pool.list();
        let ghost names = texts(binaries@);
        if binaries.len() == 0 && !take_all {
            return Ok(HoistPlan::NeedsSelection { candidates: pool });
        }
        let mut i: usize = 0;
        while i < binaries.len()
            invariant
                i <= binaries.len(),
                names == texts(binaries@),
                views(pool@) == candidates(self@, names, views(local@)),
                forall|j: int| 0 <= j < i ==> count_named(views(pool@), #[trigger] names[j]) > 0,
            decreases binaries.len() - i,
        {
            if count_called(&pool, &binaries[i]) == 0 {
                assert(count_named(views(pool@), names[i as int]) == 0);
                return Err(HoistError::BinaryNotFound);
            }
            i = i + 1;
        }
        let unambiguous = choose_from(&pool, binaries, false);
        let conflicting = choose_from(&pool, binaries, true);
        if conflicting.len() == 0 {
            Ok(HoistPlan::Copy { records: unambiguous })
        } else {
            Ok(HoistPlan::Conflict { unambiguous, conflicting })
        }
    }
}

/// A name is counted at least once where a record carries it, and at least
/// twice where a second one does.
pub proof fn lemma_count_named(pool: Seq<Record>, name: Seq<char>, first: int, second: int)
    requires
        0 <= first <= second < pool.len(),
        pool[first].0 == name,
        pool[second].0 == name,
    ensures
        count_named(pool, name) >= 1,
        first < second ==> count_named(pool, name) >= 2,
    decreases pool.len(),
{
    let front = pool.drop_last();
    if second < front.len() {
        assert(front[first] == pool[first] && front[second] == pool[second]);
        lemma_count_named(front, name, first, second);
    } else if first < second {
        assert(front[first] == pool[first]);
        lemma_count_named(front, name, first, first);
    }
}

/// A record is chosen from a part of the pool exactly where it is in that
/// part and meets the condition.
pub proof fn lemma_chosen(
    part: Seq<Record>,
    pool: Seq<Record>,
    names: Seq<Seq<char>>,
    ambiguous: bool,
    r: Record,
)
    ensures
        chosen(part, pool, names, ambiguous).contains(r) <==> part.contains(r) && is_chosen(
            r,
            pool,
            names,
            ambiguous,
        ),
    decreases part.len(),
{
    let all = chosen(part, pool, names, ambiguous);
    if part.len() > 0 {
        let front = part.drop_last();
        let before = chosen(front, pool, names, ambiguous);
        lemma_chosen(front, pool, names, ambiguous, r);
        if all.contains(r) {
            let i = choose|i: int| 0 <= i < all.len() && all[i] == r;
            if i < before.len() {
                assert(before[i] == r);
                assert(before.contains(r));
                let k = choose|k: int| 0 <= k < front.len() && front[k] == r;
                assert(part[k] == r);
            } else {
                assert(part[part.len() - 1] == r);
            }
        }
        if part.contains(r) && is_chosen(r, pool, names, ambiguous) {
            let k = choose|k: int| 0 <= k < part.len() && part[k] == r;
            if k < front.len() {
                assert(front[k] == r);
                assert(before.contains(r));
                let i = choose|i: int| 0 <= i < before.len() && before[i] == r;
                assert(all[i] == r);
            } else {
                assert(all[all.len() - 1] == r);
            }
        }
    }
}

/// A requested candidate is in exactly one of the two parts of a plan:
/// alone with its name, or in conflict. The parts hold nothing else.
pub proof fn lemma_plan_parts(pool: Seq<Record>, names: Seq<Seq<char>>, r: Record)
    ensures
        pool.contains(r) && asked_for(names, r.0) ==> (unambiguous(pool, names).contains(r)
            <==> !conflicting(pool, names).contains(r)),
        unambiguous(pool, names).contains(r) ==> pool.contains(r) && asked_for(names, r.0)
            && count_named(pool, r.0) == 1,
        conflicting(pool, names).contains(r) ==> pool.contains(r) && asked_for(names, r.0)
            && count_named(pool, r.0) > 1,
{
    lemma_chosen(pool, pool, names, false, r);
    lemma_chosen(pool, pool, names, true, r);
    if unambiguous(pool, names).contains(r) {
        let i = choose|i: int| 0 <= i < pool.len() && pool[i] == r;
        lemma_count_named(pool, r.0, i, i);
    }
}

/// A requested name that two registered records carry is a conflict: the
/// plan reports both records as conflicting and copies neither of them as
/// unambiguous, whatever else is requested, provided each requested name is
/// the name of a candidate.
pub proof fn lemma_shared_name_is_a_conflict(
    records: Seq<Record>,
    names: Seq<Seq<char>>,
    local: Seq<Record>,
    take_all: bool,
    first: int,
    second: int,
)
    requires
        0 <= first < second < records.len(),
        records[first].0 == records[second].0,
        names.contains(records[first].0),
        all_found(candidates(records, names, local), names),
    ensures
        planned(records, names, local, take_all) matches Ok(
            PlanView::Conflict { unambiguous, conflicting },
        ) && conflicting.contains(records[first]) && conflicting.contains(records[second])
            && !unambiguous.contains(records[first]) && !unambiguous.contains(records[second]),
{
    let name = records[first].0;
    lemma_count_named(records, name, first, second);
    let n = choose|n: int| 0 <= n < names.len() && names[n] == name;
    assert(count_named(records, names[n]) > 0);
    assert(any_known(records, names));
    let pool = candidates(records, names, local);
    assert(pool == records);
    lemma_chosen(pool, pool, names, true, records[first]);
    lemma_chosen(pool, pool, names, false, records[first]);
    lemma_chosen(pool, pool, names, true, records[second]);
    lemma_chosen(pool, pool, names, false, records[second]);
    assert(pool.contains(records[first]) && pool.contains(records[second]));
    assert(is_chosen(records[first], pool, names, true));
    assert(is_chosen(records[second], pool, names, true));
    assert(conflicting(pool, names).contains(records[first]));
    assert(conflicting(pool, names).len() > 0);
}

/// A registry that holds one name at two locations cannot hoist that name
/// without the caller's choice: a request for just that name is a conflict
/// between the two records, whether or not the caller asked for everything.
pub proof fn lemma_same_name_at_two_locations_conflicts(
    records: Seq<Record>,
    name: Seq<char>,
    here: Seq<char>,
    there: Seq<char>,
    local: Seq<Record>,
    take_all: bool,
)
    requires
        records.contains((name, here)),
        records.contains((name, there)),
        here != there,
    ensures
        planned(records, seq![name], local, take_all) matches Ok(
            PlanView::Conflict { unambiguous, conflicting },
        ) && conflicting.contains((name, here)) && conflicting.contains((name, there))
            && unambiguous.len() == 0,
{
    let names = seq![name];
    let i = choose|i: int| 0 <= i < records.len() && records[i] == (name, here);
    let j = choose|j: int| 0 <= j < records.len() && records[j] == (name, there);
    let first = if i < j {
        i
    } else {
        j
    };
    let second = if i < j {
        j
    } else {
        i
    };
    assert(names[0] == name);
    lemma_count_named(records, name, first, second);
    assert(count_named(records, names[0]) > 0);
    assert(any_known(records, names));
    assert(candidates(records, names, local) == records);
    assert forall|k: int| 0 <= k < names.len() implies count_named(records, #[trigger] names[k])
        > 0 by {
        assert(names[k] == name);
    }
    lemma_shared_name_is_a_conflict(records, names, local, take_all, first, second);
    let alone = unambiguous(records, names);
    if alone.len() > 0 {
        let r = alone[0];
        assert(alone.contains(r));
        lemma_plan_parts(records, names, r);
        let k = choose|k: int| 0 <= k < names.len() && names[k] == r.0;
        assert(r.0 == name);
    }
}

} // verus!
