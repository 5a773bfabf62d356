//! The course of a hoist, step by step.
//!
//! A hoist alternates between work on the outside (loading the registry,
//! scanning the current project, asking the user, copying files) and
//! decisions. The decisions are made here: a state says what the caller has
//! to do next, and the outcome of that work, handed back as an event, leads
//! to the next state.

use crate::binaries::{views, HoistedBinary, Record};
use crate::error::{texts, HoistError};
use crate::hoist::{
    any_known, count_named, lemma_count_named, lemma_same_name_at_two_locations_conflicts, planned,
    resolved, HoistPlan, PlanView,
};
use crate::registry::HoistRegistry;
use vstd::prelude::*;

verus! {

/// Where a hoist stands.
#[derive(Debug, Clone, PartialEq, Eq)]
pub enum HoistState {
    /// Nothing is known yet: the registry has to be loaded.
    Start,
    /// The registry is loaded and knows none of the requested names: the
    /// current project has to be scanned for candidates.
    Loaded {
        /// The registry as loaded.
        registry: HoistRegistry,
    },
    /// The candidates are gathered, and the request cannot be settled
    /// without the caller: a selection is awaited.
    AwaitingSelection {
        /// What was found, and what there is to choose from.
        plan: HoistPlan,
    },
    /// The records to copy are settled: they have to be copied.
    Unambiguous {
        /// The records to copy, in order.
        records: Vec<HoistedBinary>,
    },
    /// Everything was copied.
    Copied,
    /// The hoist was given up.
    Aborted {
        /// Why.
        error: HoistError,
    },
}

/// What happened on the outside.
#[derive(Debug, Clone, PartialEq, Eq)]
pub enum HoistEvent {
    /// The registry was loaded.
    RegistryLoaded(HoistRegistry),
    /// The current project was scanned; these are its binaries.
    ProjectScanned(Vec<HoistedBinary>),
    /// The caller picked these among what was offered.
    Selected(Vec<HoistedBinary>),
    /// There is nobody to ask for a selection.
    CannotAsk,
    /// The records were copied.
    CopyDone,
    /// The work failed.
    Failed(HoistError),
}

/// What the caller has to do next.
#[derive(Debug, Clone, PartialEq, Eq)]
pub enum HoistAction {
    /// Load the registry and report it.
    LoadRegistry,
    /// Scan the current project and report its binaries.
    ScanProject,
    /// Let the user pick among these records and report the selection.
    Ask(Vec<HoistedBinary>),
    /// Copy these records into the current directory, in order, and stop at
    /// the first that fails.
    Copy(Vec<HoistedBinary>),
    /// Nothing is left to do: the hoist succeeded.
    Finish,
    /// Nothing is left to do: the hoist failed.
    Fail(HoistError),
}

/// A state as the contracts see it.
pub enum StateView {
    Start,
    Loaded { records: Seq<Record> },
    AwaitingSelection { plan: PlanView },
    Unambiguous { records: Seq<Record> },
    Copied,
    Aborted { error: HoistError },
}

/// An event as the contracts see it.
pub enum EventView {
    RegistryLoaded(Seq<Record>),
    ProjectScanned(Seq<Record>),
    Selected(Seq<Record>),
    CannotAsk,
    CopyDone,
    Failed(HoistError),
}

/// An action as the contracts see it.
pub enum StepView {
    LoadRegistry,
    ScanProject,
    Ask(Seq<Record>),
    Copy(Seq<Record>),
    Finish,
    Fail(HoistError),
}

impl View for HoistState {
    type V = StateView;

    open spec fn view(&self) -> StateView {
        match self {
            HoistState::Start => StateView::Start,
            HoistState::Loaded { registry } => StateView::Loaded { records: registry@ },
            HoistState::AwaitingSelection { plan } => StateView::AwaitingSelection { plan: plan@ },
            HoistState::Unambiguous { records } => StateView::Unambiguous {
                records: views(records@),
            },
            HoistState::Copied => StateView::Copied,
            HoistState::Aborted { error } => StateView::Aborted { error: *error },
        }
    }
}

impl View for HoistEvent {
    type V = EventView;

    open spec fn view(&self) -> EventView {
        match self {
            HoistEvent::RegistryLoaded(registry) => EventView::RegistryLoaded(registry@),
            HoistEvent::ProjectScanned(local) => EventView::ProjectScanned(views(local@)),
            HoistEvent::Selected(picked) => EventView::Selected(views(picked@)),
            HoistEvent::CannotAsk => EventView::CannotAsk,
            HoistEvent::CopyDone => EventView::CopyDone,
            HoistEvent::Failed(error) => EventView::Failed(*error),
        }
    }
}

impl View for HoistAction {
    type V = StepView;

    open spec fn view(&self) -> StepView {
        match self {
            HoistAction::LoadRegistry => StepView::LoadRegistry,
            HoistAction::ScanProject => StepView::ScanProject,
            HoistAction::Ask(offered) => StepView::Ask(views(offered@)),
            HoistAction::Copy(records) => StepView::Copy(views(records@)),
            HoistAction::Finish => StepView::Finish,
            HoistAction::Fail(error) => StepView::Fail(*error),
        }
    }
}

/// What a plan offers to choose from: the candidates, or the records in
/// conflict; nothing where it needs no choice.
pub open spec fn offered_by(plan: PlanView) -> Seq<Record> {
    match plan {
        PlanView::NeedsSelection { candidates } => candidates,
        PlanView::Conflict { unambiguous, conflicting } => conflicting,
        PlanView::Copy { records } => Seq::empty(),
    }
}

/// What the caller has to do in a state.
pub open spec fn action_in(state: StateView) -> StepView {
    match state {
        StateView::Start => StepView::LoadRegistry,
        StateView::Loaded { records } => StepView::ScanProject,
        StateView::AwaitingSelection { plan } => StepView::Ask(offered_by(plan)),
        StateView::Unambiguous { records } => StepView::Copy(records),
        StateView::Copied => StepView::Finish,
        StateView::Aborted { error } => StepView::Fail(error),
    }
}

/// The state that the plan for a request leads to: an error gives the hoist
/// up, a plan to copy settles the records, any other plan awaits the
/// caller's selection.
pub open spec fn settled(plan: Result<PlanView, HoistError>) -> StateView {
    match plan {
        Err(error) => StateView::Aborted { error },
        Ok(PlanView::Copy { records }) => StateView::Unambiguous { records },
        Ok(plan) => StateView::AwaitingSelection { plan },
    }
}

/// The state after a selection among what `plan` offers.
pub open spec fn selected_from(plan: PlanView, picked: Seq<Record>) -> StateView {
    match resolved(plan, picked) {
        Ok(records) => StateView::Unambiguous { records },
        Err(error) => StateView::Aborted { error },
    }
}

/// The state when nobody can be asked: a conflict stays a conflict, and a
/// request without names stays without an answer.
pub open spec fn unanswered(plan: PlanView) -> StateView {
    match plan {
        PlanView::Conflict { unambiguous, conflicting } => StateView::Aborted {
            error: HoistError::Conflict,
        },
        PlanView::NeedsSelection { candidates } => StateView::Aborted {
            error: HoistError::SelectionNeeded,
        },
        PlanView::Copy { records } => StateView::Unambiguous { records },
    }
}

/// The state that follows `state` on `event`, for the request `names`.
///
/// The two final states are left by no event. Before that, a failure gives
/// the hoist up. Beyond that each state moves on the one kind of event it
/// waits for, and stays as it is on any other:
/// - at the start the registry arrives; where it knows one of the names the
///   request is planned at once, else the project has to be scanned;
/// - after the scan the request is planned with what was found;
/// - a selection settles the records to copy, or names a record that was
///   not offered; where nobody can be asked the hoist is given up;
/// - once the records are copied the hoist is done.
pub open spec fn advanced(
    state: StateView,
    event: EventView,
    names: Seq<Seq<char>>,
    take_all: bool,
) -> StateView {
    match (state, event) {
        (StateView::Copied, _) => state,
        (StateView::Aborted { error }, _) => state,
        (_, EventView::Failed(error)) => StateView::Aborted { error },
        (StateView::Start, EventView::RegistryLoaded(records)) => if any_known(records, names) {
            settled(planned(records, names, Seq::empty(), take_all))
        } else {
            StateView::Loaded { records }
        },
        (StateView::Loaded { records }, EventView::ProjectScanned(local)) => settled(
            planned(records, names, local, take_all),
        ),
        (StateView::AwaitingSelection { plan }, EventView::Selected(picked)) => selected_from(
            plan,
            picked,
        ),
        (StateView::AwaitingSelection { plan }, EventView::CannotAsk) => unanswered(plan),
        (StateView::Unambiguous { records }, EventView::CopyDone) => StateView::Copied,
        _ => state,
    }
}

/// Computes [`settled`].
fn settle(plan: Result<HoistPlan, HoistError>) -> (state: HoistState)
    ensures
        state@ == settled(crate::hoist::plan_outcome(plan)),
        state.wf(),
{
    match plan {
        Err(error) => HoistState::Aborted { error },
        Ok(HoistPlan::Copy { records }) => HoistState::Unambiguous { records },
        Ok(plan) => HoistState::AwaitingSelection { plan },
    }
}

impl HoistState {
    /// The registry that the state holds, if any, has no duplicates.
    pub open spec fn wf(&self) -> bool {
        self matches HoistState::Loaded { registry } ==> registry.wf()
    }

    /// Whether the hoist is over.
    pub fn is_final(&self) -> (over: bool)
        ensures
            over == (self@ is Copied || self@ is Aborted),
    {
        match self {
            HoistState::Copied => true,
            HoistState::Aborted { .. } => true,
            _ => false,
        }
    }

    /// What the caller has to do next.
    pub fn action(&self) -> (action: HoistAction)
        ensures
            action@ == action_in(self@),
    {
        match self {
            HoistState::Start => HoistAction::LoadRegistry,
            HoistState::Loaded { .. } => HoistAction::ScanProject,
            HoistState::AwaitingSelection { plan } => match plan {
                HoistPlan::NeedsSelection { candidates } => HoistAction::Ask(
                    crate::binaries::clone_all(candidates),
                ),
                HoistPlan::Conflict { conflicting, .. } => HoistAction::Ask(
                    crate::binaries::clone_all(conflicting),
                ),
                HoistPlan::Copy { .. } => {
                    let nothing: Vec<HoistedBinary> = Vec::new();
                    assert(views(nothing@) == Seq::<Record>::empty());
                    HoistAction::Ask(nothing)
                },
            },
            HoistState::Unambiguous { records } => HoistAction::Copy(
                crate::binaries::clone_all(records),
            ),
            HoistState::Copied => HoistAction::Finish,
            HoistState::Aborted { error } => HoistAction::Fail(*error),
        }
    }

    /// The state that follows on `event`, for the request `binaries`;
    /// `take_all` says whether a request without names means everything.
    pub fn advance(self, event: HoistEvent, binaries: &Vec<String>, take_all: bool) -> (next:
        HoistState)
        requires
            self.wf(),
            event matches HoistEvent::RegistryLoaded(registry) ==> registry.wf(),
        ensures
            next@ == advanced(self@, event@, texts(binaries@), take_all),
            next.wf(),
    {
        match (self, event) {
            (HoistState::Copied, _) => HoistState::Copied,
            (HoistState::Aborted { error }, _) => HoistState::Aborted { error },
            (_, HoistEvent::Failed(error)) => HoistState::Aborted { error },
            (HoistState::Start, HoistEvent::RegistryLoaded(registry)) => {
                if registry.wants_local_scan(binaries) {
                    HoistState::Loaded { registry }
                } else {
                    let nothing: Vec<HoistedBinary> = Vec::new();
                    settle(registry.hoist(binaries, &nothing, take_all))
                }
            },
            (HoistState::Loaded { registry }, HoistEvent::ProjectScanned(local)) => settle(
                registry.hoist(binaries, &local, take_all),
            ),
            (HoistState::AwaitingSelection { plan }, HoistEvent::Selected(picked)) => {
                match plan.select(&picked) {
                    Ok(records) => HoistState::Unambiguous { records },
                    Err(error) => HoistState::Aborted { error },
                }
            },
            (HoistState::AwaitingSelection { plan }, HoistEvent::CannotAsk) => match plan {
                HoistPlan::Conflict { .. } => HoistState::Aborted { error: HoistError::Conflict },
                HoistPlan::NeedsSelection { .. } => HoistState::Aborted {
                    error: HoistError::SelectionNeeded,
                },
                HoistPlan::Copy { records } => HoistState::Unambiguous { records },
            },
            (HoistState::Unambiguous { .. }, HoistEvent::CopyDone) => HoistState::Copied,
            (state, _) => state,
        }
    }
}

/// A registry that holds one name at two locations never hoists that name
/// on its own. The request for it awaits a selection between the two
/// records, and where nobody can be asked the hoist is given up as a
/// conflict: nothing is copied.
pub proof fn lemma_conflict_is_surfaced(
    records: Seq<Record>,
    name: Seq<char>,
    here: Seq<char>,
    there: Seq<char>,
    take_all: bool,
)
    requires
        records.contains((name, here)),
        records.contains((name, there)),
        here != there,
    ensures
        advanced(StateView::Start, EventView::RegistryLoaded(records), seq![name], take_all)
            matches StateView::AwaitingSelection { plan } && plan is Conflict && offered_by(
            plan,
        ).contains((name, here)) && offered_by(plan).contains((name, there)),
        advanced(
            advanced(StateView::Start, EventView::RegistryLoaded(records), seq![name], take_all),
            EventView::CannotAsk,
            seq![name],
            take_all,
        ) == (StateView::Aborted { error: HoistError::Conflict }),
{
    let names = seq![name];
    let i = choose|i: int| 0 <= i < records.len() && records[i] == (name, here);
    lemma_count_named(records, name, i, i);
    assert(names[0] == name);
    assert(count_named(records, names[0]) > 0);
    assert(any_known(records, names));
    lemma_same_name_at_two_locations_conflicts(
        records,
        name,
        here,
        there,
        Seq::empty(),
        take_all,
    );
}

} // verus!
