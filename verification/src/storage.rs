//! Where the registry is kept, and the steps that prepare or reset its
//! storage. Nothing here touches the disk: the steps are handed out for the
//! caller to perform.

use crate::document::{decoded, DocumentView, EntryView, RegistryDocument};
use crate::error::HoistError;
use crate::binaries::Record;
use crate::paths::{join, join_path};
use crate::registry::HoistRegistry;
use vstd::prelude::*;
use vstd::string::*;

verus! {

/// What the caller found on disk and learned from the user.
#[derive(Debug, Clone, Copy, PartialEq, Eq, Structural)]
pub struct StorageState {
    /// Whether the registry's directory exists.
    pub dir_exists: bool,
    /// Whether the registry file exists.
    pub registry_exists: bool,
    /// Whether the marker exists that says the shell hook is installed.
    pub hook_exists: bool,
    /// Whether the user's shell profile exists.
    pub profile_exists: bool,
    /// Whether the output goes to a terminal.
    pub is_terminal: bool,
    /// What the user answered when asked to confirm the hook; it counts
    /// only where the question had to be asked.
    pub confirmed: bool,
}

/// One step on the registry's storage.
#[derive(Debug, Clone, PartialEq, Eq)]
pub enum StorageAction {
    /// Create the registry's directory.
    CreateDir,
    /// Replace the registry file by this document.
    WriteRegistry(RegistryDocument),
    /// Add the shell function to the end of the user's shell profile.
    AppendShellFunction,
    /// Create the marker that says the shell hook is installed.
    WriteHookMarker,
}

/// A step as the contracts see it.
pub enum ActionView {
    /// Create the registry's directory.
    CreateDir,
    /// Replace the registry file by this document.
    WriteRegistry(DocumentView),
    /// Add the shell function to the end of the user's shell profile.
    AppendShellFunction,
    /// Create the marker that says the shell hook is installed.
    WriteHookMarker,
}

impl View for StorageAction {
    type V = ActionView;

    open spec fn view(&self) -> ActionView {
        match self {
            StorageAction::CreateDir => ActionView::CreateDir,
            StorageAction::WriteRegistry(document) => ActionView::WriteRegistry(document@),
            StorageAction::AppendShellFunction => ActionView::AppendShellFunction,
            StorageAction::WriteHookMarker => ActionView::WriteHookMarker,
        }
    }
}

/// The views of a list of steps, in the same order.
pub open spec fn action_views(actions: Seq<StorageAction>) -> Seq<ActionView> {
    actions.map_values(|a: StorageAction| a@)
}

/// Steps to perform in order, and the failure to report once they are done.
#[derive(Debug, Clone, PartialEq, Eq)]
pub struct StoragePlan {
    /// The steps, in the order in which they are to be performed.
    pub actions: Vec<StorageAction>,
    /// The error that ends the operation after the steps, if any.
    pub failure: Option<HoistError>,
}

/// A plan as the contracts see it: the steps, and the failure.
pub type StepsView = (Seq<ActionView>, Option<HoistError>);

impl View for StoragePlan {
    type V = StepsView;

    open spec fn view(&self) -> StepsView {
        (action_views(self.actions@), self.failure)
    }
}

/// The registry's directory under the home directory `home`.
pub open spec fn dir_of(home: Seq<char>) -> Seq<char> {
    home + "/.hoist/"@
}

/// The steps that make sure the directory exists.
pub open spec fn dir_steps(state: StorageState) -> Seq<ActionView> {
    if state.dir_exists {
        Seq::empty()
    } else {
        seq![ActionView::CreateDir]
    }
}

/// `state` once the directory exists.
pub open spec fn with_dir(state: StorageState) -> StorageState {
    StorageState { dir_exists: true, ..state }
}

/// The steps that make sure the directory and the registry file exist: a
/// missing file is created as the empty registry.
pub open spec fn registry_steps(state: StorageState) -> Seq<ActionView> {
    dir_steps(state) + if state.registry_exists {
        Seq::<ActionView>::empty()
    } else {
        seq![ActionView::WriteRegistry(None)]
    }
}

/// Whether the user has to be asked before the hook is installed: where it
/// is not installed yet, the output goes to a terminal, and confirmation is
/// wanted.
pub open spec fn hook_asks(with_confirm: bool, state: StorageState) -> bool {
    !state.hook_exists && state.is_terminal && with_confirm
}

/// The steps that make sure the shell hook is installed. Nothing but the
/// directory is needed where the marker exists. Otherwise the installation
/// fails where the user was asked and declined, or where the shell profile
/// is missing; else the profile is extended and the marker written.
pub open spec fn hook_steps(with_confirm: bool, state: StorageState) -> StepsView {
    if state.hook_exists {
        (dir_steps(state), None)
    } else if hook_asks(with_confirm, state) && !state.confirmed {
        (dir_steps(state), Some(HoistError::HookRejected))
    } else if !state.profile_exists {
        (dir_steps(state), Some(HoistError::MissingShellProfile))
    } else {
        (
            dir_steps(state) + seq![ActionView::AppendShellFunction, ActionView::WriteHookMarker],
            None,
        )
    }
}

/// The steps that set the storage up: the directory, the registry file,
/// then the shell hook without confirmation.
pub open spec fn setup_steps(state: StorageState) -> StepsView {
    let hook = hook_steps(false, with_dir(state));
    (registry_steps(state) + hook.0, hook.1)
}

/// The steps that reset the registry: the storage is set up, and where that
/// did not fail the registry file is replaced by the empty registry.
pub open spec fn nuke_steps(state: StorageState) -> StepsView {
    let setup = setup_steps(state);
    if setup.1 is None {
        (setup.0.push(ActionView::WriteRegistry(None)), None)
    } else {
        setup
    }
}

/// What is on disk, as far as the steps change it.
pub struct Store {
    /// Whether the registry's directory exists.
    pub dir: bool,
    /// The document in the registry file; `None` where there is no file.
    pub registry: Option<DocumentView>,
    /// Whether the shell profile holds the shell function.
    pub profile_extended: bool,
    /// Whether the marker of the shell hook exists.
    pub hook: bool,
}

/// The disk after one step.
pub open spec fn performed(store: Store, action: ActionView) -> Store {
    match action {
        ActionView::CreateDir => Store { dir: true, ..store },
        ActionView::WriteRegistry(document) => Store { registry: Some(document), ..store },
        ActionView::AppendShellFunction => Store { profile_extended: true, ..store },
        ActionView::WriteHookMarker => Store { hook: true, ..store },
    }
}

/// The disk after a list of steps, performed in order.
pub open spec fn performed_all(store: Store, actions: Seq<ActionView>) -> Store
    decreases actions.len(),
{
    if actions.len() == 0 {
        store
    } else {
        performed(performed_all(store, actions.drop_last()), actions.last())
    }
}

impl HoistRegistry {
    /// The path to the hoist directory: `.hoist/` under the home directory.
    pub fn dir(home: &str) -> (dir: String)
        ensures
            dir@ == dir_of(home@),
    {
        let mut dir = String::from_str(home);
        dir.append("/.hoist/");
        dir
    }

    /// The path to the hoist registry file.
    pub fn path(home: &str) -> (path: String)
        ensures
            path@ == join(dir_of(home@), "registry.toml"@),
    {
        let dir = HoistRegistry::dir(home);
        join_path(dir.as_str(), "registry.toml")
    }

    /// Hook identifier file.
    /// This is used to indicate that the hoist pre-hook has been installed.
    pub fn hook_identifier(home: &str) -> (path: String)
        ensures
            path@ == join(dir_of(home@), "hook"@),
    {
        let dir = HoistRegistry::dir(home);
        join_path(dir.as_str(), "hook")
    }

    /// Create the hoist directory if it doesn't exist.
    pub fn create_dir(state: &StorageState) -> (actions: Vec<StorageAction>)
        ensures
            action_views(actions@) == dir_steps(*state),
    {
        let mut actions: Vec<StorageAction> = Vec::new();
        if !state.dir_exists {
            actions.push(StorageAction::CreateDir);
        }
        actions
    }

    /// Create the hoist registry file, as the empty registry, if it doesn't
    /// exist; before that, the directory.
    pub fn create_registry(state: &StorageState) -> (actions: Vec<StorageAction>)
        ensures
            action_views(actions@) == registry_steps(*state),
    {
        let mut actions = HoistRegistry::create_dir(state);
        if !state.registry_exists {
            let document = HoistRegistry::default().write();
            actions.push(StorageAction::WriteRegistry(document));
        }
        actions
    }

    /// Whether the user has to be asked to confirm the installation of the
    /// shell hook before [`HoistRegistry::create_pre_hook`] is called.
    pub fn should_prompt(with_confirm: bool, state: &StorageState) -> (asks: bool)
        ensures
            asks == hook_asks(with_confirm, *state),
    {
        !state.hook_exists && state.is_terminal && with_confirm
    }

    /// Create the hoist pre-hook in the user's shell profile, unless the
    /// marker says that it is there.
    pub fn create_pre_hook(with_confirm: bool, state: &StorageState) -> (plan: StoragePlan)
        ensures
            plan@ == hook_steps(with_confirm, *state),
    {
        let mut actions = HoistRegistry::create_dir(state);
        if state.hook_exists {
            return StoragePlan { actions, failure: None };
        }
        if HoistRegistry::should_prompt(with_confirm, state) && !state.confirmed {
            return StoragePlan { actions, failure: Some(HoistError::HookRejected) };
        }
        if !state.profile_exists {
            return StoragePlan { actions, failure: Some(HoistError::MissingShellProfile) };
        }
        actions.push(StorageAction::AppendShellFunction);
        actions.push(StorageAction::WriteHookMarker);
        StoragePlan { actions, failure: None }
    }

    /// Installs the hoist registry to a `.hoist/` subdir in the
    /// user's home directory: the directory, the registry file, and the
    /// shell hook, each only where it is missing.
    pub fn setup(state: &StorageState) -> (plan: StoragePlan)
        ensures
            plan@ == setup_steps(*state),
    {
        let mut actions = HoistRegistry::create_registry(state);
        let prepared = StorageState {
            dir_exists: true,
            registry_exists: state.registry_exists,
            hook_exists: state.hook_exists,
            profile_exists: state.profile_exists,
            is_terminal: state.is_terminal,
            confirmed: state.confirmed,
        };
        let mut hook = HoistRegistry::create_pre_hook(false, &prepared);
        actions.append(&mut hook.actions);
        StoragePlan { actions, failure: hook.failure }
    }

    /// Nukes the hoist registry.
    /// This writes an empty registry to the registry file, once the storage
    /// is set up.
    pub fn nuke(state: &StorageState) -> (plan: StoragePlan)
        ensures
            plan@ == nuke_steps(*state),
    {
        let mut plan = HoistRegistry::setup(state);
        if plan.failure.is_none() {
            let document = HoistRegistry::default().write();
            plan.actions.push(StorageAction::WriteRegistry(document));
        }
        plan
    }
}

/// A reset fails only where the shell hook is neither installed nor
/// installable. It does not fail once an install has gone through, since
/// that leaves the hook's marker behind.
pub proof fn lemma_nuke_succeeds_once_set_up(state: StorageState)
    requires
        state.hook_exists || state.profile_exists,
    ensures
        nuke_steps(state).1 is None,
{
}

/// Whatever was on disk before, once the steps of a reset that does not
/// fail are performed, the registry file holds the empty registry: loading
/// it lists nothing.
pub proof fn lemma_nuke_resets(state: StorageState, store: Store)
    requires
        nuke_steps(state).1 is None,
    ensures
        performed_all(store, nuke_steps(state).0).registry == Some(None::<Seq<EntryView>>),
        decoded(performed_all(store, nuke_steps(state).0).registry->0) == Ok::<
            Seq<Record>,
            HoistError,
        >(Seq::empty()),
{
    let steps = nuke_steps(state).0;
    let setup = setup_steps(state).0;
    assert(steps.drop_last() == setup);
    assert(steps.last() == ActionView::WriteRegistry(None));
}

} // verus!
