use cargo_hoist::binaries::{copy_all_to_dir, HoistedBinary};
use cargo_hoist::document::RegistryDocument;
use cargo_hoist::error::HoistError;
use cargo_hoist::executables::FileStatus;
use cargo_hoist::hoist::HoistPlan;
use cargo_hoist::project::{BuildOutput, FileEntry, TargetDir, TargetListing};
use cargo_hoist::registry::{HoistRegistry, InstallOutcome};
use cargo_hoist::storage::{StorageAction, StorageState};

fn binary(name: &str, location: &str) -> HoistedBinary {
    HoistedBinary::new(name.to_string(), location.to_string())
}

fn registry_of(binaries: Vec<HoistedBinary>) -> HoistRegistry {
    let mut registry = HoistRegistry::default();
    registry.insert_all(binaries);
    registry
}

fn file(path: String, mode: u32) -> Option<FileEntry> {
    Some(FileEntry {
        path: Some(path.clone()),
        status: Some(FileStatus { is_file: true, mode }),
        canonical: Some(path),
    })
}

// A project that has built `binary1` and `binary2`, both executable,
// under `target/release`.
fn setup_test(test_dir: &str) -> BuildOutput {
    BuildOutput::Targets(vec![Some(TargetDir {
        name: Some("release".to_string()),
        is_dir: true,
        listing: TargetListing::Entries(vec![
            file(format!("{}/target/release/binary1", test_dir), 0o755),
            file(format!("{}/target/release/binary2", test_dir), 0o755),
        ]),
    })])
}

fn names(list: &[&str]) -> Vec<String> {
    list.iter().map(|n| n.to_string()).collect()
}

// Stores the registry and loads it again, as two runs of the tool would.
fn reloaded(registry: &HoistRegistry) -> HoistRegistry {
    HoistRegistry::new(&registry.write()).unwrap()
}

#[test]
fn test_setup() {
    let fresh = StorageState {
        dir_exists: false,
        registry_exists: false,
        hook_exists: false,
        profile_exists: true,
        is_terminal: false,
        confirmed: false,
    };
    let plan = HoistRegistry::setup(&fresh);
    assert_eq!(plan.failure, None);
    assert_eq!(
        plan.actions,
        vec![
            StorageAction::CreateDir,
            StorageAction::WriteRegistry(RegistryDocument { binaries: None }),
            StorageAction::AppendShellFunction,
            StorageAction::WriteHookMarker,
        ]
    );
    let written = match &plan.actions[1] {
        StorageAction::WriteRegistry(document) => document.clone(),
        other => panic!("unexpected step {:?}", other),
    };
    assert_eq!(HoistRegistry::new(&written).unwrap(), HoistRegistry::default());
}

#[test]
fn test_install() {
    let test_tempdir = "/tmp/test_install";
    let output = setup_test(test_tempdir);
    let mut registry = HoistRegistry::default();

    let outcome = registry.install(Some(test_tempdir), &output, Vec::new());
    assert_eq!(outcome, Ok(InstallOutcome::Registered));

    assert_eq!(
        reloaded(&registry),
        registry_of(vec![
            binary("binary1", "/tmp/test_install/target/release/binary1"),
            binary("binary2", "/tmp/test_install/target/release/binary2"),
        ])
    );
    assert_eq!(registry.len(), 2);
}

#[test]
fn test_multiple_installs() {
    let test_tempdir = "/tmp/test_multiple_installs";
    let output = setup_test(test_tempdir);
    let mut registry = HoistRegistry::default();

    for _ in 0..4 {
        registry = reloaded(&registry);
        let outcome = registry.install(Some(test_tempdir), &output, Vec::new());
        assert_eq!(outcome, Ok(InstallOutcome::Registered));
    }

    assert_eq!(
        reloaded(&registry),
        registry_of(vec![
            binary("binary2", "/tmp/test_multiple_installs/target/release/binary2"),
            binary("binary1", "/tmp/test_multiple_installs/target/release/binary1"),
        ])
    );
    assert_eq!(registry.len(), 2);
}

#[test]
fn test_hoist() {
    let test_tempdir = "/tmp/test_hoist";
    let output = setup_test(test_tempdir);
    let mut registry = HoistRegistry::default();
    registry.install(Some(test_tempdir), &output, Vec::new()).unwrap();

    for _ in 0..2 {
        let plan = registry.hoist(&names(&["binary1"]), &Vec::new(), false).unwrap();
        let records = match plan {
            HoistPlan::Copy { records } => records,
            other => panic!("unexpected plan {:?}", other),
        };
        let orders = copy_all_to_dir(&records, test_tempdir);
        assert_eq!(orders.len(), 1);
        assert_eq!(orders[0].source, "/tmp/test_hoist/target/release/binary1");
        assert_eq!(orders[0].destination, "/tmp/test_hoist/binary1");
        assert!(!orders.iter().any(|o| o.destination == "/tmp/test_hoist/binary2"));
    }
}

#[test]
fn test_nuke() {
    let test_tempdir = "/tmp/test_nuke";
    let output = setup_test(test_tempdir);
    let mut registry = HoistRegistry::default();
    registry.install(Some(test_tempdir), &output, Vec::new()).unwrap();
    assert_eq!(registry.len(), 2);

    let installed = StorageState {
        dir_exists: true,
        registry_exists: true,
        hook_exists: true,
        profile_exists: true,
        is_terminal: false,
        confirmed: false,
    };
    let plan = HoistRegistry::nuke(&installed);
    assert_eq!(plan.failure, None);
    let written = match plan.actions.last() {
        Some(StorageAction::WriteRegistry(document)) => document.clone(),
        other => panic!("unexpected last step {:?}", other),
    };

    let after = HoistRegistry::new(&written).unwrap();
    assert_eq!(after, HoistRegistry::default());
    assert!(after.list().is_empty());
}

#[test]
fn insert_ignores_a_record_that_is_already_there() {
    let mut registry = HoistRegistry::default();
    registry.insert(binary("foo", "/a/foo"));
    registry.insert(binary("foo", "/a/foo"));
    assert_eq!(registry.len(), 1);
    registry.insert(binary("foo", "/b/foo"));
    registry.insert(binary("bar", "/a/foo"));
    registry.insert(binary("foo", "/a/foo"));
    assert_eq!(registry.len(), 3);
    assert_eq!(
        registry.list(),
        vec![binary("foo", "/a/foo"), binary("foo", "/b/foo"), binary("bar", "/a/foo")]
    );
}

#[test]
fn the_size_is_the_number_of_distinct_records_in_any_order() {
    let a = binary("a", "/x/a");
    let b = binary("b", "/x/b");
    let c = binary("a", "/y/a");
    let runs = vec![
        vec![a.clone(), b.clone(), c.clone()],
        vec![c.clone(), b.clone(), a.clone()],
        vec![a.clone(), a.clone(), b.clone(), c.clone(), b.clone(), a.clone()],
        vec![b.clone(), c.clone(), c.clone(), a.clone()],
    ];
    let expected = registry_of(vec![a, b, c]);
    for run in runs {
        let registry = registry_of(run);
        assert_eq!(registry.len(), 3);
        assert_eq!(registry, expected);
    }
}

#[test]
fn registries_are_equal_whatever_the_order() {
    let forth = registry_of(vec![binary("a", "/a"), binary("b", "/b")]);
    let back = registry_of(vec![binary("b", "/b"), binary("a", "/a")]);
    assert_eq!(forth, back);
    assert_ne!(forth, registry_of(vec![binary("a", "/a")]));
    assert_ne!(registry_of(vec![binary("a", "/a")]), forth);
    assert_ne!(forth, registry_of(vec![binary("a", "/a"), binary("b", "/c")]));
    assert!(forth.holds_all_of(&registry_of(vec![binary("b", "/b")])));
    assert!(!registry_of(vec![binary("b", "/b")]).holds_all_of(&forth));
    assert_eq!(forth.clone(), forth);
}

#[test]
fn an_empty_registry_is_empty() {
    let registry = HoistRegistry::default();
    assert!(registry.is_empty());
    assert_eq!(registry.len(), 0);
    assert!(registry.list().is_empty());
    assert!(!registry.contains(&binary("a", "/a")));
    assert!(!registry_of(vec![binary("a", "/a")]).is_empty());
}

#[test]
fn contains_goes_by_name_and_location() {
    let registry = registry_of(vec![binary("foo", "/a/foo")]);
    assert!(registry.contains(&binary("foo", "/a/foo")));
    assert!(!registry.contains(&binary("foo", "/b/foo")));
    assert!(!registry.contains(&binary("bar", "/a/foo")));
}

#[test]
fn find_returns_the_record_of_the_name() {
    let registry = registry_of(vec![binary("foo", "/a/foo"), binary("bar", "/a/bar")]);
    assert_eq!(registry.find("bar"), Ok(binary("bar", "/a/bar")));
    assert_eq!(registry.find("foo"), Ok(binary("foo", "/a/foo")));
}

#[test]
fn find_takes_the_first_of_several_with_the_name() {
    let registry = registry_of(vec![
        binary("bar", "/a/bar"),
        binary("foo", "/b/foo"),
        binary("foo", "/a/foo"),
    ]);
    assert_eq!(registry.find("foo"), Ok(binary("foo", "/b/foo")));
}

#[test]
fn find_reports_an_unknown_name() {
    let registry = registry_of(vec![binary("foo", "/a/foo")]);
    assert_eq!(registry.find("fo"), Err(HoistError::BinaryNotFound));
    assert_eq!(registry.find("/a/foo"), Err(HoistError::BinaryNotFound));
    assert_eq!(HoistRegistry::default().find("foo"), Err(HoistError::BinaryNotFound));
}

#[test]
fn install_without_a_project_does_nothing() {
    let mut registry = registry_of(vec![binary("kept", "/kept")]);
    let outcome = registry.install(None, &setup_test("/p"), Vec::new());
    assert_eq!(outcome, Ok(InstallOutcome::NoProject));
    assert_eq!(registry.list(), vec![binary("kept", "/kept")]);
}

#[test]
fn install_that_discovers_nothing_asks_for_no_save() {
    let mut registry = registry_of(vec![binary("kept", "/kept")]);
    let outcome = registry.install(Some("/p"), &BuildOutput::Missing, Vec::new());
    assert_eq!(outcome, Ok(InstallOutcome::NothingFound));
    assert_eq!(registry.list(), vec![binary("kept", "/kept")]);
    let empty = BuildOutput::Targets(vec![Some(TargetDir {
        name: Some("release".to_string()),
        is_dir: true,
        listing: TargetListing::Entries(vec![file("/p/target/release/notes".to_string(), 0o644)]),
    })]);
    let outcome = registry.install(Some("/p"), &empty, Vec::new());
    assert_eq!(outcome, Ok(InstallOutcome::NothingFound));
    assert_eq!(registry.list(), vec![binary("kept", "/kept")]);
}

#[test]
fn install_merges_into_what_is_registered() {
    let mut registry = registry_of(vec![
        binary("kept", "/kept"),
        binary("binary2", "/p/target/release/binary2"),
    ]);
    let outcome = registry.install(Some("/p"), &setup_test("/p"), Vec::new());
    assert_eq!(outcome, Ok(InstallOutcome::Registered));
    assert_eq!(
        registry.list(),
        vec![
            binary("kept", "/kept"),
            binary("binary2", "/p/target/release/binary2"),
            binary("binary1", "/p/target/release/binary1"),
        ]
    );
}

#[test]
fn install_of_named_binaries_takes_only_those() {
    let mut registry = HoistRegistry::default();
    let outcome = registry.install(Some("/p"), &setup_test("/p"), names(&["binary2"]));
    assert_eq!(outcome, Ok(InstallOutcome::Registered));
    assert_eq!(registry.list(), vec![binary("binary2", "/p/target/release/binary2")]);
}

#[test]
fn install_of_an_unknown_name_fails_and_changes_nothing() {
    let mut registry = registry_of(vec![binary("kept", "/kept")]);
    let outcome = registry.install(Some("/p"), &setup_test("/p"), names(&["binary1", "nope"]));
    assert_eq!(outcome, Err(HoistError::BinaryNotFound));
    assert_eq!(registry.list(), vec![binary("kept", "/kept")]);
}

#[test]
fn install_passes_a_scan_error_on_and_changes_nothing() {
    let mut registry = registry_of(vec![binary("kept", "/kept")]);
    let outcome = registry.install(Some("/p"), &BuildOutput::Unreadable, Vec::new());
    assert_eq!(outcome, Err(HoistError::Io));
    assert_eq!(registry.list(), vec![binary("kept", "/kept")]);
}

#[test]
fn install_rejects_a_binary_without_a_name() {
    let odd = BuildOutput::Targets(vec![Some(TargetDir {
        name: Some("release".to_string()),
        is_dir: true,
        listing: TargetListing::Entries(vec![Some(FileEntry {
            path: Some("/p/target/release/link".to_string()),
            status: Some(FileStatus { is_file: true, mode: 0o755 }),
            canonical: Some("/".to_string()),
        })]),
    })]);
    let mut registry = registry_of(vec![binary("kept", "/kept")]);
    let outcome = registry.install(Some("/p"), &odd, Vec::new());
    assert_eq!(outcome, Err(HoistError::InvalidName));
    assert_eq!(registry.list(), vec![binary("kept", "/kept")]);
}

#[test]
fn install_names_a_binary_by_its_canonical_path() {
    let linked = BuildOutput::Targets(vec![Some(TargetDir {
        name: Some("release".to_string()),
        is_dir: true,
        listing: TargetListing::Entries(vec![Some(FileEntry {
            path: Some("/p/target/release/link".to_string()),
            status: Some(FileStatus { is_file: true, mode: 0o755 }),
            canonical: Some("/opt/tools/real".to_string()),
        })]),
    })]);
    let mut registry = HoistRegistry::default();
    assert_eq!(registry.install(Some("/p"), &linked, Vec::new()), Ok(InstallOutcome::Registered));
    assert_eq!(registry.list(), vec![binary("real", "/opt/tools/real")]);
}
