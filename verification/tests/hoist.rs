use cargo_hoist::binaries::HoistedBinary;
use cargo_hoist::error::HoistError;
use cargo_hoist::hoist::HoistPlan;
use cargo_hoist::registry::HoistRegistry;

fn binary(name: &str, location: &str) -> HoistedBinary {
    HoistedBinary::new(name.to_string(), location.to_string())
}

fn registry_of(binaries: Vec<HoistedBinary>) -> HoistRegistry {
    let mut registry = HoistRegistry::default();
    registry.insert_all(binaries);
    registry
}

fn names(list: &[&str]) -> Vec<String> {
    list.iter().map(|n| n.to_string()).collect()
}

#[test]
fn two_records_of_one_name_are_a_conflict() {
    let registry = registry_of(vec![binary("foo", "/a/foo"), binary("foo", "/b/foo")]);
    for take_all in [false, true] {
        let plan = registry.hoist(&names(&["foo"]), &Vec::new(), take_all);
        assert_eq!(
            plan,
            Ok(HoistPlan::Conflict {
                unambiguous: vec![],
                conflicting: vec![binary("foo", "/a/foo"), binary("foo", "/b/foo")],
            })
        );
    }
}

#[test]
fn a_conflict_leaves_the_other_names_unambiguous() {
    let registry = registry_of(vec![
        binary("foo", "/a/foo"),
        binary("bar", "/a/bar"),
        binary("foo", "/b/foo"),
        binary("baz", "/a/baz"),
        binary("qux", "/a/qux"),
        binary("qux", "/b/qux"),
    ]);
    let plan = registry.hoist(&names(&["baz", "foo", "bar"]), &Vec::new(), false);
    assert_eq!(
        plan,
        Ok(HoistPlan::Conflict {
            unambiguous: vec![binary("bar", "/a/bar"), binary("baz", "/a/baz")],
            conflicting: vec![binary("foo", "/a/foo"), binary("foo", "/b/foo")],
        })
    );
}

#[test]
fn names_that_are_each_carried_once_are_copied() {
    let registry = registry_of(vec![
        binary("foo", "/a/foo"),
        binary("bar", "/a/bar"),
        binary("qux", "/a/qux"),
        binary("qux", "/b/qux"),
    ]);
    let plan = registry.hoist(&names(&["bar", "foo"]), &Vec::new(), false);
    assert_eq!(
        plan,
        Ok(HoistPlan::Copy { records: vec![binary("foo", "/a/foo"), binary("bar", "/a/bar")] })
    );
}

#[test]
fn a_name_requested_twice_is_copied_once() {
    let registry = registry_of(vec![binary("foo", "/a/foo")]);
    let plan = registry.hoist(&names(&["foo", "foo"]), &Vec::new(), false);
    assert_eq!(plan, Ok(HoistPlan::Copy { records: vec![binary("foo", "/a/foo")] }));
}

#[test]
fn an_unknown_name_finds_no_binary() {
    let registry = registry_of(vec![binary("foo", "/a/foo")]);
    let plan = registry.hoist(&names(&["foo", "nope"]), &Vec::new(), false);
    assert_eq!(plan, Err(HoistError::BinaryNotFound));
    let plan = HoistRegistry::default().hoist(&names(&["foo"]), &Vec::new(), true);
    assert_eq!(plan, Err(HoistError::BinaryNotFound));
}

#[test]
fn local_binaries_count_only_where_the_registry_knows_no_name() {
    let local = vec![binary("fresh", "/p/target/debug/fresh"), binary("foo", "/p/target/debug/foo")];
    let registry = registry_of(vec![binary("foo", "/a/foo")]);

    assert!(registry.wants_local_scan(&names(&["fresh"])));
    let plan = registry.hoist(&names(&["fresh"]), &local, false);
    assert_eq!(
        plan,
        Ok(HoistPlan::Copy { records: vec![binary("fresh", "/p/target/debug/fresh")] })
    );

    assert!(!registry.wants_local_scan(&names(&["foo"])));
    let plan = registry.hoist(&names(&["foo"]), &local, false);
    assert_eq!(plan, Ok(HoistPlan::Copy { records: vec![binary("foo", "/a/foo")] }));

    assert!(!registry.wants_local_scan(&names(&["fresh", "foo"])));
    let plan = registry.hoist(&names(&["fresh", "foo"]), &local, false);
    assert_eq!(plan, Err(HoistError::BinaryNotFound));
}

#[test]
fn a_local_binary_may_conflict_with_nothing_registered() {
    let local = vec![binary("tool", "/p/target/debug/tool"), binary("tool", "/p/target/release/tool")];
    let registry = registry_of(vec![binary("foo", "/a/foo")]);
    let plan = registry.hoist(&names(&["tool"]), &local, false);
    assert_eq!(plan, Ok(HoistPlan::Conflict { unambiguous: vec![], conflicting: local }));
}

#[test]
fn no_names_means_a_choice_or_everything() {
    let local = vec![binary("fresh", "/p/fresh"), binary("foo", "/a/foo")];
    let registry = registry_of(vec![binary("foo", "/a/foo"), binary("bar", "/a/bar")]);
    let pool = vec![binary("foo", "/a/foo"), binary("bar", "/a/bar"), binary("fresh", "/p/fresh")];

    assert!(registry.wants_local_scan(&Vec::new()));
    let plan = registry.hoist(&Vec::new(), &local, false);
    assert_eq!(plan, Ok(HoistPlan::NeedsSelection { candidates: pool.clone() }));
    let plan = registry.hoist(&Vec::new(), &local, true);
    assert_eq!(plan, Ok(HoistPlan::Copy { records: pool }));
}

#[test]
fn select_adds_the_picked_to_the_unambiguous() {
    let plan = HoistPlan::Conflict {
        unambiguous: vec![binary("bar", "/a/bar")],
        conflicting: vec![binary("foo", "/a/foo"), binary("foo", "/b/foo")],
    };
    assert_eq!(
        plan.select(&vec![binary("foo", "/b/foo")]),
        Ok(vec![binary("bar", "/a/bar"), binary("foo", "/b/foo")])
    );
    assert_eq!(plan.select(&vec![]), Ok(vec![binary("bar", "/a/bar")]));
}

#[test]
fn select_rejects_what_was_not_offered() {
    let plan = HoistPlan::Conflict {
        unambiguous: vec![binary("bar", "/a/bar")],
        conflicting: vec![binary("foo", "/a/foo"), binary("foo", "/b/foo")],
    };
    assert_eq!(plan.select(&vec![binary("foo", "/c/foo")]), Err(HoistError::BinaryNotFound));
    assert_eq!(plan.select(&vec![binary("bar", "/a/bar")]), Err(HoistError::BinaryNotFound));
    let plan = HoistPlan::NeedsSelection { candidates: vec![binary("foo", "/a/foo")] };
    assert_eq!(plan.select(&vec![binary("bar", "/a/bar")]), Err(HoistError::BinaryNotFound));
}

#[test]
fn select_among_candidates_returns_the_picked() {
    let plan = HoistPlan::NeedsSelection {
        candidates: vec![binary("foo", "/a/foo"), binary("bar", "/a/bar")],
    };
    assert_eq!(plan.select(&vec![binary("bar", "/a/bar")]), Ok(vec![binary("bar", "/a/bar")]));
    assert_eq!(plan.select(&vec![]), Ok(vec![]));
}

#[test]
fn select_on_a_plan_to_copy_returns_its_records() {
    let plan = HoistPlan::Copy { records: vec![binary("foo", "/a/foo")] };
    assert_eq!(plan.select(&vec![binary("zzz", "/z")]), Ok(vec![binary("foo", "/a/foo")]));
}

#[test]
fn taking_everything_does_not_hide_a_conflict() {
    let registry = registry_of(vec![
        binary("foo", "/a/foo"),
        binary("bar", "/a/bar"),
        binary("foo", "/b/foo"),
    ]);
    let plan = registry.hoist(&Vec::new(), &Vec::new(), true);
    assert_eq!(
        plan,
        Ok(HoistPlan::Conflict {
            unambiguous: vec![binary("bar", "/a/bar")],
            conflicting: vec![binary("foo", "/a/foo"), binary("foo", "/b/foo")],
        })
    );
}

#[test]
fn taking_everything_of_nothing_copies_nothing() {
    let plan = HoistRegistry::default().hoist(&Vec::new(), &Vec::new(), true);
    assert_eq!(plan, Ok(HoistPlan::Copy { records: vec![] }));
}
