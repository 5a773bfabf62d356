use cargo_hoist::binaries::{clone_all, copy_all_to_dir, CopyOrder, HoistedBinary};
use cargo_hoist::error::HoistError;

fn binary(name: &str, location: &str) -> HoistedBinary {
    HoistedBinary::new(name.to_string(), location.to_string())
}

#[test]
fn new_keeps_name_and_location() {
    let b = binary("binary1", "/p/target/release/binary1");
    assert_eq!(b.name, "binary1");
    assert_eq!(b.location, "/p/target/release/binary1");
}

#[test]
fn records_are_the_same_only_with_both_parts() {
    let b = binary("foo", "/a/foo");
    assert!(b.same_as(&binary("foo", "/a/foo")));
    assert!(!b.same_as(&binary("foo", "/b/foo")));
    assert!(!b.same_as(&binary("bar", "/a/foo")));
    assert_eq!(b, binary("foo", "/a/foo"));
    assert_ne!(b, binary("foo", "/b/foo"));
    assert_ne!(b, binary("bar", "/a/foo"));
    assert_eq!(b.clone(), b);
}

#[test]
fn test_copy_to_dir() {
    let test_dir = "/tmp/test_copy_to_dir";
    let dest = "/tmp/test_copy_to_dir/dest";
    let bins = vec![
        binary("binary1", "/tmp/test_copy_to_dir/target/release/binary1"),
        binary("binary2", "/tmp/test_copy_to_dir/target/release/binary2"),
    ];
    for b in bins {
        let order = b.copy_to_dir(dest);
        assert_eq!(order.source, format!("{}/target/release/{}", test_dir, b.name));
        assert_eq!(order.destination, format!("{}/{}", dest, b.name));
    }
}

#[test]
fn copy_orders_follow_the_records() {
    let bins = vec![binary("a", "/x/a"), binary("b", "/y/b")];
    assert_eq!(
        copy_all_to_dir(&bins, "/work/"),
        vec![
            CopyOrder { source: "/x/a".to_string(), destination: "/work/a".to_string() },
            CopyOrder { source: "/y/b".to_string(), destination: "/work/b".to_string() },
        ]
    );
    assert_eq!(copy_all_to_dir(&Vec::new(), "/work"), Vec::<CopyOrder>::new());
}

#[test]
fn clone_all_copies_every_record() {
    let bins = vec![binary("a", "/x/a"), binary("b", "/y/b")];
    assert_eq!(clone_all(&bins), bins);
}

#[test]
fn test_copy_to_current_dir() {
    let test_dir = "/tmp/test_copy_to_current_dir";
    let bins = vec![
        binary("binary1", "/tmp/test_copy_to_current_dir/target/release/binary1"),
        binary("binary2", "/tmp/test_copy_to_current_dir/target/release/binary2"),
    ];
    for b in bins {
        let order = b.copy_to_current_dir(Some(test_dir)).unwrap();
        assert_eq!(order.source, b.location);
        assert_eq!(order.destination, format!("{}/{}", test_dir, b.name));
    }
}

#[test]
fn copy_to_current_dir_needs_a_current_dir() {
    assert_eq!(binary("a", "/x/a").copy_to_current_dir(None), Err(HoistError::Io));
}

#[test]
fn the_label_shows_name_and_location() {
    assert_eq!(binary("foo", "/a/foo").label(), "foo (/a/foo)");
    assert_eq!(binary("", "").label(), " ()");
}
