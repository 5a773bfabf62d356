use cargo_hoist::utils::merge_and_dedup_vecs;

fn names(list: &[&str]) -> Vec<String> {
    list.iter().map(|n| n.to_string()).collect()
}

#[test]
fn merge_sorts_and_drops_duplicates() {
    let a = Some(names(&["foo", "bar", "foo"]));
    let b = Some(names(&["baz", "bar"]));
    assert_eq!(merge_and_dedup_vecs(a, b), names(&["bar", "baz", "foo"]));
}

#[test]
fn merge_takes_either_list_alone() {
    assert_eq!(merge_and_dedup_vecs(Some(names(&["b", "a"])), None), names(&["a", "b"]));
    assert_eq!(merge_and_dedup_vecs(None, Some(names(&["b", "a", "b"]))), names(&["a", "b"]));
    assert_eq!(merge_and_dedup_vecs(None, None), Vec::<String>::new());
    assert_eq!(merge_and_dedup_vecs(Some(vec![]), Some(vec![])), Vec::<String>::new());
}

#[test]
fn merge_orders_a_prefix_first() {
    let a = Some(names(&["ab", "a", "", "abc", "B", "b"]));
    assert_eq!(merge_and_dedup_vecs(a, None), names(&["", "B", "a", "ab", "abc", "b"]));
}

#[test]
fn merge_agrees_with_sort_and_dedup() {
    let a = names(&["tool", "\u{e9}clair", "zeta", "Zeta", "a-b", "a_b", "a", "\u{1F600}", "zeta"]);
    let b = names(&["alpha", "tool", "z", "\u{e9}", "\u{ffff}", "a b"]);
    let mut expected = a.clone();
    expected.extend(b.clone());
    expected.sort();
    expected.dedup();
    assert_eq!(merge_and_dedup_vecs(Some(a), Some(b)), expected);
}
