//! Utilities for working with lists of names.

use crate::error::texts;
use crate::paths::chars_of;
use vstd::prelude::*;

verus! {

/// Whether `a` comes strictly before `b` in dictionary order, characters
/// being ordered by their code points.
pub open spec fn precedes(a: Seq<char>, b: Seq<char>) -> bool
    decreases a.len(),
{
    if b.len() == 0 {
        false
    } else if a.len() == 0 {
        true
    } else if a[0] != b[0] {
        (a[0] as int) < (b[0] as int)
    } else {
        precedes(a.drop_first(), b.drop_first())
    }
}

/// Whether `list` ascends strictly: each element comes before every later
/// one, so that none occurs twice.
pub open spec fn ascending(list: Seq<Seq<char>>) -> bool {
    forall|i: int, j: int| 0 <= i < j < list.len() ==> precedes(list[i], list[j])
}

/// The strings of an optional list; none where there is no list.
pub open spec fn optional_texts(list: Option<Vec<String>>) -> Seq<Seq<char>> {
    match list {
        Some(strings) => texts(strings@),
        None => Seq::empty(),
    }
}

/// Of two different strings, one comes before the other.
pub proof fn lemma_precedes_is_total(a: Seq<char>, b: Seq<char>)
    ensures
        a == b || precedes(a, b) || precedes(b, a),
        !(precedes(a, b) && precedes(b, a)),
    decreases a.len(),
{
    if a.len() == 0 || b.len() == 0 {
        if a.len() == 0 && b.len() == 0 {
            assert(a == b);
        }
    } else if a[0] == b[0] {
        lemma_precedes_is_total(a.drop_first(), b.drop_first());
        if a.drop_first() == b.drop_first() {
            assert(a == seq![a[0]] + a.drop_first());
            assert(b == seq![b[0]] + b.drop_first());
        }
    }
}

/// What comes before something that comes before a third comes before the
/// third.
pub proof fn lemma_precedes_is_transitive(a: Seq<char>, b: Seq<char>, c: Seq<char>)
    requires
        precedes(a, b),
        precedes(b, c),
    ensures
        precedes(a, c),
    decreases a.len(),
{
    if a.len() > 0 {
        if a[0] == b[0] && b[0] == c[0] {
            lemma_precedes_is_transitive(a.drop_first(), b.drop_first(), c.drop_first());
        }
    }
}

/// Decides [`precedes`].
fn comes_before(a: &str, b: &str) -> (before: bool)
    ensures
        before == precedes(a@, b@),
{
    let left = chars_of(a);
    let right = chars_of(b);
    let mut i: usize = 0;
    assert(left@.skip(0) == left@ && right@.skip(0) == right@);
    while i < left.len() && i < right.len()
        invariant
            i <= left.len(),
            i <= right.len(),
            left@ == a@,
            right@ == b@,
            precedes(a@, b@) == precedes(left@.skip(i as int), right@.skip(i as int)),
        decreases left.len() - i,
    {
        let ghost l = left@.skip(i as int);
        let ghost r = right@.skip(i as int);
        assert(l.drop_first() == left@.skip(i as int + 1));
        assert(r.drop_first() == right@.skip(i as int + 1));
        if left[i] != right[i] {
            return left[i] < right[i];
        }
        i = i + 1;
    }
    i < right.len()
}

/// Puts `name` in its place in the ascending list `sorted`, unless the list
/// holds it already.
fn insert_sorted(sorted: &mut Vec<String>, name: String)
    requires
        ascending(texts(old(sorted)@)),
    ensures
        ascending(texts(final(sorted)@)),
        texts(final(sorted)@).to_set() == texts(old(sorted)@).to_set().insert(name@),
{
    let ghost before = texts(sorted@);
    let mut at: usize = 0;
    while at < sorted.len() && comes_before(sorted[at].as_str(), name.as_str())
        invariant
            at <= sorted.len(),
            before == texts(sorted@),
            forall|k: int| 0 <= k < at ==> precedes(before[k], name@),
        decreases sorted.len() - at,
    {
        at = at + 1;
    }
    if at < sorted.len() && sorted[at] == name {
        assert(before[at as int] == name@);
        return ;
    }
    proof {
        assert(texts(sorted@.insert(at as int, name)) == before.insert(at as int, name@));
        let after = before.insert(at as int, name@);
        assert forall|i: int, j: int| 0 <= i < j < after.len() implies precedes(
            after[i],
            after[j],
        ) by {
            if j == at {
                assert(after[i] == before[i]);
            } else if i == at {
                assert(after[j] == before[j - 1]);
                lemma_precedes_is_total(before[at as int], name@);
                if j - 1 > at {
                    assert(precedes(before[at as int], before[j - 1]));
                    lemma_precedes_is_transitive(name@, before[at as int], before[j - 1]);
                }
            } else if j < at {
                assert(after[i] == before[i] && after[j] == before[j]);
            } else if i < at {
                assert(after[i] == before[i] && after[j] == before[j - 1]);
                assert(precedes(before[i], before[j - 1]));
            } else {
                assert(after[i] == before[i - 1] && after[j] == before[j - 1]);
                assert(precedes(before[i - 1], before[j - 1]));
            }
        }
        assert forall|x: Seq<char>| after.to_set().contains(x) == before.to_set().insert(
            name@,
        ).contains(x) by {
            if after.contains(x) {
                let k = choose|k: int| 0 <= k < after.len() && after[k] == x;
                if k < at {
                    assert(before[k] == x);
                } else if k > at {
                    assert(before[k - 1] == x);
                }
            }
            if before.contains(x) {
                let k = choose|k: int| 0 <= k < before.len() && before[k] == x;
                if k < at {
                    assert(after[k] == x);
                } else {
                    assert(after[k + 1] == x);
                }
            }
            if x == name@ {
                assert(after[at as int] == x);
            }
        }
        assert(after.to_set() == before.to_set().insert(name@));
    }
    sorted.insert(at, name);
}

/// Puts each of `names` in its place in the ascending list `sorted`.
fn insert_each(sorted: &mut Vec<String>, names: &Vec<String>)
    requires
        ascending(texts(old(sorted)@)),
    ensures
        ascending(texts(final(sorted)@)),
        texts(final(sorted)@).to_set() == texts(old(sorted)@).to_set().union(
            texts(names@).to_set(),
        ),
{
    let ghost start = texts(sorted@).to_set();
    let ghost all = texts(names@);
    let mut i: usize = 0;
    while i < names.len()
        invariant
            i <= names.len(),
            all == texts(names@),
            ascending(texts(sorted@)),
            texts(sorted@).to_set() == start.union(all.take(i as int).to_set()),
        decreases names.len() - i,
    {
        proof {
            let shorter = all.take(i as int);
            let longer = all.take(i as int + 1);
            assert forall|x: Seq<char>| longer.to_set().contains(x) == shorter.to_set().insert(
                all[i as int],
            ).contains(x) by {
                if longer.contains(x) {
                    let k = choose|k: int| 0 <= k < longer.len() && longer[k] == x;
                    if k < i {
                        assert(shorter[k] == x);
                    }
                }
                if shorter.contains(x) {
                    let k = choose|k: int| 0 <= k < shorter.len() && shorter[k] == x;
                    assert(longer[k] == x);
                }
                if x == all[i as int] {
                    assert(longer[i as int] == x);
                }
            }
            assert(longer.to_set() == shorter.to_set().insert(all[i as int]));
        }
        insert_sorted(sorted, names[i].clone());
        i = i + 1;
    }
    assert(all.take(i as int) == all);
}

/// Helper function to merge two optional string vectors and dedup any
/// duplicate entries: the result ascends strictly in dictionary order and
/// holds exactly the strings of the two lists.
pub fn merge_and_dedup_vecs(a: Option<Vec<String>>, b: Option<Vec<String>>) -> (merged: Vec<String>)
    ensures
        ascending(texts(merged@)),
        texts(merged@).to_set() == optional_texts(a).to_set().union(optional_texts(b).to_set()),
{
    let mut merged: Vec<String> = Vec::new();
    match &a {
        Some(names) => {
            insert_each(&mut merged, names);
        },
        None => {},
    }
    match &b {
        Some(names) => {
            insert_each(&mut merged, names);
        },
        None => {
        },
    }
    merged
}

} // verus!
