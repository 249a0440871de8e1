//! The annotation snapshot: the string-to-string annotations of the
//! workload that sits beside a resource in its namespace. The controller
//! reads one thing from it, the fingerprint that was last recorded.

use crate::text::same_text;
use vstd::prelude::*;
use vstd::string::*;

verus! {

/// The annotation under which the last fingerprint is recorded.
pub const STATE_HASH_KEY: &'static str = "state_hash";

/// Stands for the recorded fingerprint where none was recorded.
pub const UNKNOWN_FINGERPRINT: &'static str = "N/A";

/// A finite map from annotation keys to values. No key occurs twice.
#[derive(Debug)]
pub struct AnnotationSnapshot {
    entries: Vec<(String, String)>,
}

spec fn holds_key(entries: Seq<(String, String)>, key: Seq<char>) -> bool {
    exists|i: int| 0 <= i < entries.len() && (#[trigger] entries[i]).0@ == key
}

spec fn place_of(entries: Seq<(String, String)>, key: Seq<char>) -> int {
    choose|i: int| 0 <= i < entries.len() && (#[trigger] entries[i]).0@ == key
}

spec fn keys_distinct(entries: Seq<(String, String)>) -> bool {
    forall|i: int, j: int|
        0 <= i < j < entries.len() ==> (#[trigger] entries[i]).0@ != (#[trigger] entries[j]).0@
}

spec fn as_map(entries: Seq<(String, String)>) -> Map<Seq<char>, Seq<char>> {
    Map::new(
        |key: Seq<char>| holds_key(entries, key),
        |key: Seq<char>| entries[place_of(entries, key)].1@,
    )
}

/// With distinct keys, the entry at place `i` is what the map holds for its
/// key.
proof fn lemma_entry_in_map(entries: Seq<(String, String)>, i: int)
    requires
        keys_distinct(entries),
        0 <= i < entries.len(),
    ensures
        as_map(entries).contains_key(entries[i].0@),
        as_map(entries)[entries[i].0@] == entries[i].1@,
{
    let key = entries[i].0@;
    assert(holds_key(entries, key));
    let place = place_of(entries, key);
    assert(0 <= place < entries.len() && entries[place].0@ == key);
    if place < i {
        assert(entries[place].0@ != entries[i].0@);
    } else if i < place {
        assert(entries[i].0@ != entries[place].0@);
    }
}

/// Two lists that agree entry by entry in their text stand for one map, and
/// hold distinct keys together.
proof fn lemma_same_text_same_map(left: Seq<(String, String)>, right: Seq<(String, String)>)
    requires
        keys_distinct(left),
        left.len() == right.len(),
        forall|j: int|
            0 <= j < left.len() ==> (#[trigger] right[j]).0@ == left[j].0@ && right[j].1@
                == left[j].1@,
    ensures
        keys_distinct(right),
        as_map(right) == as_map(left),
{
    assert forall|a: int, b: int| 0 <= a < b < right.len() implies (#[trigger] right[a]).0@ != (
    #[trigger] right[b]).0@ by {
        assert(left[a].0@ != left[b].0@);
    }
    assert(as_map(right) =~= as_map(left)) by {
        assert forall|k: Seq<char>| holds_key(right, k) <==> holds_key(left, k) by {
            if holds_key(right, k) {
                let p = place_of(right, k);
                assert(left[p].0@ == k);
            }
            if holds_key(left, k) {
                let p = place_of(left, k);
                assert(right[p].0@ == k);
            }
        }
        assert forall|k: Seq<char>| holds_key(right, k) implies as_map(right)[k] == as_map(
            left,
        )[k] by {
            let p = place_of(right, k);
            lemma_entry_in_map(right, p);
            assert(left[p].0@ == k);
            lemma_entry_in_map(left, p);
        }
    }
}

impl View for AnnotationSnapshot {
    type V = Map<Seq<char>, Seq<char>>;

    closed spec fn view(&self) -> Map<Seq<char>, Seq<char>> {
        as_map(self.entries@)
    }
}

impl Clone for AnnotationSnapshot {
    fn clone(&self) -> (copy: Self)
        ensures
            copy@ == self@,
    {
        proof {
            use_type_invariant(self);
        }
        let mut entries: Vec<(String, String)> = Vec::new();
        let mut i: usize = 0;
        while i < self.entries.len()
            invariant
                i <= self.entries.len(),
                entries@.len() == i,
                forall|j: int|
                    0 <= j < i ==> (#[trigger] entries@[j]).0@ == self.entries@[j].0@
                        && entries@[j].1@ == self.entries@[j].1@,
            decreases self.entries.len() - i,
        {
            entries.push((self.entries[i].0.clone(), self.entries[i].1.clone()));
            i += 1;
        }
        proof {
            lemma_same_text_same_map(self.entries@, entries@);
        }
        AnnotationSnapshot { entries }
    }
}

impl AnnotationSnapshot {
    #[verifier::type_invariant]
    spec fn well_formed(&self) -> bool {
        keys_distinct(self.entries@)
    }

    /// The snapshot with no annotation in it.
    pub fn new() -> (snapshot: Self)
        ensures
            snapshot@ == Map::<Seq<char>, Seq<char>>::empty(),
    {
        let snapshot = AnnotationSnapshot { entries: Vec::new() };
        assert(snapshot@ =~= Map::<Seq<char>, Seq<char>>::empty());
        snapshot
    }

    /// The snapshot with `value` recorded under `key`, in place of what was
    /// recorded there.
    pub fn insert(self, key: String, value: String) -> (snapshot: Self)
        ensures
            snapshot@ == self@.insert(key@, value@),
    {
        proof {
            use_type_invariant(&self);
        }
        let mut entries = self.entries;
        put(&mut entries, key, value);
        AnnotationSnapshot { entries }
    }

    /// The value recorded under `key`, if there is one.
    pub fn get(&self, key: &str) -> (value: Option<&String>)
        ensures
            match value {
                Some(found) => self@.contains_key(key@) && self@[key@] == found@,
                None => !self@.contains_key(key@),
            },
    {
        proof {
            use_type_invariant(self);
        }
        let mut i: usize = 0;
        while i < self.entries.len()
            invariant
                i <= self.entries.len(),
                keys_distinct(self.entries@),
                forall|j: int| 0 <= j < i ==> (#[trigger] self.entries@[j]).0@ != key@,
            decreases self.entries.len() - i,
        {
            if same_text(self.entries[i].0.as_str(), key) {
                proof {
                    lemma_entry_in_map(self.entries@, i as int);
                }
                return Some(&self.entries[i].1);
            }
            i += 1;
        }
        None
    }

    /// How many annotations the snapshot holds.
    pub fn len(&self) -> (count: usize)
        ensures
            count == self@.dom().len(),
            self@.dom().finite(),
    {
        proof {
            use_type_invariant(self);
            lemma_domain_size(self.entries@);
        }
        self.entries.len()
    }
}

/// Sets the entry for `key` to `value`: in its place where the key is there,
/// at the end where it is new.
fn put(entries: &mut Vec<(String, String)>, key: String, value: String)
    requires
        keys_distinct(old(entries)@),
    ensures
        keys_distinct(final(entries)@),
        as_map(final(entries)@) == as_map(old(entries)@).insert(key@, value@),
{
    let ghost before = entries@;
    let mut i: usize = 0;
    while i < entries.len()
        invariant
            i <= entries.len(),
            entries@ == before,
            before == old(entries)@,
            keys_distinct(before),
            forall|j: int| 0 <= j < i ==> (#[trigger] before[j]).0@ != key@,
        decreases entries.len() - i,
    {
        if entries[i].0 == key {
            entries.set(i, (key, value));
            proof {
                let after = entries@;
                assert(keys_distinct(after)) by {
                    assert forall|a: int, b: int| 0 <= a < b < after.len() implies (
                    #[trigger] after[a]).0@ != (#[trigger] after[b]).0@ by {
                        assert(after[a].0@ == before[a].0@);
                        assert(after[b].0@ == before[b].0@);
                    }
                }
                assert(as_map(after) =~= as_map(before).insert(key@, value@)) by {
                    assert forall|k: Seq<char>| holds_key(after, k) <==> (holds_key(before, k)
                        || k == key@) by {
                        if holds_key(after, k) {
                            let p = place_of(after, k);
                            assert(before[p].0@ == after[p].0@);
                        }
                        if holds_key(before, k) {
                            let p = place_of(before, k);
                            assert(after[p].0@ == before[p].0@);
                        }
                        if k == key@ {
                            assert(after[i as int].0@ == k);
                        }
                    }
                    assert forall|k: Seq<char>| holds_key(after, k) implies as_map(after)[k]
                        == as_map(before).insert(key@, value@)[k] by {
                        let p = place_of(after, k);
                        lemma_entry_in_map(after, p);
                        if p != i {
                            assert(after[p] == before[p]);
                            lemma_entry_in_map(before, p);
                        }
                    }
                }
            }
            return ;
        }
        i += 1;
    }
    entries.push((key, value));
    proof {
        let after = entries@;
        let last = before.len() as int;
        assert(keys_distinct(after)) by {
            assert forall|a: int, b: int| 0 <= a < b < after.len() implies (
            #[trigger] after[a]).0@ != (#[trigger] after[b]).0@ by {
                assert(after[a] == before[a]);
                if b < last {
                    assert(after[b] == before[b]);
                }
            }
        }
        assert(as_map(after) =~= as_map(before).insert(key@, value@)) by {
            assert forall|k: Seq<char>| holds_key(after, k) <==> (holds_key(before, k) || k
                == key@) by {
                if holds_key(after, k) {
                    let p = place_of(after, k);
                    if p < last {
                        assert(before[p].0@ == k);
                    }
                }
                if holds_key(before, k) {
                    let p = place_of(before, k);
                    assert(after[p].0@ == k);
                }
                if k == key@ {
                    assert(after[last].0@ == k);
                }
            }
            assert forall|k: Seq<char>| holds_key(after, k) implies as_map(after)[k]
                == as_map(before).insert(key@, value@)[k] by {
                let p = place_of(after, k);
                lemma_entry_in_map(after, p);
                if p < last {
                    assert(after[p] == before[p]);
                    lemma_entry_in_map(before, p);
                }
            }
        }
    }
}

/// With distinct keys there are as many keys in the map as entries.
proof fn lemma_domain_size(entries: Seq<(String, String)>)
    requires
        keys_distinct(entries),
    ensures
        as_map(entries).dom().finite(),
        as_map(entries).dom().len() == entries.len(),
    decreases entries.len(),
{
    if entries.len() == 0 {
        assert(as_map(entries).dom() =~= Set::<Seq<char>>::empty());
    } else {
        let front = entries.drop_last();
        let last = entries.last();
        assert forall|i: int, j: int| 0 <= i < j < front.len() implies (#[trigger] front[i]).0@ != (
        #[trigger] front[j]).0@ by {
            assert(front[i] == entries[i]);
            assert(front[j] == entries[j]);
        }
        lemma_domain_size(front);
        assert(!holds_key(front, last.0@)) by {
            if holds_key(front, last.0@) {
                let p = place_of(front, last.0@);
                assert(entries[p] == front[p]);
                assert(entries[p].0@ != entries[entries.len() - 1].0@);
            }
        }
        assert(as_map(entries).dom() =~= as_map(front).dom().insert(last.0@)) by {
            assert forall|k: Seq<char>| holds_key(entries, k) <==> (holds_key(front, k) || k
                == last.0@) by {
                if holds_key(entries, k) {
                    let p = place_of(entries, k);
                    if p < front.len() {
                        assert(front[p].0@ == k);
                    }
                }
                if holds_key(front, k) {
                    let p = place_of(front, k);
                    assert(entries[p].0@ == k);
                }
                if k == last.0@ {
                    assert(entries[entries.len() - 1].0@ == k);
                }
            }
        }
    }
}

/// The snapshot to go by among the sibling workloads that were listed, each
/// given by its annotations if it has any: that of the last one. No sibling,
/// or a last one without annotations, means that nothing was recorded yet.
pub fn get_annotations(siblings: Vec<Option<AnnotationSnapshot>>) -> (snapshot: Option<
    AnnotationSnapshot,
>)
    ensures
        snapshot == if siblings@.len() == 0 {
            None
        } else {
            siblings@.last()
        },
{
    let mut siblings = siblings;
    match siblings.pop() {
        Some(annotations) => annotations,
        None => None,
    }
}

/// The fingerprint that a snapshot records: what stands under `state_hash`,
/// or the placeholder where there is no snapshot or no such key.
pub open spec fn recorded_fingerprint(snapshot: Option<Map<Seq<char>, Seq<char>>>) -> Seq<char> {
    match snapshot {
        Some(annotations) => if annotations.contains_key(STATE_HASH_KEY@) {
            annotations[STATE_HASH_KEY@]
        } else {
            UNKNOWN_FINGERPRINT@
        },
        None => UNKNOWN_FINGERPRINT@,
    }
}

/// A snapshot that may be absent, as the map it stands for.
pub open spec fn snapshot_view(snapshot: Option<AnnotationSnapshot>) -> Option<
    Map<Seq<char>, Seq<char>>,
> {
    match snapshot {
        Some(annotations) => Some(annotations@),
        None => None,
    }
}

/// Recovers the previously recorded fingerprint from a snapshot.
pub fn previous_fingerprint(snapshot: &Option<AnnotationSnapshot>) -> (previous: String)
    ensures
        previous@ == recorded_fingerprint(snapshot_view(*snapshot)),
{
    match snapshot {
        Some(annotations) => match annotations.get(STATE_HASH_KEY) {
            Some(recorded) => recorded.clone(),
            None => String::from_str(UNKNOWN_FINGERPRINT),
        },
        None => String::from_str(UNKNOWN_FINGERPRINT),
    }
}

} // verus!
