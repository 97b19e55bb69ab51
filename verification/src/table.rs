//! An insertion-ordered table from names to values, both strings.

use vstd::prelude::*;

verus! {

/// One row of a [`Table`].
struct Entry {
    key: String,
    value: String,
}

/// No key occurs in two rows.
spec fn distinct_keys(rows: Seq<Entry>) -> bool {
    forall|i: int, j: int|
        0 <= i < rows.len() && 0 <= j < rows.len() && #[trigger] rows[i].key@ == #[trigger] rows[j].key@
            ==> i == j
}

/// Some row of `rows` has the key `key`.
spec fn has_key(rows: Seq<Entry>, key: Seq<char>) -> bool {
    exists|i: int| 0 <= i < rows.len() && #[trigger] rows[i].key@ == key
}

/// The index of a row of `rows` with the key `key`.
spec fn index_of(rows: Seq<Entry>, key: Seq<char>) -> int {
    choose|i: int| 0 <= i < rows.len() && #[trigger] rows[i].key@ == key
}

/// The map that `rows` stand for.
spec fn rows_to_map(rows: Seq<Entry>) -> Map<Seq<char>, Seq<char>> {
    Map::new(|key: Seq<char>| has_key(rows, key), |key: Seq<char>| rows[index_of(rows, key)].value@)
}

/// With distinct keys, each row is what the map holds for its key.
proof fn lemma_row_in_map(rows: Seq<Entry>, i: int)
    requires
        distinct_keys(rows),
        0 <= i < rows.len(),
    ensures
        rows_to_map(rows).contains_key(rows[i].key@),
        rows_to_map(rows)[rows[i].key@] == rows[i].value@,
{
    let key = rows[i].key@;
    assert(has_key(rows, key));
    let j = index_of(rows, key);
    assert(0 <= j < rows.len() && rows[j].key@ == key);
    assert(i == j);
}

/// A table from names to values in which no name occurs twice. Rows keep
/// the order in which their names were first inserted.
pub struct Table {
    rows: Vec<Entry>,
}

impl View for Table {
    type V = Map<Seq<char>, Seq<char>>;

    closed spec fn view(&self) -> Map<Seq<char>, Seq<char>> {
        rows_to_map(self.rows@)
    }
}

impl Table {
    #[verifier::type_invariant]
    spec fn unique(&self) -> bool {
        distinct_keys(self.rows@)
    }

    /// The empty table.
    pub fn new() -> (t: Table)
        ensures
            t@ == Map::<Seq<char>, Seq<char>>::empty(),
    {
        let t = Table { rows: Vec::new() };
        assert(t@ =~= Map::<Seq<char>, Seq<char>>::empty());
        t
    }

    /// The position of the row named `key`, if there is one.
    fn find(&self, key: &str) -> (r: Option<usize>)
        ensures
            match r {
                Some(i) => i < self.rows@.len() && self.rows@[i as int].key@ == key@,
                None => !has_key(self.rows@, key@),
            },
    {
        let wanted = String::from_str(key);
        let mut i: usize = 0;
        while i < self.rows.len()
            invariant
                i <= self.rows@.len(),
                wanted@ == key@,
                forall|j: int| 0 <= j < i ==> self.rows@[j].key@ != key@,
            decreases self.rows@.len() - i,
        {
            if self.rows[i].key == wanted {
                return Some(i);
            }
            i = i + 1;
        }
        None
    }

    /// The value stored under `key`, if any.
    pub fn get(&self, key: &str) -> (r: Option<String>)
        ensures
            match r {
                Some(v) => self@.contains_key(key@) && v@ == self@[key@],
                None => !self@.contains_key(key@),
            },
    {
        proof {
            use_type_invariant(self);
        }
        match self.find(key) {
            Some(i) => {
                proof {
                    lemma_row_in_map(self.rows@, i as int);
                }
                Some(self.rows[i].value.clone())
            },
            None => None,
        }
    }

    /// Whether a value is stored under `key`.
    pub fn contains(&self, key: &str) -> (b: bool)
        ensures
            b == self@.contains_key(key@),
    {
        self.find(key).is_some()
    }

    /// Stores `value` under `key`, replacing what was stored there.
    pub fn insert(&mut self, key: String, value: String)
        ensures
            final(self)@ == old(self)@.insert(key@, value@),
    {
        proof {
            use_type_invariant(&*self);
        }
        let ghost before = self.rows@;
        let ghost k = key@;
        let ghost v = value@;
        let found = self.find(key.as_str());
        let mut rows: Vec<Entry> = Vec::new();
        std::mem::swap(&mut self.rows, &mut rows);
        match found {
            Some(i) => {
                rows.set(i, Entry { key, value });
                proof {
                    let after = rows@;
                    assert forall|key2: Seq<char>| has_key(after, key2) == has_key(before, key2) by {
                        if has_key(before, key2) {
                            let j = index_of(before, key2);
                            assert(after[j].key@ == key2);
                        }
                        if has_key(after, key2) {
                            let j = index_of(after, key2);
                            assert(before[j].key@ == key2);
                        }
                    }
                    assert(distinct_keys(after)) by {
                        assert forall|a: int, b: int|
                            0 <= a < after.len() && 0 <= b < after.len() && #[trigger] after[a].key@
                                == #[trigger] after[b].key@ implies a == b by {
                            assert(before[a].key@ == before[b].key@);
                        }
                    }
                    assert forall|key2: Seq<char>| has_key(after, key2) implies rows_to_map(
                        after,
                    )[key2] == rows_to_map(before).insert(k, v)[key2] by {
                        let j = index_of(after, key2);
                        lemma_row_in_map(after, j);
                        lemma_row_in_map(before, j);
                    }
                    assert(rows_to_map(after) =~= rows_to_map(before).insert(k, v));
                }
            },
            None => {
                rows.push(Entry { key, value });
                proof {
                    let after = rows@;
                    let n = before.len() as int;
                    assert(distinct_keys(after)) by {
                        assert forall|a: int, b: int|
                            0 <= a < after.len() && 0 <= b < after.len() && #[trigger] after[a].key@
                                == #[trigger] after[b].key@ implies a == b by {
                            if a < n && b < n {
                                assert(before[a].key@ == before[b].key@);
                            } else if a < n {
                                assert(before[a].key@ == k);
                            } else if b < n {
                                assert(before[b].key@ == k);
                            }
                        }
                    }
                    assert forall|key2: Seq<char>|
                        has_key(after, key2) == (key2 == k || has_key(before, key2)) by {
                        if has_key(before, key2) {
                            let j = index_of(before, key2);
                            assert(after[j].key@ == key2);
                        }
                        if key2 == k {
                            assert(after[n].key@ == key2);
                        }
                        if has_key(after, key2) {
                            let j = index_of(after, key2);
                            if j < n {
                                assert(before[j].key@ == key2);
                            }
                        }
                    }
                    assert forall|key2: Seq<char>| has_key(after, key2) implies rows_to_map(
                        after,
                    )[key2] == rows_to_map(before).insert(k, v)[key2] by {
                        let j = index_of(after, key2);
                        lemma_row_in_map(after, j);
                        if j < n {
                            assert(before[j].key@ == key2);
                            lemma_row_in_map(before, j);
                        }
                    }
                    assert(rows_to_map(after) =~= rows_to_map(before).insert(k, v));
                }
            },
        }
        self.rows = rows;
    }

    /// Removes what is stored under `key` and tells whether there was
    /// anything.
    pub fn remove(&mut self, key: &str) -> (found: bool)
        ensures
            found == old(self)@.contains_key(key@),
            final(self)@ == old(self)@.remove(key@),
    {
        proof {
            use_type_invariant(&*self);
        }
        let ghost before = self.rows@;
        let ghost k = key@;
        let found = self.find(key);
        let mut rows: Vec<Entry> = Vec::new();
        std::mem::swap(&mut self.rows, &mut rows);
        let removed = match found {
            Some(i) => {
                rows.remove(i);
                proof {
                    let after = rows@;
                    let at = i as int;
                    assert forall|j: int| 0 <= j < after.len() implies after[j] == before[if j < at {
                        j
                    } else {
                        j + 1
                    }] by {}
                    assert(distinct_keys(after)) by {
                        assert forall|a: int, b: int|
                            0 <= a < after.len() && 0 <= b < after.len() && #[trigger] after[a].key@
                                == #[trigger] after[b].key@ implies a == b by {
                            let a0 = if a < at { a } else { a + 1 };
                            let b0 = if b < at { b } else { b + 1 };
                            assert(before[a0].key@ == before[b0].key@);
                        }
                    }
                    assert forall|key2: Seq<char>|
                        has_key(after, key2) == (key2 != k && has_key(before, key2)) by {
                        if has_key(after, key2) {
                            let j = index_of(after, key2);
                            let j0 = if j < at { j } else { j + 1 };
                            assert(before[j0].key@ == key2);
                            assert(before[at].key@ == k);
                        }
                        if key2 != k && has_key(before, key2) {
                            let j0 = index_of(before, key2);
                            let j = if j0 < at { j0 } else { j0 - 1 };
                            assert(after[j].key@ == key2);
                        }
                    }
                    assert forall|key2: Seq<char>| has_key(after, key2) implies rows_to_map(
                        after,
                    )[key2] == rows_to_map(before)[key2] by {
                        let j = index_of(after, key2);
                        let j0 = if j < at { j } else { j + 1 };
                        lemma_row_in_map(after, j);
                        lemma_row_in_map(before, j0);
                    }
                    assert(rows_to_map(after) =~= rows_to_map(before).remove(k));
                }
                true
            },
            None => {
                assert(rows_to_map(before) =~= rows_to_map(before).remove(k));
                false
            },
        };
        self.rows = rows;
        removed
    }
}

} // verus!
