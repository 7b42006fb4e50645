//! Grouping of records by a key, each group in the order its records came.

use vstd::prelude::*;

verus! {

/// Whether an entry has key `k`.
pub open spec fn key_is<R>(k: Seq<char>) -> spec_fn((Seq<char>, R)) -> bool {
    |e: (Seq<char>, R)| e.0 == k
}

/// The record of an entry.
pub open spec fn record_of<R>() -> spec_fn((Seq<char>, R)) -> R {
    |e: (Seq<char>, R)| e.1
}

/// The records of `entries` whose key is `k`, in order.
pub open spec fn members_of<R>(entries: Seq<(Seq<char>, R)>, k: Seq<char>) -> Seq<R> {
    entries.filter(key_is(k)).map_values(record_of())
}

/// Some entry has key `k`.
pub open spec fn has_key<R>(entries: Seq<(Seq<char>, R)>, k: Seq<char>) -> bool {
    exists|i: int| 0 <= i < entries.len() && entries[i].0 == k
}

/// Records grouped by key. A group is made when its key first comes, and
/// keeps its records in the order they were added.
pub struct Groups<R> {
    /// The keys, in the order they first came.
    pub keys: Vec<String>,
    /// The records of each key, by the key's position.
    pub members: Vec<Vec<R>>,
    /// Every key and record added so far, in order.
    pub entries: Ghost<Seq<(Seq<char>, R)>>,
}

proof fn lemma_members_push<R>(entries: Seq<(Seq<char>, R)>, e: (Seq<char>, R), k: Seq<char>)
    ensures
        members_of(entries.push(e), k) == if e.0 == k {
            members_of(entries, k).push(e.1)
        } else {
            members_of(entries, k)
        },
{
    let pred = key_is::<R>(k);
    entries.lemma_filter_push(e, pred);
    let f = record_of::<R>();
    if e.0 == k {
        assert(entries.filter(pred).push(e).map_values(f) =~= entries.filter(pred).map_values(
            f,
        ).push(e.1));
    }
}

impl<R> Groups<R> {
    pub open spec fn key_view(&self) -> Seq<Seq<char>> {
        self.keys@.map_values(|k: String| k@)
    }

    /// Keys are distinct, each group holds exactly the records of its key,
    /// and every key that came has a group.
    pub open spec fn wf(&self) -> bool {
        &&& self.keys@.len() == self.members@.len()
        &&& forall|i: int, j: int|
            0 <= i < j < self.keys@.len() ==> (#[trigger] self.keys@[i])@ != (#[trigger] self.keys@[j])@
        &&& forall|i: int|
            0 <= i < self.keys@.len() ==> (#[trigger] self.members@[i])@ == members_of(
                self.entries@,
                self.keys@[i]@,
            )
        &&& forall|k: Seq<char>|
            #[trigger] has_key(self.entries@, k) ==> exists|i: int|
                0 <= i < self.keys@.len() && self.keys@[i]@ == k
        &&& forall|i: int| 0 <= i < self.keys@.len() ==> has_key(self.entries@, (#[trigger] self.keys@[i])@)
    }

    /// The records with key `k`.
    pub open spec fn group(&self, k: Seq<char>) -> Seq<R> {
        members_of(self.entries@, k)
    }

    pub fn new() -> (g: Groups<R>)
        ensures
            g.wf(),
            g.entries@ == Seq::<(Seq<char>, R)>::empty(),
            g.keys@.len() == 0,
    {
        Groups { keys: Vec::new(), members: Vec::new(), entries: Ghost(Seq::empty()) }
    }

    /// Position of the group of `key`, if it has one.
    pub fn position(&self, key: &String) -> (r: Option<usize>)
        requires
            self.wf(),
        ensures
            r matches Some(i) ==> i < self.keys@.len() && self.keys@[i as int]@ == key@,
            r is None ==> !has_key(self.entries@, key@) && forall|i: int|
                0 <= i < self.keys@.len() ==> self.keys@[i]@ != key@,
    {
        let mut i: usize = 0;
        while i < self.keys.len()
            invariant
                self.wf(),
                i <= self.keys@.len(),
                forall|j: int| 0 <= j < i ==> self.keys@[j]@ != key@,
            decreases self.keys@.len() - i,
        {
            if self.keys[i] == *key {
                return Some(i);
            }
            i = i + 1;
        }
        None
    }

    /// Adds a record under `key`, making its group if it is the first.
    pub fn add(&mut self, key: String, r: R)
        requires
            old(self).wf(),
        ensures
            final(self).wf(),
            final(self).entries@ == old(self).entries@.push((key@, r)),
            final(self).key_view() == if has_key(old(self).entries@, key@) {
                old(self).key_view()
            } else {
                old(self).key_view().push(key@)
            },
    {
        let ghost e = (key@, r);
        let ghost old_entries = self.entries@;
        proof {
            assert forall|k: Seq<char>| #[trigger]
                members_of(old_entries.push(e), k) == if e.0 == k {
                    members_of(old_entries, k).push(e.1)
                } else {
                    members_of(old_entries, k)
                } by {
                lemma_members_push(old_entries, e, k);
            }
            assert(old_entries.push(e)[old_entries.len() as int] == e);
        }
        match self.position(&key) {
            Some(i) => {
                let mut g = self.members.remove(i);
                g.push(r);
                self.members.insert(i, g);
                self.entries = Ghost(old_entries.push(e));
                proof {
                    assert forall|k: Seq<char>| #[trigger]
                        has_key(self.entries@, k) implies exists|j: int|
                            0 <= j < self.keys@.len() && self.keys@[j]@ == k by {
                        let w = choose|w: int| 0 <= w < self.entries@.len() && self.entries@[w].0 == k;
                        if w < old_entries.len() {
                            assert(old_entries[w] == self.entries@[w]);
                            assert(has_key(old(self).entries@, k));
                            let j = choose|j: int|
                                0 <= j < old(self).keys@.len() && old(self).keys@[j]@ == k;
                            assert(self.keys@[j] == old(self).keys@[j]);
                        } else {
                            assert(self.keys@[i as int]@ == k);
                        }
                    }
                    assert(self.key_view() =~= old(self).key_view());
                    assert(has_key(old_entries, key@));
                    assert forall|j: int| 0 <= j < self.keys@.len() implies has_key(
                        self.entries@,
                        (#[trigger] self.keys@[j])@,
                    ) by {
                        let k = self.keys@[j]@;
                        assert(has_key(old_entries, k));
                        let w = choose|w: int| 0 <= w < old_entries.len() && old_entries[w].0 == k;
                        assert(self.entries@[w] == old_entries[w]);
                    }
                }
            },
            None => {
                self.keys.push(key);
                let mut g: Vec<R> = Vec::new();
                g.push(r);
                self.members.push(g);
                self.entries = Ghost(old_entries.push(e));
                proof {
                    let n = self.keys@.len() - 1;
                    assert(members_of(old_entries, e.0) =~= Seq::<R>::empty()) by {
                        if members_of(old_entries, e.0).len() > 0 {
                            let pred = key_is::<R>(e.0);
                            let x = old_entries.filter(pred)[0];
                            old_entries.lemma_filter_pred(pred, 0);
                            assert(old_entries.filter(pred).contains(x));
                            old_entries.lemma_filter_contains_rev(pred, x);
                            let w = choose|w: int| 0 <= w < old_entries.len() && old_entries[w] == x;
                            assert(old_entries[w].0 == e.0);
                            assert(has_key(old_entries, e.0));
                        }
                    }
                    assert(self.members@[n]@ =~= seq![e.1]);
                    assert forall|k: Seq<char>| #[trigger]
                        has_key(self.entries@, k) implies exists|j: int|
                            0 <= j < self.keys@.len() && self.keys@[j]@ == k by {
                        let w = choose|w: int| 0 <= w < self.entries@.len() && self.entries@[w].0 == k;
                        if w < old_entries.len() {
                            assert(old_entries[w] == self.entries@[w]);
                            assert(has_key(old(self).entries@, k));
                            let j = choose|j: int|
                                0 <= j < old(self).keys@.len() && old(self).keys@[j]@ == k;
                            assert(self.keys@[j] == old(self).keys@[j]);
                        } else {
                            assert(self.keys@[n]@ == k);
                        }
                    }
                    assert(self.key_view() =~= old(self).key_view().push(key@));
                    assert forall|j: int| 0 <= j < self.keys@.len() implies has_key(
                        self.entries@,
                        (#[trigger] self.keys@[j])@,
                    ) by {
                        let k = self.keys@[j]@;
                        if j < n {
                            assert(has_key(old_entries, k));
                            let w = choose|w: int| 0 <= w < old_entries.len() && old_entries[w].0 == k;
                            assert(self.entries@[w] == old_entries[w]);
                        } else {
                            assert(self.entries@[old_entries.len() as int].0 == k);
                        }
                    }
                }
            },
        }
    }

    /// The records with key `key`, if any came.
    pub fn get(&self, key: &String) -> (r: Option<&Vec<R>>)
        requires
            self.wf(),
        ensures
            r matches Some(v) ==> v@ == self.group(key@) && v@.len() > 0,
            r is None <==> !has_key(self.entries@, key@),
    {
        match self.position(key) {
            Some(i) => {
                proof {
                    lemma_group_nonempty(self, i as int);
                }
                Some(&self.members[i])
            },
            None => None,
        }
    }
}

proof fn lemma_group_nonempty<R>(g: &Groups<R>, i: int)
    requires
        g.wf(),
        0 <= i < g.keys@.len(),
    ensures
        g.members@[i]@.len() > 0,
        has_key(g.entries@, g.keys@[i]@),
{
    let k = g.keys@[i]@;
    let pred = key_is::<R>(k);
    let w = choose|w: int| 0 <= w < g.entries@.len() && g.entries@[w].0 == k;
    g.entries@.lemma_filter_contains(pred, w);
    assert(g.members@[i]@ == members_of(g.entries@, k));
    assert(g.entries@.filter(pred).len() > 0);
}

} // verus!
