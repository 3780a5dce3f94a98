//! Raw request input as the parsing collaborator hands it over: for each field
//! name, the ordered list of raw text values or uploaded-file descriptors that
//! arrived under that name.

use vstd::prelude::*;

verus! {

/// Ghost description of one uploaded file: its original name and the path of
/// its materialized temporary copy.
pub struct FileMeta {
    pub name: Seq<char>,
    pub temp_path: Seq<char>,
}

/// A raw uploaded-file descriptor: the original filename and the path of the
/// already-materialized temporary file. The temporary file's lifetime is owned
/// by the upstream parsing collaborator; this is a read-only view of it.
pub struct FileField {
    pub name: String,
    pub temp_path: String,
}

impl View for FileField {
    type V = FileMeta;

    open spec fn view(&self) -> FileMeta {
        FileMeta { name: self.name@, temp_path: self.temp_path@ }
    }
}

impl DeepView for FileField {
    type V = FileMeta;

    open spec fn deep_view(&self) -> FileMeta {
        self@
    }
}

impl FileField {
    /// Packs an original filename and a temporary-file path into a descriptor.
    pub fn new(name: String, temp_path: String) -> (r: Self)
        ensures
            r@ == (FileMeta { name: name@, temp_path: temp_path@ }),
    {
        FileField { name, temp_path }
    }
}

/// Mapping from field name to the ordered sequence of raw entries that arrived
/// under that name (arrival order significant, duplicates allowed). Each field
/// removes its own entry exactly once during validation.
pub struct MultiMap<V> {
    entries: Vec<(String, Vec<V>)>,
}

/// Raw text values by field name, as decoded from the request body or query.
pub type FormData = MultiMap<String>;

/// Raw uploaded-file descriptors by field name, as decoded from a multipart body.
pub type Files = MultiMap<FileField>;

/// The mapping that a sequence of (name, values) entries denotes; a later
/// entry with the same name wins.
pub open spec fn entries_to_map<V: DeepView>(s: Seq<(String, Vec<V>)>) -> Map<
    Seq<char>,
    Seq<<V as DeepView>::V>,
>
    decreases s.len(),
{
    if s.len() == 0 {
        Map::empty()
    } else {
        entries_to_map(s.drop_last()).insert(s.last().0@, s.last().1.deep_view())
    }
}

/// No two entries carry the same name.
pub open spec fn distinct_keys<V>(s: Seq<(String, Vec<V>)>) -> bool {
    forall|i: int, j: int| 0 <= i < j < s.len() ==> s[i].0@ != s[j].0@
}

proof fn lemma_contains<V: DeepView>(s: Seq<(String, Vec<V>)>, k: Seq<char>)
    ensures
        entries_to_map(s).contains_key(k) <==> exists|i: int| 0 <= i < s.len() && s[i].0@ == k,
    decreases s.len(),
{
    if s.len() > 0 {
        lemma_contains(s.drop_last(), k);
        if s.last().0@ == k {
            assert(s[s.len() - 1].0@ == k);
        } else {
            if entries_to_map(s).contains_key(k) {
                let i = choose|i: int| 0 <= i < s.drop_last().len() && s.drop_last()[i].0@ == k;
                assert(s[i].0@ == k);
            }
            if exists|i: int| 0 <= i < s.len() && s[i].0@ == k {
                let i = choose|i: int| 0 <= i < s.len() && s[i].0@ == k;
                assert(i < s.len() - 1);
                assert(s.drop_last()[i].0@ == k);
            }
        }
    }
}

proof fn lemma_lookup<V: DeepView>(s: Seq<(String, Vec<V>)>, i: int)
    requires
        distinct_keys(s),
        0 <= i < s.len(),
    ensures
        entries_to_map(s).contains_key(s[i].0@),
        entries_to_map(s)[s[i].0@] == s[i].1.deep_view(),
    decreases s.len(),
{
    if i == s.len() - 1 {
    } else {
        assert(s.drop_last()[i] == s[i]);
        lemma_lookup(s.drop_last(), i);
        assert(s[i].0@ != s.last().0@);
    }
}

proof fn lemma_remove_entry<V: DeepView>(s: Seq<(String, Vec<V>)>, i: int)
    requires
        distinct_keys(s),
        0 <= i < s.len(),
    ensures
        entries_to_map(s.remove(i)) =~= entries_to_map(s).remove(s[i].0@),
    decreases s.len(),
{
    lemma_contains(s.drop_last(), s[i].0@);
    if i == s.len() - 1 {
        assert(s.remove(i) =~= s.drop_last());
        assert(!entries_to_map(s.drop_last()).contains_key(s[i].0@));
        assert(entries_to_map(s.drop_last()).insert(s.last().0@, s.last().1.deep_view()).remove(
            s[i].0@,
        ) =~= entries_to_map(s.drop_last()));
    } else {
        assert(s.remove(i).drop_last() =~= s.drop_last().remove(i));
        assert(s.remove(i).last() == s.last());
        lemma_remove_entry(s.drop_last(), i);
        assert(s.drop_last()[i] == s[i]);
        assert(s[i].0@ != s.last().0@);
    }
}

impl<V: DeepView> View for MultiMap<V> {
    type V = Map<Seq<char>, Seq<<V as DeepView>::V>>;

    closed spec fn view(&self) -> Map<Seq<char>, Seq<<V as DeepView>::V>> {
        entries_to_map(self.entries@)
    }
}

impl<V: DeepView> MultiMap<V> {
    /// Internal invariant: entry names are pairwise distinct.
    pub closed spec fn wf(&self) -> bool {
        distinct_keys(self.entries@)
    }

    /// An empty mapping.
    pub fn new() -> (r: Self)
        ensures
            r.wf(),
            r@ == Map::<Seq<char>, Seq<<V as DeepView>::V>>::empty(),
    {
        let r = MultiMap { entries: Vec::new() };
        proof {
            assert(r.entries@.len() == 0);
        }
        r
    }

    /// The position of the entry named `name`, if one exists.
    fn index_of(&self, name: &String) -> (r: Option<usize>)
        ensures
            match r {
                Some(i) => i < self.entries@.len() && self.entries@[i as int].0@ == name@,
                None => forall|j: int| 0 <= j < self.entries@.len() ==> self.entries@[j].0@ != name@,
            },
    {
        let mut i: usize = 0;
        while i < self.entries.len()
            invariant
                i <= self.entries@.len(),
                forall|j: int| 0 <= j < i ==> self.entries@[j].0@ != name@,
            decreases self.entries@.len() - i,
        {
            if self.entries[i].0 == *name {
                return Some(i);
            }
            i += 1;
        }
        None
    }

    /// Binds `values` to `name`, replacing any values previously stored there.
    pub fn insert(&mut self, name: String, values: Vec<V>)
        requires
            old(self).wf(),
        ensures
            final(self).wf(),
            final(self)@ == old(self)@.insert(name@, values.deep_view()),
    {
        let ghost s0 = self.entries@;
        match self.index_of(&name) {
            Some(i) => {
                let _ = self.entries.remove(i);
                proof {
                    lemma_remove_entry(s0, i as int);
                    assert forall|p: int, q: int|
                        0 <= p < q < self.entries@.len() implies self.entries@[p].0@
                        != self.entries@[q].0@ by {
                        assert(self.entries@[p] == if p < i as int {
                            s0[p]
                        } else {
                            s0[p + 1]
                        });
                        assert(self.entries@[q] == if q < i as int {
                            s0[q]
                        } else {
                            s0[q + 1]
                        });
                    }
                    assert forall|p: int|
                        0 <= p < self.entries@.len() implies self.entries@[p].0@ != name@ by {
                        assert(self.entries@[p] == if p < i as int {
                            s0[p]
                        } else {
                            s0[p + 1]
                        });
                    }
                }
                let ghost s1 = self.entries@;
                self.entries.push((name, values));
                proof {
                    assert(self.entries@.drop_last() =~= s1);
                    assert(entries_to_map(self.entries@) =~= entries_to_map(s0).insert(
                        self.entries@.last().0@,
                        values.deep_view(),
                    ));
                }
            },
            None => {
                let ghost s1 = self.entries@;
                self.entries.push((name, values));
                proof {
                    assert(self.entries@.drop_last() =~= s1);
                }
            },
        }
    }

    /// Removes and returns the values stored under `name`, if any.
    pub fn remove(&mut self, name: &String) -> (r: Option<Vec<V>>)
        requires
            old(self).wf(),
        ensures
            final(self).wf(),
            final(self)@ == old(self)@.remove(name@),
            r matches Some(v) ==> old(self)@.contains_key(name@) && v.deep_view() == old(
                self,
            )@[name@],
            r is None ==> !old(self)@.contains_key(name@),
    {
        let ghost s0 = self.entries@;
        match self.index_of(name) {
            Some(i) => {
                proof {
                    lemma_lookup(s0, i as int);
                    lemma_remove_entry(s0, i as int);
                }
                let pair = self.entries.remove(i);
                proof {
                    assert forall|p: int, q: int|
                        0 <= p < q < self.entries@.len() implies self.entries@[p].0@
                        != self.entries@[q].0@ by {
                        assert(self.entries@[p] == if p < i as int {
                            s0[p]
                        } else {
                            s0[p + 1]
                        });
                        assert(self.entries@[q] == if q < i as int {
                            s0[q]
                        } else {
                            s0[q + 1]
                        });
                    }
                }
                Some(pair.1)
            },
            None => {
                proof {
                    lemma_contains(s0, name@);
                    assert(entries_to_map(s0).remove(name@) =~= entries_to_map(s0));
                }
                None
            },
        }
    }
}

} // verus!
