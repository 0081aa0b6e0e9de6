use vstd::prelude::*;

verus! {

/// Whether no resource id occurs twice among `entries`.
pub open spec fn ids_distinct<R>(entries: Seq<(String, R)>) -> bool {
    forall|i: int, j: int|
        0 <= i < entries.len() && 0 <= j < entries.len() && i != j
            ==> #[trigger] entries[i].0@ != #[trigger] entries[j].0@
}

/// Whether `id` is the id of some entry.
pub open spec fn has_id<R>(entries: Seq<(String, R)>, id: Seq<char>) -> bool {
    exists|i: int| 0 <= i < entries.len() && #[trigger] entries[i].0@ == id
}

/// The map from resource id to resource that `entries` stand for.
pub open spec fn entries_map<R>(entries: Seq<(String, R)>) -> Map<Seq<char>, R> {
    Map::new(
        |id: Seq<char>| has_id(entries, id),
        |id: Seq<char>| entries[choose|i: int| 0 <= i < entries.len() && #[trigger] entries[i].0@ == id].1,
    )
}

/// With distinct ids, the entry at `i` is what the map holds under its id.
proof fn lemma_entry_in_map<R>(entries: Seq<(String, R)>, i: int)
    requires
        ids_distinct(entries),
        0 <= i < entries.len(),
    ensures
        entries_map(entries).contains_key(entries[i].0@),
        entries_map(entries)[entries[i].0@] == entries[i].1,
{
    let id = entries[i].0@;
    assert(has_id(entries, id));
    let k = choose|k: int| 0 <= k < entries.len() && #[trigger] entries[k].0@ == id;
    assert(k == i);
}

/// The map of distinct entries is finite and has one key per entry.
proof fn lemma_map_len<R>(entries: Seq<(String, R)>)
    requires
        ids_distinct(entries),
    ensures
        entries_map(entries).dom().finite(),
        entries_map(entries).len() == entries.len(),
{
    broadcast use vstd::seq_lib::seq_to_set_is_finite;

    let ids = entries.map_values(|e: (String, R)| e.0@);
    assert(ids.no_duplicates()) by {
        assert forall|i: int, j: int| 0 <= i < ids.len() && 0 <= j < ids.len() && i != j implies ids[i]
            != ids[j] by {
            assert(entries[i].0@ != entries[j].0@);
        }
    }
    assert forall|id: Seq<char>| #[trigger] ids.to_set().contains(id) <==> has_id(entries, id) by {
        if has_id(entries, id) {
            let i = choose|i: int| 0 <= i < entries.len() && #[trigger] entries[i].0@ == id;
            assert(ids[i] == id);
        }
        if ids.to_set().contains(id) {
            let i = choose|i: int| 0 <= i < ids.len() && ids[i] == id;
            assert(entries[i].0@ == id);
        }
    }
    assert(entries_map(entries).dom() =~= ids.to_set());
    ids.unique_seq_to_set();
}

/// Replacing an entry by one with the same id keeps the ids distinct and
/// stores the new resource under that id.
proof fn lemma_replace_entry<R>(entries: Seq<(String, R)>, i: int, entry: (String, R))
    requires
        ids_distinct(entries),
        0 <= i < entries.len(),
        entries[i].0@ == entry.0@,
    ensures
        ids_distinct(entries.update(i, entry)),
        entries_map(entries.update(i, entry)) == entries_map(entries).insert(entry.0@, entry.1),
{
    let after = entries.update(i, entry);
    assert(ids_distinct(after)) by {
        assert forall|j: int, k: int|
            0 <= j < after.len() && 0 <= k < after.len() && j != k implies #[trigger] after[j].0@
            != #[trigger] after[k].0@ by {
            assert(entries[j].0@ != entries[k].0@);
        }
    }
    let expected = entries_map(entries).insert(entry.0@, entry.1);
    assert forall|id: Seq<char>| #[trigger] has_id(after, id) <==> expected.contains_key(id) by {
        if has_id(after, id) {
            let j = choose|j: int| 0 <= j < after.len() && #[trigger] after[j].0@ == id;
            assert(entries[j].0@ == id);
        }
        if has_id(entries, id) {
            let j = choose|j: int| 0 <= j < entries.len() && #[trigger] entries[j].0@ == id;
            assert(after[j].0@ == id);
        }
        if id == entry.0@ {
            assert(after[i].0@ == id);
        }
    }
    assert forall|id: Seq<char>| #[trigger] expected.contains_key(id) implies entries_map(after)[id]
        == expected[id] by {
        if id == entry.0@ {
            lemma_entry_in_map(after, i);
        } else {
            let j = choose|j: int| 0 <= j < entries.len() && #[trigger] entries[j].0@ == id;
            lemma_entry_in_map(entries, j);
            lemma_entry_in_map(after, j);
        }
    }
    assert(entries_map(after) =~= expected);
}

/// Appending an entry under a new id keeps the ids distinct and adds the
/// resource under that id.
proof fn lemma_push_entry<R>(entries: Seq<(String, R)>, entry: (String, R))
    requires
        ids_distinct(entries),
        !has_id(entries, entry.0@),
    ensures
        ids_distinct(entries.push(entry)),
        entries_map(entries.push(entry)) == entries_map(entries).insert(entry.0@, entry.1),
{
    let after = entries.push(entry);
    let n = entries.len() as int;
    assert(ids_distinct(after)) by {
        assert forall|j: int, k: int|
            0 <= j < after.len() && 0 <= k < after.len() && j != k implies #[trigger] after[j].0@
            != #[trigger] after[k].0@ by {
            if j < n && k < n {
                assert(entries[j].0@ != entries[k].0@);
            } else if j < n {
                assert(entries[j].0@ != entry.0@);
            } else if k < n {
                assert(entries[k].0@ != entry.0@);
            }
        }
    }
    let expected = entries_map(entries).insert(entry.0@, entry.1);
    assert forall|id: Seq<char>| #[trigger] has_id(after, id) <==> expected.contains_key(id) by {
        if has_id(after, id) {
            let j = choose|j: int| 0 <= j < after.len() && #[trigger] after[j].0@ == id;
            if j < n {
                assert(entries[j].0@ == id);
            }
        }
        if has_id(entries, id) {
            let j = choose|j: int| 0 <= j < entries.len() && #[trigger] entries[j].0@ == id;
            assert(after[j].0@ == id);
        }
        if id == entry.0@ {
            assert(after[n].0@ == id);
        }
    }
    assert forall|id: Seq<char>| #[trigger] expected.contains_key(id) implies entries_map(after)[id]
        == expected[id] by {
        if id == entry.0@ {
            lemma_entry_in_map(after, n);
        } else {
            let j = choose|j: int| 0 <= j < entries.len() && #[trigger] entries[j].0@ == id;
            lemma_entry_in_map(entries, j);
            lemma_entry_in_map(after, j);
        }
    }
    assert(entries_map(after) =~= expected);
}

/// The live media resources of the server, each under the id of the path it
/// was published on.
pub struct MediaResources<R> {
    entries: Vec<(String, R)>,
}

impl<R> View for MediaResources<R> {
    type V = Map<Seq<char>, R>;

    closed spec fn view(&self) -> Map<Seq<char>, R> {
        entries_map(self.entries@)
    }
}

impl<R> MediaResources<R> {
    #[verifier::type_invariant]
    closed spec fn well_formed(self) -> bool {
        ids_distinct(self.entries@)
    }

    /// An empty set of resources.
    pub fn new() -> (resources: Self)
        ensures
            resources@ == Map::<Seq<char>, R>::empty(),
    {
        let resources = MediaResources { entries: Vec::new() };
        assert(resources@ =~= Map::<Seq<char>, R>::empty());
        resources
    }

    /// The number of resources held.
    pub fn len(&self) -> (n: usize)
        ensures
            self@.dom().finite(),
            n == self@.len(),
    {
        proof {
            use_type_invariant(self);
            lemma_map_len(self.entries@);
        }
        self.entries.len()
    }

    /// Stores `resource` under `resource_id`, in place of any resource held
    /// under that id before.
    pub fn insert(&mut self, resource_id: String, resource: R)
        ensures
            final(self)@ == old(self)@.insert(resource_id@, resource),
    {
        proof {
            use_type_invariant(&*self);
        }
        let mut entries: Vec<(String, R)> = Vec::new();
        std::mem::swap(&mut entries, &mut self.entries);
        let n = entries.len();
        let mut i: usize = 0;
        while i < n
            invariant
                n == entries.len(),
                i <= n,
                entries@ == old(self).entries@,
                ids_distinct(entries@),
                forall|k: int| 0 <= k < i ==> #[trigger] entries@[k].0@ != resource_id@,
            decreases n - i,
        {
            if entries[i].0 == resource_id {
                proof {
                    lemma_replace_entry(entries@, i as int, (resource_id, resource));
                }
                entries.set(i, (resource_id, resource));
                self.entries = entries;
                return;
            }
            i = i + 1;
        }
        proof {
            lemma_push_entry(entries@, (resource_id, resource));
        }
        entries.push((resource_id, resource));
        self.entries = entries;
    }

    /// The resource held under `resource_id`, if there is one.
    pub fn get(&self, resource_id: &String) -> (found: Option<&R>)
        ensures
            found is Some <==> self@.contains_key(resource_id@),
            found matches Some(r) ==> *r == self@[resource_id@],
    {
        proof {
            use_type_invariant(self);
        }
        let n = self.entries.len();
        let mut i: usize = 0;
        while i < n
            invariant
                n == self.entries.len(),
                i <= n,
                ids_distinct(self.entries@),
                forall|k: int| 0 <= k < i ==> #[trigger] self.entries@[k].0@ != resource_id@,
            decreases n - i,
        {
            if self.entries[i].0 == *resource_id {
                proof {
                    lemma_entry_in_map(self.entries@, i as int);
                }
                return Some(&self.entries[i].1);
            }
            i = i + 1;
        }
        Option::None
    }
}

/// Looking up an id right after storing a resource under it gives that
/// resource, and every other id keeps what it held.
pub proof fn lookup_after_insert<R>(before: Map<Seq<char>, R>, id: Seq<char>, resource: R, other: Seq<char>)
    ensures
        before.insert(id, resource).contains_key(id),
        before.insert(id, resource)[id] == resource,
        other != id ==> before.insert(id, resource).contains_key(other) == before.contains_key(other),
        other != id && before.contains_key(other) ==> before.insert(id, resource)[other] == before[other],
{
}

/// Storing two resources under one id in turn leaves the later one.
pub proof fn later_insert_wins<R>(before: Map<Seq<char>, R>, id: Seq<char>, first: R, second: R)
    ensures
        before.insert(id, first).insert(id, second) == before.insert(id, second),
{
    assert(before.insert(id, first).insert(id, second) =~= before.insert(id, second));
}

/// Storing a resource adds one to the count exactly when its id was not
/// held before.
pub proof fn insert_counts_new_ids<R>(before: Map<Seq<char>, R>, id: Seq<char>, resource: R)
    requires
        before.dom().finite(),
    ensures
        before.insert(id, resource).len() == before.len() + if before.contains_key(id) {
            0int
        } else {
            1int
        },
{
    if before.contains_key(id) {
        assert(before.insert(id, resource).dom() =~= before.dom());
    }
}

} // verus!
