//! The requests that wait for an answer from the TV, keyed by their id.
//!
//! Each entry pairs the id of a request with whatever the caller waits on
//! (in the client, the sending half of a one-shot channel). No id occurs twice.
use vstd::prelude::*;

verus! {

/// Whether no id occurs twice among `entries`.
pub open spec fn ids_distinct<T>(entries: Seq<(String, T)>) -> bool {
    forall|i: int, j: int|
        0 <= i < entries.len() && 0 <= j < entries.len() && i != j ==> #[trigger] entries[i].0@
            != #[trigger] entries[j].0@
}

/// Whether some entry carries the id `id`.
pub open spec fn has_id<T>(entries: Seq<(String, T)>, id: Seq<char>) -> bool {
    exists|i: int| 0 <= i < entries.len() && #[trigger] entries[i].0@ == id
}

/// The position of the entry that carries `id`.
pub open spec fn position_of<T>(entries: Seq<(String, T)>, id: Seq<char>) -> int {
    choose|i: int| 0 <= i < entries.len() && #[trigger] entries[i].0@ == id
}

/// The map from ids to waiters that a list of entries stands for.
pub open spec fn entries_map<T>(entries: Seq<(String, T)>) -> Map<Seq<char>, T> {
    Map::new(|id: Seq<char>| has_id(entries, id), |id: Seq<char>| entries[position_of(entries, id)].1)
}

/// The table of requests that wait for an answer.
pub struct PendingRequests<T> {
    entries: Vec<(String, T)>,
}

impl<T> View for PendingRequests<T> {
    type V = Map<Seq<char>, T>;

    closed spec fn view(&self) -> Map<Seq<char>, T> {
        entries_map(self.entries@)
    }
}

/// In a list whose ids are distinct, the entry at `i` is the one found for its id.
proof fn lemma_position_unique<T>(entries: Seq<(String, T)>, i: int)
    requires
        ids_distinct(entries),
        0 <= i < entries.len(),
    ensures
        has_id(entries, entries[i].0@),
        position_of(entries, entries[i].0@) == i,
{
    let id = entries[i].0@;
    assert(has_id(entries, id));
    let p = position_of(entries, id);
    assert(entries[p].0@ == id);
}

/// Where in `entries` the entry for `id` stands, if any.
fn find_entry<T>(entries: &Vec<(String, T)>, id: &String) -> (res: Option<usize>)
    ensures
        match res {
            Some(i) => i < entries@.len() && entries@[i as int].0@ == id@,
            None => !has_id(entries@, id@),
        },
{
    let mut i: usize = 0;
    while i < entries.len()
        invariant
            i <= entries@.len(),
            forall|k: int| 0 <= k < i ==> entries@[k].0@ != id@,
        decreases entries@.len() - i,
    {
        if entries[i].0 == *id {
            return Some(i);
        }
        i = i + 1;
    }
    None
}

/// Takes the entry for `id` out of `entries`, if there is one.
fn remove_entry<T>(entries: &mut Vec<(String, T)>, id: &String) -> (res: Option<T>)
    requires
        ids_distinct(old(entries)@),
    ensures
        ids_distinct(final(entries)@),
        entries_map(final(entries)@) == entries_map(old(entries)@).remove(id@),
        res is Some <==> entries_map(old(entries)@).dom().contains(id@),
        res matches Some(w) ==> w == entries_map(old(entries)@)[id@],
{
    match find_entry(entries, id) {
        None => {
            assert(entries_map(entries@) =~= entries_map(old(entries)@).remove(id@));
            None
        },
        Some(i) => {
            let ghost before = entries@;
            proof {
                lemma_position_unique(before, i as int);
            }
            let (_, waiter) = entries.remove(i);
            proof {
                let after = entries@;
                assert(after =~= before.remove(i as int));
                assert forall|a: int, b: int|
                    0 <= a < after.len() && 0 <= b < after.len() && a != b implies #[trigger] after[a].0@
                    != #[trigger] after[b].0@ by {
                    let a0 = if a < i { a } else { a + 1 };
                    let b0 = if b < i { b } else { b + 1 };
                    assert(after[a] == before[a0] && after[b] == before[b0]);
                }
                assert forall|k: Seq<char>| #[trigger] has_id(after, k) == (has_id(before, k) && k != id@) by {
                    if has_id(after, k) {
                        let p = choose|p: int| 0 <= p < after.len() && #[trigger] after[p].0@ == k;
                        let p0 = if p < i { p } else { p + 1 };
                        assert(before[p0].0@ == k);
                        assert(p0 != i);
                    }
                    if has_id(before, k) && k != id@ {
                        let p = choose|p: int| 0 <= p < before.len() && #[trigger] before[p].0@ == k;
                        assert(p != i);
                        let p1 = if p < i { p } else { p - 1 };
                        assert(after[p1].0@ == k);
                    }
                }
                assert forall|k: Seq<char>| has_id(after, k) implies entries_map(after)[k]
                    == entries_map(before)[k] by {
                    let p = position_of(after, k);
                    lemma_position_unique(after, p);
                    let p0 = if p < i { p } else { p + 1 };
                    assert(after[p] == before[p0]);
                    lemma_position_unique(before, p0);
                }
                assert(entries_map(after) =~= entries_map(before).remove(id@));
            }
            Some(waiter)
        },
    }
}

/// Registers `waiter` under `id` in `entries`, handing back the waiter it replaces.
fn insert_entry<T>(entries: &mut Vec<(String, T)>, id: String, waiter: T) -> (res: Option<T>)
    requires
        ids_distinct(old(entries)@),
    ensures
        ids_distinct(final(entries)@),
        entries_map(final(entries)@) == entries_map(old(entries)@).insert(id@, waiter),
        res is Some <==> entries_map(old(entries)@).dom().contains(id@),
        res matches Some(w) ==> w == entries_map(old(entries)@)[id@],
{
    let removed = remove_entry(entries, &id);
    let ghost before = entries@;
    let ghost key = id@;
    assert(!entries_map(before).dom().contains(key));
    assert(!has_id(before, key));
    entries.push((id, waiter));
    proof {
        let after = entries@;
        assert forall|i: int, j: int|
            0 <= i < after.len() && 0 <= j < after.len() && i != j implies #[trigger] after[i].0@
            != #[trigger] after[j].0@ by {
            if i < before.len() && j < before.len() {
                assert(after[i] == before[i] && after[j] == before[j]);
            } else if i < before.len() {
                assert(after[i] == before[i]);
                if before[i].0@ == key {
                    assert(has_id(before, key));
                }
            } else {
                assert(after[j] == before[j]);
                if before[j].0@ == key {
                    assert(has_id(before, key));
                }
            }
        }
        let last = (after.len() - 1) as int;
        lemma_position_unique(after, last);
        assert forall|k: Seq<char>| k != key implies (has_id(after, k) == has_id(before, k)) by {
            if has_id(after, k) {
                let p = choose|p: int| 0 <= p < after.len() && #[trigger] after[p].0@ == k;
                assert(before[p].0@ == k);
            }
            if has_id(before, k) {
                let p = choose|p: int| 0 <= p < before.len() && #[trigger] before[p].0@ == k;
                assert(after[p].0@ == k);
            }
        }
        assert forall|k: Seq<char>| k != key && has_id(before, k) implies entries_map(after)[k]
            == entries_map(before)[k] by {
            let p = position_of(before, k);
            lemma_position_unique(before, p);
            assert(after[p] == before[p]);
            lemma_position_unique(after, p);
        }
        assert(entries_map(after) =~= entries_map(before).insert(key, after[last].1));
    }
    removed
}

/// The number of distinct ids in a list whose ids are distinct is its length.
proof fn lemma_entries_len<T>(entries: Seq<(String, T)>)
    requires
        ids_distinct(entries),
    ensures
        entries_map(entries).dom().finite(),
        entries_map(entries).len() == entries.len(),
{
    let ids = entries.map_values(|e: (String, T)| e.0@);
    assert forall|i: int, j: int| 0 <= i < ids.len() && 0 <= j < ids.len() && i != j implies ids[i]
        != ids[j] by {
        assert(entries[i].0@ != entries[j].0@);
    }
    assert(ids.no_duplicates());
    ids.unique_seq_to_set();
    assert forall|id: Seq<char>| entries_map(entries).dom().contains(id) <==> ids.to_set().contains(id) by {
        if entries_map(entries).dom().contains(id) {
            let p = position_of(entries, id);
            assert(ids[p] == id);
        }
        if ids.to_set().contains(id) {
            let k = choose|k: int| 0 <= k < ids.len() && ids[k] == id;
            assert(entries[k].0@ == id);
        }
    }
    assert(entries_map(entries).dom() =~= ids.to_set());
}

impl<T> PendingRequests<T> {
    /// No id occurs twice in the table.
    #[verifier::type_invariant]
    spec fn well_formed(self) -> bool {
        ids_distinct(self.entries@)
    }

    /// An empty table.
    pub fn new() -> (res: PendingRequests<T>)
        ensures
            res@ == Map::<Seq<char>, T>::empty(),
    {
        let res = PendingRequests { entries: Vec::new() };
        assert(res@ =~= Map::<Seq<char>, T>::empty());
        res
    }

    /// The number of waiting requests.
    pub fn len(&self) -> (res: usize)
        ensures
            res == self@.len(),
    {
        proof {
            use_type_invariant(self);
            lemma_entries_len(self.entries@);
        }
        self.entries.len()
    }

    /// Whether a request with id `id` waits.
    pub fn contains(&self, id: &String) -> (res: bool)
        ensures
            res == self@.dom().contains(id@),
    {
        find_entry(&self.entries, id).is_some()
    }

    /// Registers `waiter` under `id`. A waiter that was already registered under
    /// that id is replaced and handed back.
    pub fn insert(&mut self, id: String, waiter: T) -> (res: Option<T>)
        ensures
            final(self)@ == old(self)@.insert(id@, waiter),
            res is Some <==> old(self)@.dom().contains(id@),
            res matches Some(w) ==> w == old(self)@[id@],
    {
        proof {
            use_type_invariant(&*self);
        }
        let mut entries: Vec<(String, T)> = Vec::new();
        std::mem::swap(&mut entries, &mut self.entries);
        let res = insert_entry(&mut entries, id, waiter);
        self.entries = entries;
        res
    }

    /// Takes the waiter registered under `id` out of the table, if there is one.
    pub fn remove(&mut self, id: &String) -> (res: Option<T>)
        ensures
            final(self)@ == old(self)@.remove(id@),
            res is Some <==> old(self)@.dom().contains(id@),
            res matches Some(w) ==> w == old(self)@[id@],
    {
        proof {
            use_type_invariant(&*self);
        }
        let mut entries: Vec<(String, T)> = Vec::new();
        std::mem::swap(&mut entries, &mut self.entries);
        let res = remove_entry(&mut entries, id);
        self.entries = entries;
        res
    }
}

} // verus!
