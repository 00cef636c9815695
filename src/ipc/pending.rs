//! The pending-request table: which ids are awaiting a response, and the
//! single-use acceptor that each response goes to.
//!
//! An entry exists from the moment its request is sent until its response is
//! delivered or its wait times out; it is removed exactly once, by whichever
//! comes first.

use std::collections::HashMap;
use vstd::prelude::*;

verus! {

broadcast use vstd::std_specs::hash::group_hash_axioms;

/// Request ids mapped to the acceptors of their responses.
pub struct PendingTable<T> {
    entries: HashMap<u64, T>,
}

impl<T> View for PendingTable<T> {
    type V = Map<u64, T>;

    closed spec fn view(&self) -> Map<u64, T> {
        self.entries@
    }
}

impl<T> PendingTable<T> {
    /// An empty table.
    pub fn new() -> (r: PendingTable<T>)
        ensures
            r@ == Map::<u64, T>::empty(),
    {
        PendingTable { entries: HashMap::new() }
    }

    /// Whether `id` is awaiting a response.
    pub fn contains(&self, id: u64) -> (r: bool)
        ensures
            r == self@.contains_key(id),
    {
        self.entries.contains_key(&id)
    }

    /// The number of live entries.
    pub fn len(&self) -> (r: usize)
        ensures
            r == self@.len(),
    {
        self.entries.len()
    }

    /// Registers the acceptor for `id`. An id that is already live is never
    /// inserted twice: the acceptor is handed back and the table is unchanged.
    pub fn register(&mut self, id: u64, acceptor: T) -> (r: Result<(), T>)
        ensures
            old(self)@.contains_key(id) ==> r == Err::<(), T>(acceptor) && final(self)@ == old(self)@,
            !old(self)@.contains_key(id) ==> r is Ok && final(self)@ == old(self)@.insert(id, acceptor),
    {
        if self.entries.contains_key(&id) {
            return Err(acceptor);
        }
        self.entries.insert(id, acceptor);
        Ok(())
    }

    /// Takes the acceptor for a response that arrived for `id`. A response
    /// for an id that is not live gets `None` and changes nothing.
    pub fn resolve(&mut self, id: u64) -> (r: Option<T>)
        ensures
            old(self)@.contains_key(id) ==> r == Some(old(self)@[id]) && final(self)@ == old(self)@.remove(id),
            !old(self)@.contains_key(id) ==> r is None && final(self)@ == old(self)@,
    {
        self.entries.remove(&id)
    }

    /// Removes the entry of a request whose wait timed out; true when there
    /// was one.
    pub fn expire(&mut self, id: u64) -> (r: bool)
        ensures
            r == old(self)@.contains_key(id),
            final(self)@ == old(self)@.remove(id),
    {
        let removed = self.entries.remove(&id);
        proof {
            if !old(self)@.contains_key(id) {
                assert(old(self)@.remove(id) =~= old(self)@);
            }
        }
        removed.is_some()
    }

    /// Drops every entry (on disconnect).
    pub fn clear(&mut self)
        ensures
            final(self)@ == Map::<u64, T>::empty(),
    {
        self.entries.clear();
    }
}

/// Exactly-once delivery: after the acceptors of two distinct ids are
/// registered, resolving one id yields its own acceptor and leaves the other
/// entry in place, and resolving the same id again yields nothing.
pub proof fn lemma_exactly_once<T>(table: Map<u64, T>, a: u64, x: T, b: u64, y: T)
    requires
        a != b,
        !table.contains_key(a),
        !table.contains_key(b),
    ensures
        ({
            let live = table.insert(a, x).insert(b, y);
            &&& live.contains_key(a) && live[a] == x
            &&& live.remove(a).contains_key(b) && live.remove(a)[b] == y
            &&& !live.remove(a).contains_key(a)
            &&& live.remove(a).remove(b) == table
        }),
{
    let live = table.insert(a, x).insert(b, y);
    assert(live.remove(a).remove(b) =~= table);
}

/// Leak-free timeout: registering a request and then expiring it leaves the
/// table as it was before the request was sent, its size included.
pub proof fn lemma_timeout_leaves_no_entry<T>(table: Map<u64, T>, id: u64, x: T)
    requires
        !table.contains_key(id),
        table.dom().finite(),
    ensures
        table.insert(id, x).remove(id) == table,
        table.insert(id, x).remove(id).len() == table.len(),
{
    assert(table.insert(id, x).remove(id) =~= table);
}

/// Unknown-id response: resolving an id with no entry leaves the table
/// unchanged, so a later request can still register and be resolved.
pub proof fn lemma_unknown_id_is_harmless<T>(table: Map<u64, T>, stray: u64, id: u64, x: T)
    requires
        !table.contains_key(stray),
        !table.contains_key(id),
    ensures
        table.remove(stray) == table,
        table.insert(id, x)[id] == x,
        table.insert(id, x).remove(id) == table,
{
    assert(table.remove(stray) =~= table);
    assert(table.insert(id, x).remove(id) =~= table);
}

/// The table after the acceptors `accs` are registered for `ids`, in order.
pub open spec fn register_all<T>(table: Map<u64, T>, ids: Seq<u64>, accs: Seq<T>) -> Map<u64, T>
    decreases ids.len(),
{
    if ids.len() == 0 || accs.len() == 0 {
        table
    } else {
        register_all(table, ids.drop_last(), accs.drop_last()).insert(ids.last(), accs.last())
    }
}

proof fn lemma_register_all<T>(table: Map<u64, T>, ids: Seq<u64>, accs: Seq<T>)
    requires
        ids.len() == accs.len(),
        forall|i: int, j: int| 0 <= i < j < ids.len() ==> ids[i] != ids[j],
        forall|i: int| 0 <= i < ids.len() ==> !table.contains_key(#[trigger] ids[i]),
    ensures
        forall|i: int| 0 <= i < ids.len() ==> register_all(table, ids, accs).contains_key(#[trigger] ids[i])
            && register_all(table, ids, accs)[ids[i]] == accs[i],
        forall|k: u64| !ids.contains(k) ==> (register_all(table, ids, accs).contains_key(k) == table.contains_key(k)
            && (table.contains_key(k) ==> register_all(table, ids, accs)[k] == table[k])),
    decreases ids.len(),
{
    if ids.len() > 0 {
        let (pi, pa) = (ids.drop_last(), accs.drop_last());
        lemma_register_all(table, pi, pa);
        assert forall|i: int| 0 <= i < ids.len() implies register_all(table, ids, accs).contains_key(#[trigger] ids[i])
            && register_all(table, ids, accs)[ids[i]] == accs[i] by {
            if i < ids.len() - 1 {
                assert(pi[i] == ids[i]);
                assert(pa[i] == accs[i]);
            }
        }
        assert forall|k: u64| !ids.contains(k) implies (register_all(table, ids, accs).contains_key(k)
            == table.contains_key(k) && (table.contains_key(k) ==> register_all(table, ids, accs)[k] == table[k])) by {
            assert(k != ids.last()) by {
                if k == ids.last() {
                    assert(ids[ids.len() - 1] == k);
                }
            }
            if pi.contains(k) {
                let j = choose|j: int| 0 <= j < pi.len() && pi[j] == k;
                assert(ids[j] == k);
            }
        }
    }
}

/// Exactly-once delivery for any number of callers: once requests with
/// pairwise distinct ids (none pending before) are all registered, each id
/// maps to its own caller's acceptor; resolving any set of them leaves every
/// other caller's entry in place, still its own; and resolving them all
/// leaves the table as it was before.
pub proof fn lemma_exactly_once_all<T>(table: Map<u64, T>, ids: Seq<u64>, accs: Seq<T>, resolved: Set<u64>)
    requires
        ids.len() == accs.len(),
        forall|i: int, j: int| 0 <= i < j < ids.len() ==> ids[i] != ids[j],
        forall|i: int| 0 <= i < ids.len() ==> !table.contains_key(#[trigger] ids[i]),
    ensures
        forall|i: int| 0 <= i < ids.len() ==> register_all(table, ids, accs).contains_key(#[trigger] ids[i])
            && register_all(table, ids, accs)[ids[i]] == accs[i],
        forall|i: int| 0 <= i < ids.len() && !resolved.contains(#[trigger] ids[i]) ==> register_all(
            table,
            ids,
            accs,
        ).remove_keys(resolved).contains_key(ids[i]) && register_all(table, ids, accs).remove_keys(resolved)[ids[i]]
            == accs[i],
        register_all(table, ids, accs).remove_keys(Set::new(|k: u64| ids.contains(k))) == table,
{
    lemma_register_all(table, ids, accs);
    let all = register_all(table, ids, accs);
    let gone = Set::new(|k: u64| ids.contains(k));
    assert forall|k: u64| #[trigger] all.remove_keys(gone).contains_key(k) == table.contains_key(k) by {
        if ids.contains(k) {
            let j = choose|j: int| 0 <= j < ids.len() && ids[j] == k;
            assert(!table.contains_key(ids[j]));
        }
    }
    assert(all.remove_keys(gone) =~= table);
}

} // verus!
