use vstd::prelude::*;

verus! {

/// One live WebSocket connection. `sender` is the exclusive write-capable
/// handle to the socket's outbound half; the engine never inspects it, so the
/// registry is generic over its type and the embedding application supplies
/// the real sink.
pub struct ClientInfo<C> {
    /// Opaque unique identifier, generated when the handshake completes.
    pub id: String,
    /// Transport-level peer address, rendered as text, for diagnostics only.
    pub addr: String,
    /// The outbound half of the connection.
    pub sender: C,
}

/// Mapping from client id to client, keys unique, no ordering relied upon.
/// All operations are atomic with respect to each other once the embedding
/// application puts the registry behind its single guard; this type itself
/// holds the map logic and its invariant.
pub struct ClientRegistry<C> {
    clients: Vec<ClientInfo<C>>,
}

impl<C> ClientRegistry<C> {
    /// The entries as a sequence, in insertion order.
    pub closed spec fn entries(&self) -> Seq<ClientInfo<C>> {
        self.clients@
    }

    /// Well-formedness: no two entries share an id.
    pub open spec fn wf(&self) -> bool {
        forall|i: int, j: int|
            0 <= i < j < self.entries().len() ==> self.entries()[i].id@ != self.entries()[j].id@
    }

    /// Whether some entry carries the id.
    pub open spec fn contains_id(&self, id: Seq<char>) -> bool {
        exists|i: int| 0 <= i < self.entries().len() && self.entries()[i].id@ == id
    }

    /// The index of the entry carrying the id (meaningful when `contains_id`).
    pub open spec fn index_of(&self, id: Seq<char>) -> int {
        choose|i: int| 0 <= i < self.entries().len() && self.entries()[i].id@ == id
    }

    /// The entry carrying the id (meaningful when `contains_id`).
    pub open spec fn client_of(&self, id: Seq<char>) -> ClientInfo<C> {
        self.entries()[self.index_of(id)]
    }

    /// In a well-formed registry the entry at any index is the one that
    /// lookup by its id finds.
    pub proof fn lemma_at_index(&self, i: int)
        requires
            self.wf(),
            0 <= i < self.entries().len(),
        ensures
            self.contains_id(self.entries()[i].id@),
            self.index_of(self.entries()[i].id@) == i,
            self.client_of(self.entries()[i].id@) == self.entries()[i],
    {
        assert(self.contains_id(self.entries()[i].id@));
        let j = self.index_of(self.entries()[i].id@);
        assert(0 <= j < self.entries().len() && self.entries()[j].id@ == self.entries()[i].id@);
        if i < j {
            assert(self.entries()[i].id@ != self.entries()[j].id@);
        } else if j < i {
            assert(self.entries()[j].id@ != self.entries()[i].id@);
        }
    }

    /// An empty registry.
    pub fn new() -> (r: Self)
        ensures
            r.wf(),
            r.entries().len() == 0,
    {
        ClientRegistry { clients: Vec::new() }
    }

    /// The number of registered clients.
    pub fn len(&self) -> (n: usize)
        ensures
            n == self.entries().len(),
    {
        self.clients.len()
    }

    /// The index holding `id`, if any. Private search shared by the map
    /// operations.
    fn find_index(&self, id: &String) -> (r: Option<usize>)
        ensures
            match r {
                Some(i) => i < self.entries().len() && self.entries()[i as int].id@ == id@,
                None => !self.contains_id(id@),
            },
    {
        let n = self.clients.len();
        let mut i: usize = 0;
        while i < n
            invariant
                i <= n,
                n == self.entries().len(),
                forall|j: int| 0 <= j < i ==> self.entries()[j].id@ != id@,
            decreases n - i,
        {
            if self.clients[i].id == *id {
                return Some(i);
            }
            i = i + 1;
        }
        None
    }

    /// Removes the entry carrying `id` and returns it; `None`, and no change,
    /// when the id is absent. Removal never touches any other entry.
    pub fn remove(&mut self, id: &String) -> (r: Option<ClientInfo<C>>)
        requires
            old(self).wf(),
        ensures
            final(self).wf(),
            !final(self).contains_id(id@),
            forall|x: Seq<char>| x != id@ ==>
                final(self).contains_id(x) == old(self).contains_id(x),
            forall|x: Seq<char>| x != id@ && old(self).contains_id(x) ==>
                final(self).client_of(x) == old(self).client_of(x),
            match r {
                Some(c) => old(self).contains_id(id@)
                    && c == old(self).client_of(id@)
                    && final(self).entries().len() == old(self).entries().len() - 1,
                None => !old(self).contains_id(id@)
                    && final(self).entries() == old(self).entries(),
            },
    {
        match self.find_index(id) {
            Some(i) => {
                let ghost pre = *self;
                let c = self.clients.remove(i);
                proof {
                    pre.lemma_at_index(i as int);
                    Self::lemma_remove_index(pre, *self, i as int);
                }
                Some(c)
            }
            None => None,
        }
    }

    /// What removal at one index does to lookup at every id.
    proof fn lemma_remove_index(pre: Self, post: Self, i: int)
        requires
            pre.wf(),
            0 <= i < pre.entries().len(),
            post.entries() == pre.entries().remove(i),
        ensures
            post.wf(),
            !post.contains_id(pre.entries()[i].id@),
            forall|x: Seq<char>| x != pre.entries()[i].id@ ==>
                post.contains_id(x) == pre.contains_id(x),
            forall|x: Seq<char>| x != pre.entries()[i].id@ && pre.contains_id(x) ==>
                post.client_of(x) == pre.client_of(x),
    {
        pre.entries().remove_ensures(i);
        let removed_id = pre.entries()[i].id@;
        // Each surviving index maps back into the old sequence.
        assert forall|k: int| 0 <= k < post.entries().len() implies
            #[trigger] post.entries()[k] == pre.entries()[if k < i { k } else { k + 1 }] by {}
        assert(post.wf()) by {
            assert forall|p: int, q: int| 0 <= p < q < post.entries().len() implies
                post.entries()[p].id@ != post.entries()[q].id@ by {
                let p0 = if p < i { p } else { p + 1 };
                let q0 = if q < i { q } else { q + 1 };
                assert(pre.entries()[p0].id@ != pre.entries()[q0].id@);
            }
        }
        assert(!post.contains_id(removed_id)) by {
            if post.contains_id(removed_id) {
                let k = choose|k: int|
                    0 <= k < post.entries().len() && post.entries()[k].id@ == removed_id;
                let k0 = if k < i { k } else { k + 1 };
                assert(pre.entries()[k0].id@ == removed_id);
                assert(k0 != i);
                if k0 < i {
                    assert(pre.entries()[k0].id@ != pre.entries()[i].id@);
                } else {
                    assert(pre.entries()[i].id@ != pre.entries()[k0].id@);
                }
            }
        }
        assert forall|x: Seq<char>| x != removed_id implies
            post.contains_id(x) == pre.contains_id(x) by {
            if pre.contains_id(x) {
                let k0 = pre.index_of(x);
                assert(0 <= k0 < pre.entries().len() && pre.entries()[k0].id@ == x);
                assert(k0 != i);
                let k = if k0 < i { k0 } else { k0 - 1 };
                assert(post.entries()[k].id@ == x);
                assert(post.contains_id(x));
            }
            if post.contains_id(x) {
                let k = post.index_of(x);
                assert(0 <= k < post.entries().len() && post.entries()[k].id@ == x);
                let k0 = if k < i { k } else { k + 1 };
                assert(pre.entries()[k0].id@ == x);
                assert(pre.contains_id(x));
            }
        }
        assert forall|x: Seq<char>| x != removed_id && pre.contains_id(x) implies
            post.client_of(x) == pre.client_of(x) by {
            let k0 = pre.index_of(x);
            assert(0 <= k0 < pre.entries().len() && pre.entries()[k0].id@ == x);
            assert(k0 != i);
            let k = if k0 < i { k0 } else { k0 - 1 };
            assert(post.entries()[k].id@ == x);
            post.lemma_at_index(k);
            pre.lemma_at_index(k0);
        }
    }

    /// Inserts a client under its id. When the id was already present, the
    /// old entry is evicted and returned, and the size does not change;
    /// otherwise the size grows by one. Every other entry is untouched.
    pub fn insert(&mut self, c: ClientInfo<C>) -> (prev: Option<ClientInfo<C>>)
        requires
            old(self).wf(),
        ensures
            final(self).wf(),
            final(self).contains_id(c.id@),
            final(self).client_of(c.id@) == c,
            forall|x: Seq<char>| x != c.id@ ==>
                final(self).contains_id(x) == old(self).contains_id(x),
            forall|x: Seq<char>| x != c.id@ && old(self).contains_id(x) ==>
                final(self).client_of(x) == old(self).client_of(x),
            match prev {
                Some(p) => old(self).contains_id(c.id@)
                    && p == old(self).client_of(c.id@)
                    && final(self).entries().len() == old(self).entries().len(),
                None => !old(self).contains_id(c.id@)
                    && final(self).entries().len() == old(self).entries().len() + 1,
            },
    {
        let prev = self.remove(&c.id);
        let ghost mid = *self;
        let ghost gc = c;
        let ghost cid = c.id@;
        self.clients.push(c);
        proof {
            let n = mid.entries().len() as int;
            assert(self.entries() == mid.entries().push(gc));
            assert forall|k: int| 0 <= k < n implies
                #[trigger] self.entries()[k] == mid.entries()[k] by {}
            assert(self.wf()) by {
                assert forall|p: int, q: int| 0 <= p < q < self.entries().len() implies
                    self.entries()[p].id@ != self.entries()[q].id@ by {
                    if q < n {
                        assert(mid.entries()[p].id@ != mid.entries()[q].id@);
                    } else {
                        // The new last entry's id is absent from `mid`.
                        assert(mid.entries()[p].id@ != cid) by {
                            if mid.entries()[p].id@ == cid {
                                assert(mid.contains_id(cid));
                            }
                        }
                    }
                }
            }
            assert(self.entries()[n].id@ == cid);
            self.lemma_at_index(n);
            assert forall|x: Seq<char>| x != cid implies
                self.contains_id(x) == mid.contains_id(x) by {
                if mid.contains_id(x) {
                    let k = mid.index_of(x);
                    assert(self.entries()[k].id@ == x);
                }
                if self.contains_id(x) {
                    let k = self.index_of(x);
                    assert(0 <= k < self.entries().len() && self.entries()[k].id@ == x);
                    assert(k != n);
                    assert(mid.entries()[k].id@ == x);
                }
            }
            assert forall|x: Seq<char>| x != cid && mid.contains_id(x) implies
                self.client_of(x) == mid.client_of(x) by {
                let k = mid.index_of(x);
                assert(0 <= k < n && mid.entries()[k].id@ == x);
                mid.lemma_at_index(k);
                self.lemma_at_index(k);
            }
        }
        prev
    }

    /// A shared borrow of the entry carrying `id`, if any.
    pub fn get(&self, id: &String) -> (r: Option<&ClientInfo<C>>)
        requires
            self.wf(),
        ensures
            match r {
                Some(c) => self.contains_id(id@) && *c == self.client_of(id@),
                None => !self.contains_id(id@),
            },
    {
        match self.find_index(id) {
            Some(i) => {
                proof {
                    self.lemma_at_index(i as int);
                }
                Some(&self.clients[i])
            }
            None => None,
        }
    }

    /// A snapshot of `(id, address)` for every entry, in entry order. The
    /// snapshot is a copy: it stays valid after the registry's guard is
    /// released, and it may be stale by the time a send is attempted.
    pub fn list(&self) -> (snapshot: Vec<(String, String)>)
        ensures
            snapshot@.len() == self.entries().len(),
            forall|i: int| 0 <= i < snapshot@.len() ==>
                (#[trigger] snapshot@[i]).0@ == self.entries()[i].id@
                && snapshot@[i].1@ == self.entries()[i].addr@,
    {
        let n = self.clients.len();
        let mut snapshot: Vec<(String, String)> = Vec::new();
        let mut i: usize = 0;
        while i < n
            invariant
                i <= n,
                n == self.entries().len(),
                snapshot@.len() == i,
                forall|j: int| 0 <= j < i ==>
                    (#[trigger] snapshot@[j]).0@ == self.entries()[j].id@
                    && snapshot@[j].1@ == self.entries()[j].addr@,
            decreases n - i,
        {
            let id = self.clients[i].id.clone();
            let addr = self.clients[i].addr.clone();
            snapshot.push((id, addr));
            i = i + 1;
        }
        snapshot
    }

    /// Empties the registry unconditionally.
    pub fn clear(&mut self)
        ensures
            final(self).wf(),
            final(self).entries() == Seq::<ClientInfo<C>>::empty(),
    {
        self.clients.clear();
    }

    /// Empties the registry and hands every entry out, so that a shutdown can
    /// close each client's socket best-effort after the guard is released.
    pub fn drain(&mut self) -> (drained: Vec<ClientInfo<C>>)
        ensures
            final(self).wf(),
            final(self).entries() == Seq::<ClientInfo<C>>::empty(),
            drained@ == old(self).entries(),
    {
        let mut drained: Vec<ClientInfo<C>> = Vec::new();
        core::mem::swap(&mut drained, &mut self.clients);
        drained
    }
}

/// One registry mutation, as the connection handlers perform them: a
/// connection that completed its handshake registers under a fresh id, and a
/// connection whose receive loop ended removes its id.
pub enum RegistryEvent {
    Connect { id: Seq<char> },
    Disconnect { id: Seq<char> },
}

/// The ids open after a sequence of events: connects add, disconnects remove.
pub open spec fn open_ids(events: Seq<RegistryEvent>) -> Set<Seq<char>>
    decreases events.len(),
{
    if events.len() == 0 {
        Set::empty()
    } else {
        let prior = open_ids(events.drop_last());
        match events.last() {
            RegistryEvent::Connect { id } => prior.insert(id),
            RegistryEvent::Disconnect { id } => prior.remove(id),
        }
    }
}

/// Event sequences as the engine produces them: every connect carries an id
/// that is not currently open (ids are freshly generated, collision-free),
/// and every disconnect names an id that is open (each connection's close
/// path runs exactly once, and only after it registered).
pub open spec fn wf_events(events: Seq<RegistryEvent>) -> bool
    decreases events.len(),
{
    if events.len() == 0 {
        true
    } else {
        wf_events(events.drop_last()) && match events.last() {
            RegistryEvent::Connect { id } => !open_ids(events.drop_last()).contains(id),
            RegistryEvent::Disconnect { id } => open_ids(events.drop_last()).contains(id),
        }
    }
}

/// How many of the events are connects.
pub open spec fn connect_count(events: Seq<RegistryEvent>) -> int
    decreases events.len(),
{
    if events.len() == 0 {
        0
    } else {
        connect_count(events.drop_last()) + match events.last() {
            RegistryEvent::Connect { .. } => 1int,
            RegistryEvent::Disconnect { .. } => 0int,
        }
    }
}

/// How many of the events are disconnects.
pub open spec fn disconnect_count(events: Seq<RegistryEvent>) -> int
    decreases events.len(),
{
    if events.len() == 0 {
        0
    } else {
        disconnect_count(events.drop_last()) + match events.last() {
            RegistryEvent::Connect { .. } => 0int,
            RegistryEvent::Disconnect { .. } => 1int,
        }
    }
}

/// After any well-formed sequence of connect and disconnect events, the set
/// of open ids is finite and its size is exactly the number of connects minus
/// the number of disconnects: no entry is leaked and none is removed twice.
/// Together with the contracts of `ClientRegistry::insert` and
/// `ClientRegistry::remove`, which grow and shrink the registry by exactly
/// one entry under the same two conditions, the registry's size equals the
/// number of currently open connections at every quiescent point.
pub proof fn lemma_registry_size_tracks_connections(events: Seq<RegistryEvent>)
    requires
        wf_events(events),
    ensures
        open_ids(events).finite(),
        open_ids(events).len() == connect_count(events) - disconnect_count(events),
    decreases events.len(),
{
    if events.len() > 0 {
        let prior = events.drop_last();
        lemma_registry_size_tracks_connections(prior);
        match events.last() {
            RegistryEvent::Connect { id } => {
                vstd::set::axiom_set_insert_len(open_ids(prior), id);
            }
            RegistryEvent::Disconnect { id } => {
                vstd::set::axiom_set_remove_len(open_ids(prior), id);
            }
        }
    }
}

} // verus!
