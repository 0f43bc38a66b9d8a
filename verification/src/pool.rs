//! A generation-checked arena.
//!
//! Entries are addressed through weak `Handle`s: an `(index, generation)`
//! pair. Freeing an entry leaves every other live handle untouched, and a
//! later reuse of the slot bumps the generation, so a stale handle to the
//! freed entry can never resolve again - lookups through it simply fail.

use vstd::prelude::*;

verus! {

/// A weak reference into a [`Pool`]. Holding a handle never keeps the entry
/// alive; validity is checked at every use through the owning pool.
///
/// A handle with generation zero refers to nothing ("none"); the pool never
/// hands one out.
#[derive(Clone, Copy, Debug, PartialEq, Eq, Structural)]
pub struct Handle {
    /// Slot index inside the pool.
    pub index: usize,
    /// Generation the slot had when the entry was spawned; zero means "none".
    pub generation: u64,
}

impl Handle {
    /// True when the handle designates something (whether or not it still
    /// resolves).
    pub open spec fn is_some_spec(&self) -> bool {
        self.generation != 0
    }

    /// The handle that designates nothing.
    pub fn none() -> (h: Handle)
        ensures
            !h.is_some_spec(),
            h == (Handle { index: 0, generation: 0 }),
    {
        Handle { index: 0, generation: 0 }
    }

    /// True when the handle designates something.
    #[verifier::when_used_as_spec(is_some_spec)]
    pub fn is_some(&self) -> (r: bool)
        ensures
            r == self.is_some_spec(),
    {
        self.generation != 0
    }

    /// True when the handle designates nothing.
    pub fn is_none(&self) -> (r: bool)
        ensures
            r == !self.is_some_spec(),
    {
        self.generation == 0
    }
}

struct Record<T> {
    generation: u64,
    payload: Option<T>,
}

/// A proof that an entry was taken out of the pool and its slot is held in
/// reserve; the entry can be put back under its original handle.
pub struct Ticket {
    index: usize,
    generation: u64,
}

impl Ticket {
    /// The handle under which the reserved entry lived and will live again.
    pub closed spec fn handle(self) -> Handle {
        Handle { index: self.index, generation: self.generation }
    }
}

/// A generation-checked, index-addressed container; see the module docs.
pub struct Pool<T> {
    records: Vec<Record<T>>,
    free: Vec<usize>,
}

impl<T> Pool<T> {
    /// Internal consistency: the free list points at vacant slots, holds no
    /// slot twice, and every slot has seen at least one generation.
    pub closed spec fn wf(self) -> bool {
        &&& forall|k: int|
            0 <= k < self.free@.len() ==> (#[trigger] self.free@[k] < self.records@.len()
                && self.records@[self.free@[k] as int].payload is None)
        &&& forall|k1: int, k2: int|
            0 <= k1 < k2 < self.free@.len() ==> self.free@[k1] != self.free@[k2]
        &&& forall|i: int|
            0 <= i < self.records@.len() ==> (#[trigger] self.records@[i].generation) >= 1
    }

    /// Number of slots the pool has ever grown to.
    pub closed spec fn slot_count(self) -> nat {
        self.records@.len()
    }

    /// Whether a handle still resolves to a live entry.
    pub closed spec fn valid(self, h: Handle) -> bool {
        &&& h.generation != 0
        &&& h.index < self.records@.len()
        &&& self.records@[h.index as int].generation == h.generation
        &&& self.records@[h.index as int].payload is Some
    }

    /// The entry a valid handle resolves to.
    pub closed spec fn at(self, h: Handle) -> T
        recommends
            self.valid(h),
    {
        self.records@[h.index as int].payload.unwrap()
    }

    /// Whether a ticket still guards a reserved slot.
    pub closed spec fn ticket_ok(self, t: Ticket) -> bool {
        &&& t.index < self.records@.len()
        &&& self.records@[t.index as int].generation == t.generation
        &&& t.generation != 0
        &&& self.records@[t.index as int].payload is None
        &&& !self.free@.contains(t.index)
    }

    /// Number of live entries.
    pub closed spec fn alive(self) -> nat {
        Self::count_alive(self.records@)
    }

    spec fn count_alive(s: Seq<Record<T>>) -> nat
        decreases s.len(),
    {
        if s.len() == 0 {
            0
        } else {
            Self::count_alive(s.drop_last()) + (if s.last().payload is Some {
                1nat
            } else {
                0nat
            })
        }
    }

    proof fn lemma_count_alive_push(s: Seq<Record<T>>, r: Record<T>)
        ensures
            Self::count_alive(s.push(r)) == Self::count_alive(s) + (if r.payload is Some {
                1nat
            } else {
                0nat
            }),
    {
        assert(s.push(r).drop_last() =~= s);
    }

    proof fn lemma_count_alive_update(s: Seq<Record<T>>, i: int, r: Record<T>)
        requires
            0 <= i < s.len(),
        ensures
            Self::count_alive(s.update(i, r)) == Self::count_alive(s) - (if s[i].payload is Some {
                1int
            } else {
                0int
            }) + (if r.payload is Some {
                1int
            } else {
                0int
            }),
        decreases s.len(),
    {
        let t = s.update(i, r);
        if i == s.len() - 1 {
            assert(t.drop_last() =~= s.drop_last());
        } else {
            assert(t.drop_last() =~= s.drop_last().update(i, r));
            Self::lemma_count_alive_update(s.drop_last(), i, r);
        }
    }

    /// An empty pool.
    pub fn new() -> (p: Pool<T>)
        ensures
            p.wf(),
            p.slot_count() == 0,
            p.alive() == 0,
            forall|h: Handle| !p.valid(h),
            forall|t: Ticket| !p.ticket_ok(t),
    {
        Pool { records: Vec::new(), free: Vec::new() }
    }

    /// Number of slots, for iterating the pool by index.
    pub fn num_slots(&self) -> (n: usize)
        ensures
            n == self.slot_count(),
    {
        self.records.len()
    }

    /// The handle of the live entry in slot `i`, if that slot holds one.
    pub fn handle_at(&self, i: usize) -> (r: Option<Handle>)
        requires
            self.wf(),
        ensures
            match r {
                Some(h) => self.valid(h) && h.index == i,
                None => forall|h: Handle| self.valid(h) ==> h.index != i,
            },
    {
        if i < self.records.len() {
            let rec = &self.records[i];
            if rec.payload.is_some() {
                Some(Handle { index: i, generation: rec.generation })
            } else {
                None
            }
        } else {
            None
        }
    }

    /// Whether a handle still resolves.
    pub fn is_valid_handle(&self, h: Handle) -> (r: bool)
        ensures
            r == self.valid(h),
    {
        h.generation != 0 && h.index < self.records.len() && self.records[h.index].generation
            == h.generation && self.records[h.index].payload.is_some()
    }

    /// Adds an entry and returns a fresh handle to it. No other handle and no
    /// ticket is disturbed.
    pub fn spawn(&mut self, value: T) -> (h: Handle)
        requires
            old(self).wf(),
        ensures
            final(self).wf(),
            final(self).valid(h),
            final(self).at(h) == value,
            !old(self).valid(h),
            final(self).alive() == old(self).alive() + 1,
            forall|h2: Handle|
                #[trigger] old(self).valid(h2) ==> final(self).valid(h2) && final(self).at(h2)
                    == old(self).at(h2),
            forall|h2: Handle|
                #[trigger] final(self).valid(h2) && h2 != h ==> old(self).valid(h2),
            forall|t: Ticket|
                #[trigger] old(self).ticket_ok(t) ==> final(self).ticket_ok(t)
                    && t.handle() != h,
    {
        let popped = self.free.pop();
        match popped {
            Some(idx) => {
                let g = self.records[idx].generation;
                if g < u64::MAX {
                    proof {
                        Self::lemma_count_alive_update(
                            self.records@,
                            idx as int,
                            Record { generation: (g + 1) as u64, payload: Some(value) },
                        );
                    }
                    let slot = &mut self.records[idx];
                    slot.generation = g + 1;
                    slot.payload = Some(value);
                    let h = Handle { index: idx, generation: g + 1 };
                    assert(forall|t: Ticket|
                        old(self).ticket_ok(t) ==> final(self).ticket_ok(t) && t.handle() != h)
                        by {
                        assert(old(self).free@.last() == idx);
                    }
                    h
                } else {
                    // The slot has run out of generations: retire it and grow
                    // the pool instead, so stale handles stay stale.
                    let idx2 = self.records.len();
                    proof {
                        Self::lemma_count_alive_push(
                            self.records@,
                            Record { generation: 1, payload: Some(value) },
                        );
                    }
                    self.records.push(Record { generation: 1, payload: Some(value) });
                    Handle { index: idx2, generation: 1 }
                }
            },
            None => {
                let idx = self.records.len();
                proof {
                    Self::lemma_count_alive_push(
                        self.records@,
                        Record { generation: 1, payload: Some(value) },
                    );
                }
                self.records.push(Record { generation: 1, payload: Some(value) });
                Handle { index: idx, generation: 1 }
            },
        }
    }

    /// Removes the entry a valid handle resolves to and returns it. Only
    /// handles to that entry stop resolving.
    pub fn free(&mut self, h: Handle) -> (value: T)
        requires
            old(self).wf(),
            old(self).valid(h),
        ensures
            final(self).wf(),
            value == old(self).at(h),
            !final(self).valid(h),
            final(self).slot_count() == old(self).slot_count(),
            final(self).alive() == old(self).alive() - 1,
            forall|h2: Handle|
                h2 != h ==> (final(self).valid(h2) == old(self).valid(h2)),
            forall|h2: Handle|
                h2 != h && old(self).valid(h2) ==> final(self).at(h2) == old(self).at(h2),
            forall|t: Ticket|
                #[trigger] old(self).ticket_ok(t) ==> final(self).ticket_ok(t),
    {
        proof {
            Self::lemma_count_alive_update(
                self.records@,
                h.index as int,
                Record { generation: self.records@[h.index as int].generation, payload: None },
            );
        }
        let slot = &mut self.records[h.index];
        let taken = slot.payload.take();
        self.free.push(h.index);
        match taken {
            Some(v) => v,
            None => vstd::pervasive::unreached(),
        }
    }

    /// Borrows the entry of a valid handle.
    pub fn borrow(&self, h: Handle) -> (r: &T)
        requires
            self.valid(h),
        ensures
            *r == self.at(h),
    {
        match &self.records[h.index].payload {
            Some(v) => v,
            None => vstd::pervasive::unreached(),
        }
    }

    /// Borrows the entry of a handle if it still resolves.
    pub fn try_borrow(&self, h: Handle) -> (r: Option<&T>)
        ensures
            match r {
                Some(v) => self.valid(h) && *v == self.at(h),
                None => !self.valid(h),
            },
    {
        if self.is_valid_handle(h) {
            Some(self.borrow(h))
        } else {
            None
        }
    }

    /// Mutably borrows the entry of a valid handle; every other entry, every
    /// other handle and every ticket is left as it was.
    pub fn borrow_mut(&mut self, h: Handle) -> (r: &mut T)
        requires
            old(self).wf(),
            old(self).valid(h),
        ensures
            *r == old(self).at(h),
            final(self).wf(),
            final(self).valid(h),
            final(self).at(h) == *final(r),
            final(self).slot_count() == old(self).slot_count(),
            final(self).alive() == old(self).alive(),
            forall|h2: Handle| final(self).valid(h2) == old(self).valid(h2),
            forall|h2: Handle|
                h2 != h && old(self).valid(h2) ==> final(self).at(h2) == old(self).at(h2),
            forall|t: Ticket|
                #[trigger] old(self).ticket_ok(t) ==> final(self).ticket_ok(t),
    {
        let ghost old_records = self.records@;
        let slot = &mut self.records[h.index];
        proof {
            Self::lemma_count_alive_update(
                old_records,
                h.index as int,
                Record {
                    generation: old_records[h.index as int].generation,
                    payload: Some(final(slot).payload.unwrap()),
                },
            );
        }
        match &mut slot.payload {
            Some(v) => v,
            None => vstd::pervasive::unreached(),
        }
    }

    /// Mutably borrows the entry of a handle if it still resolves; every
    /// other entry, every other handle and every ticket is left as it was.
    pub fn try_borrow_mut(&mut self, h: Handle) -> (r: Option<&mut T>)
        requires
            old(self).wf(),
        ensures
            final(self).wf(),
            final(self).slot_count() == old(self).slot_count(),
            final(self).alive() == old(self).alive(),
            forall|h2: Handle| final(self).valid(h2) == old(self).valid(h2),
            forall|t: Ticket| #[trigger] old(self).ticket_ok(t) ==> final(self).ticket_ok(t),
            match r {
                Some(v) => old(self).valid(h) && *v == old(self).at(h) && final(self).at(h)
                    == *final(v) && (forall|h2: Handle|
                    h2 != h && old(self).valid(h2) ==> final(self).at(h2) == old(self).at(h2)),
                None => !old(self).valid(h) && *final(self) == *old(self),
            },
    {
        if self.is_valid_handle(h) {
            Some(self.borrow_mut(h))
        } else {
            None
        }
    }

    /// Takes the entry of a valid handle out of the pool, leaving its slot
    /// reserved: the slot cannot be reused until the ticket is spent.
    pub fn take_reserve(&mut self, h: Handle) -> (r: (Ticket, T))
        requires
            old(self).wf(),
            old(self).valid(h),
        ensures
            final(self).wf(),
            r.1 == old(self).at(h),
            r.0.handle() == h,
            final(self).ticket_ok(r.0),
            !final(self).valid(h),
            final(self).slot_count() == old(self).slot_count(),
            final(self).alive() == old(self).alive() - 1,
            forall|h2: Handle|
                h2 != h ==> (final(self).valid(h2) == old(self).valid(h2)),
            forall|h2: Handle|
                h2 != h && old(self).valid(h2) ==> final(self).at(h2) == old(self).at(h2),
            forall|t: Ticket|
                #[trigger] old(self).ticket_ok(t) ==> final(self).ticket_ok(t),
    {
        proof {
            Self::lemma_count_alive_update(
                self.records@,
                h.index as int,
                Record { generation: self.records@[h.index as int].generation, payload: None },
            );
        }
        let generation = self.records[h.index].generation;
        let slot = &mut self.records[h.index];
        let taken = slot.payload.take();
        let t = Ticket { index: h.index, generation };
        match taken {
            Some(v) => (t, v),
            None => vstd::pervasive::unreached(),
        }
    }

    /// Puts an entry back into the slot its ticket reserved; the entry lives
    /// again under its original handle.
    pub fn put_back(&mut self, ticket: Ticket, value: T) -> (h: Handle)
        requires
            old(self).wf(),
            old(self).ticket_ok(ticket),
        ensures
            final(self).wf(),
            h == ticket.handle(),
            final(self).valid(h),
            final(self).at(h) == value,
            final(self).slot_count() == old(self).slot_count(),
            final(self).alive() == old(self).alive() + 1,
            forall|h2: Handle|
                h2 != h ==> (final(self).valid(h2) == old(self).valid(h2)),
            forall|h2: Handle|
                h2 != h && old(self).valid(h2) ==> final(self).at(h2) == old(self).at(h2),
            forall|t: Ticket|
                old(self).ticket_ok(t) && t.handle() != ticket.handle() ==> final(self).ticket_ok(t),
    {
        proof {
            Self::lemma_count_alive_update(
                self.records@,
                ticket.index as int,
                Record {
                    generation: self.records@[ticket.index as int].generation,
                    payload: Some(value),
                },
            );
        }
        let slot = &mut self.records[ticket.index];
        slot.payload = Some(value);
        Handle { index: ticket.index, generation: ticket.generation }
    }

    /// Makes a reserved slot vacant again; the entry the ticket stood for is
    /// given up and its handle stays stale forever.
    pub fn forget_ticket(&mut self, ticket: Ticket)
        requires
            old(self).wf(),
            old(self).ticket_ok(ticket),
        ensures
            final(self).wf(),
            final(self).slot_count() == old(self).slot_count(),
            final(self).alive() == old(self).alive(),
            forall|h2: Handle| final(self).valid(h2) == old(self).valid(h2),
            forall|h2: Handle|
                old(self).valid(h2) ==> final(self).at(h2) == old(self).at(h2),
            forall|t: Ticket|
                old(self).ticket_ok(t) && t.handle() != ticket.handle() ==> final(self).ticket_ok(t),
    {
        self.free.push(ticket.index);
    }

    proof fn lemma_count_alive_nonzero(s: Seq<Record<T>>)
        requires
            Self::count_alive(s) > 0,
        ensures
            exists|i: int| 0 <= i < s.len() && s[i].payload is Some,
        decreases s.len(),
    {
        if s.len() > 0 {
            if s.last().payload is Some {
                assert(s[s.len() - 1].payload is Some);
            } else {
                Self::lemma_count_alive_nonzero(s.drop_last());
                let i = choose|i: int|
                    0 <= i < s.drop_last().len() && s.drop_last()[i].payload is Some;
                assert(s[i].payload is Some);
            }
        }
    }

    /// A pool with a live entry has a handle that resolves to it.
    pub proof fn lemma_alive_has_handle(&self)
        requires
            self.wf(),
            self.alive() > 0,
        ensures
            exists|h: Handle| self.valid(h),
    {
        Self::lemma_count_alive_nonzero(self.records@);
        let i = choose|i: int| 0 <= i < self.records@.len() && self.records@[i].payload is Some;
        assert(vstd::std_specs::vec::spec_vec_len(&self.records) == self.records@.len());
        let h = Handle { index: i as usize, generation: self.records@[i].generation };
        assert(self.valid(h));
    }

    /// Two handles that resolve in the same slot are the same handle.
    pub proof fn lemma_valid_same_index(&self, h1: Handle, h2: Handle)
        requires
            self.valid(h1),
            self.valid(h2),
            h1.index == h2.index,
        ensures
            h1 == h2,
    {
    }

    /// A handle that resolves designates something and lies inside the slots.
    pub proof fn lemma_valid_bounds(&self, h: Handle)
        requires
            self.valid(h),
        ensures
            h.index < self.slot_count(),
            h.generation != 0,
    {
    }

    /// Counts the live entries.
    pub fn alive_count(&self) -> (n: usize)
        ensures
            n == self.alive(),
    {
        let mut n: usize = 0;
        let mut i: usize = 0;
        while i < self.records.len()
            invariant
                i <= self.records@.len(),
                n == Self::count_alive(self.records@.take(i as int)),
                n <= i,
            decreases self.records@.len() - i,
        {
            proof {
                assert(self.records@.take(i + 1).drop_last() =~= self.records@.take(i as int));
                assert(self.records@.take(i + 1).last() == self.records@[i as int]);
            }
            if self.records[i].payload.is_some() {
                n = n + 1;
            }
            i = i + 1;
        }
        proof {
            assert(self.records@.take(self.records@.len() as int) =~= self.records@);
        }
        n
    }
}

} // verus!
