//! The table of live neighbors of one interface. Each entry expires unless
//! a fresh data unit for its key arrives within the advertised time to
//! live. The table makes the decisions; the caller keeps time, runs the
//! expiry timers and holds the lock around each call.
use std::collections::HashMap;
use vstd::prelude::*;

use crate::common::{spec_protocol, DataUnit, Protocol};
use crate::MacAddress;

verus! {

broadcast use vstd::std_specs::hash::group_hash_axioms;

/// A neighbor is known by the protocol it speaks and its source address.
#[derive(Clone, Copy, PartialEq, Eq, Hash, Debug)]
pub struct NeighborKey {
    pub protocol: Protocol,
    pub source: MacAddress,
}

/// The table's index for a key: the protocol above the 48 address bits.
pub open spec fn key_id(k: NeighborKey) -> u64 {
    let m = k.source.0@;
    id_of(if k.protocol == Protocol::Lldp { 1 } else { 0 }, m[0], m[1], m[2], m[3], m[4], m[5])
}

pub open spec fn id_of(p: u64, m0: u8, m1: u8, m2: u8, m3: u8, m4: u8, m5: u8) -> u64 {
    (p << 48u64) | ((m0 as u64) << 40u64) | ((m1 as u64) << 32u64) | ((m2 as u64) << 24u64) | ((
    m3 as u64) << 16u64) | ((m4 as u64) << 8u64) | (m5 as u64)
}

proof fn lemma_id_of_injective(
    p: u64,
    m0: u64,
    m1: u64,
    m2: u64,
    m3: u64,
    m4: u64,
    m5: u64,
    q: u64,
    n0: u64,
    n1: u64,
    n2: u64,
    n3: u64,
    n4: u64,
    n5: u64,
)
    requires
        p < 2 && q < 2,
        m0 < 256 && m1 < 256 && m2 < 256 && m3 < 256 && m4 < 256 && m5 < 256,
        n0 < 256 && n1 < 256 && n2 < 256 && n3 < 256 && n4 < 256 && n5 < 256,
        (p << 48u64) | (m0 << 40u64) | (m1 << 32u64) | (m2 << 24u64) | (m3 << 16u64) | (m4
            << 8u64) | m5 == (q << 48u64) | (n0 << 40u64) | (n1 << 32u64) | (n2 << 24u64) | (n3
            << 16u64) | (n4 << 8u64) | n5,
    ensures
        p == q && m0 == n0 && m1 == n1 && m2 == n2 && m3 == n3 && m4 == n4 && m5 == n5,
{
    assert(p == q && m0 == n0 && m1 == n1 && m2 == n2 && m3 == n3 && m4 == n4 && m5 == n5)
        by (bit_vector)
        requires
            p < 2 && q < 2,
            m0 < 256 && m1 < 256 && m2 < 256 && m3 < 256 && m4 < 256 && m5 < 256,
            n0 < 256 && n1 < 256 && n2 < 256 && n3 < 256 && n4 < 256 && n5 < 256,
            (p << 48u64) | (m0 << 40u64) | (m1 << 32u64) | (m2 << 24u64) | (m3 << 16u64) | (m4
                << 8u64) | m5 == (q << 48u64) | (n0 << 40u64) | (n1 << 32u64) | (n2 << 24u64) | (
            n3 << 16u64) | (n4 << 8u64) | n5,
    ;
}

/// Distinct keys have distinct indexes, so the table holds at most one
/// entry per protocol and source address.
pub proof fn lemma_key_id_injective(a: NeighborKey, b: NeighborKey)
    requires
        key_id(a) == key_id(b),
    ensures
        a == b,
{
    let m = a.source.0@;
    let n = b.source.0@;
    let p: u64 = if a.protocol == Protocol::Lldp { 1 } else { 0 };
    let q: u64 = if b.protocol == Protocol::Lldp { 1 } else { 0 };
    lemma_id_of_injective(
        p,
        m[0] as u64,
        m[1] as u64,
        m[2] as u64,
        m[3] as u64,
        m[4] as u64,
        m[5] as u64,
        q,
        n[0] as u64,
        n[1] as u64,
        n[2] as u64,
        n[3] as u64,
        n[4] as u64,
        n[5] as u64,
    );
    assert(m =~= n);
    assert(a.source.0 == b.source.0);
}

impl NeighborKey {
    pub fn id(&self) -> (r: u64)
        ensures
            r == key_id(*self),
    {
        let m = &self.source.0;
        let p: u64 = match self.protocol {
            Protocol::Lldp => 1,
            Protocol::Cdp => 0,
        };
        (p << 48u64) | ((m[0] as u64) << 40u64) | ((m[1] as u64) << 32u64) | ((m[2] as u64)
            << 24u64) | ((m[3] as u64) << 16u64) | ((m[4] as u64) << 8u64) | (m[5] as u64)
    }
}

/// One live neighbor. `generation` tells the expiry scheduled for this
/// entry apart from expiries scheduled for entries it replaced.
#[derive(Debug)]
pub struct Neighbor<H> {
    pub first_detection_time: u64,
    pub last_detection_time: u64,
    pub generation: u64,
    pub timeout_handle: H,
    pub du: DataUnit,
}

/// The table: the live neighbors by key index, and the generation that the
/// next update will be given.
#[derive(Debug)]
pub struct NeighborTable<H> {
    neighbors: HashMap<u64, Neighbor<H>>,
    next_generation: u64,
}

pub struct SpecNeighborTable<H> {
    pub neighbors: Map<u64, Neighbor<H>>,
    pub next_generation: u64,
}

impl<H> View for NeighborTable<H> {
    type V = SpecNeighborTable<H>;

    closed spec fn view(&self) -> SpecNeighborTable<H> {
        SpecNeighborTable { neighbors: self.neighbors@, next_generation: self.next_generation }
    }
}

pub open spec fn key_of(source: MacAddress, du: DataUnit) -> NeighborKey {
    NeighborKey { protocol: spec_protocol(du@), source }
}

/// An update for the key of `du` from `source`: the entry is replaced by a
/// fresh one seen at `now`, keeping the first detection time of the entry
/// it replaces, and tagged with the next generation.
pub open spec fn spec_update<H>(
    t: SpecNeighborTable<H>,
    source: MacAddress,
    du: DataUnit,
    now: u64,
    handle: H,
) -> SpecNeighborTable<H> {
    let id = key_id(key_of(source, du));
    SpecNeighborTable {
        neighbors: t.neighbors.insert(
            id,
            Neighbor {
                first_detection_time: if t.neighbors.contains_key(id) {
                    t.neighbors[id].first_detection_time
                } else {
                    now
                },
                last_detection_time: now,
                generation: t.next_generation,
                timeout_handle: handle,
                du,
            },
        ),
        next_generation: (t.next_generation + 1) as u64,
    }
}

/// An expiry for `key` scheduled with generation `generation`: it removes
/// the entry only if the entry is still of that generation.
pub open spec fn spec_expire<H>(
    t: SpecNeighborTable<H>,
    key: NeighborKey,
    generation: u64,
) -> SpecNeighborTable<H> {
    let id = key_id(key);
    if t.neighbors.contains_key(id) && t.neighbors[id].generation == generation {
        SpecNeighborTable { neighbors: t.neighbors.remove(id), ..t }
    } else {
        t
    }
}

/// The table's generations are below the next one to hand out.
pub open spec fn wf_table<H>(t: SpecNeighborTable<H>) -> bool {
    forall|id: u64| #[trigger]
        t.neighbors.contains_key(id) ==> t.neighbors[id].generation < t.next_generation
}

impl<H> NeighborTable<H> {
    pub fn new() -> (r: Self)
        ensures
            r@.neighbors == Map::<u64, Neighbor<H>>::empty(),
            r@.next_generation == 0,
            wf_table(r@),
    {
        NeighborTable { neighbors: HashMap::new(), next_generation: 0 }
    }

    pub fn len(&self) -> (r: usize)
        ensures
            r == self@.neighbors.len(),
    {
        self.neighbors.len()
    }

    /// The generation that the next update will tag its entry with; the
    /// caller schedules that entry's expiry with it.
    pub fn next_generation(&self) -> (r: u64)
        ensures
            r == self@.next_generation,
    {
        self.next_generation
    }

    pub fn get(&self, key: &NeighborKey) -> (r: Option<&Neighbor<H>>)
        ensures
            match r {
                Some(n) => self@.neighbors.contains_key(key_id(*key)) && *n == self@.neighbors[key_id(*key)],
                None => !self@.neighbors.contains_key(key_id(*key)),
            },
    {
        let id = key.id();
        self.neighbors.get(&id)
    }

    /// Records a data unit from `source` seen at time `now`, with `handle`
    /// for the expiry scheduled with [`Self::next_generation`]. Returns the
    /// handle of the replaced entry's expiry, for the caller to cancel, or
    /// `None` for a neighbor not seen before.
    pub fn update(&mut self, source: MacAddress, du: DataUnit, now: u64, handle: H) -> (r: Option<H>)
        requires
            old(self)@.next_generation < u64::MAX,
            wf_table(old(self)@),
        ensures
            final(self)@ == spec_update(old(self)@, source, du, now, handle),
            wf_table(final(self)@),
            match r {
                Some(h) => old(self)@.neighbors.contains_key(key_id(key_of(source, du)))
                    && h == old(self)@.neighbors[key_id(key_of(source, du))].timeout_handle,
                None => !old(self)@.neighbors.contains_key(key_id(key_of(source, du))),
            },
    {
        let key = NeighborKey { source, protocol: du.protocol() };
        let id = key.id();
        let generation = self.next_generation;
        let (first_detection_time, previous) = match self.neighbors.remove(&id) {
            Some(entry) => (entry.first_detection_time, Some(entry.timeout_handle)),
            None => (now, None),
        };
        self.neighbors.insert(
            id,
            Neighbor {
                first_detection_time,
                last_detection_time: now,
                generation,
                timeout_handle: handle,
                du,
            },
        );
        self.next_generation = generation + 1;
        proof {
            let ghost t = spec_update(old(self)@, source, du, now, handle);
            assert(self@.neighbors =~= t.neighbors);
        }
        previous
    }

    /// The expiry of `key` scheduled with `generation` has come due: the
    /// entry goes if it is still of that generation. Returns whether it
    /// went.
    pub fn expire(&mut self, key: NeighborKey, generation: u64) -> (r: bool)
        requires
            wf_table(old(self)@),
        ensures
            final(self)@ == spec_expire(old(self)@, key, generation),
            wf_table(final(self)@),
            r == (old(self)@.neighbors.contains_key(key_id(key))
                && old(self)@.neighbors[key_id(key)].generation == generation),
    {
        let id = key.id();
        let current = match self.neighbors.get(&id) {
            Some(n) => n.generation == generation,
            None => false,
        };
        if current {
            self.neighbors.remove(&id);
            assert(self@.neighbors =~= old(self)@.neighbors.remove(id));
        }
        current
    }
}

/// Neighbor lifecycle: on a table without the key, a first update creates
/// the entry; a second update for the same key before it expires hands
/// back the first expiry's handle, keeps one entry with the first detection
/// time, and takes the second time as the last detection time; the first
/// expiry then leaves the entry alone, while the second removes it.
pub proof fn lemma_neighbor_lifecycle<H>(
    t: SpecNeighborTable<H>,
    source: MacAddress,
    du1: DataUnit,
    du2: DataUnit,
    t1: u64,
    t2: u64,
    h1: H,
    h2: H,
)
    requires
        wf_table(t),
        t.next_generation + 1 < u64::MAX,
        spec_protocol(du1@) == spec_protocol(du2@),
        !t.neighbors.contains_key(key_id(key_of(source, du1))),
    ensures
        ({
            let id = key_id(key_of(source, du1));
            let a = spec_update(t, source, du1, t1, h1);
            let b = spec_update(a, source, du2, t2, h2);
            &&& a.neighbors.dom() == t.neighbors.dom().insert(id)
            &&& a.neighbors[id].first_detection_time == t1
            &&& b.neighbors.dom() == a.neighbors.dom()
            &&& a.neighbors[id].timeout_handle == h1
            &&& b.neighbors[id].first_detection_time == t1
            &&& b.neighbors[id].last_detection_time == t2
            &&& b.neighbors[id].du == du2
            &&& spec_expire(b, key_of(source, du1), t.next_generation) == b
            &&& spec_expire(b, key_of(source, du1), a.next_generation).neighbors
                == t.neighbors.remove(id)
        }),
{
    let id = key_id(key_of(source, du1));
    let a = spec_update(t, source, du1, t1, h1);
    let b = spec_update(a, source, du2, t2, h2);
    assert(a.neighbors.dom() =~= t.neighbors.dom().insert(id));
    assert(b.neighbors.dom() =~= a.neighbors.dom());
    assert(b.neighbors.remove(id) =~= t.neighbors.remove(id));
}

/// Race between an update and a stale expiry: whatever the order in which
/// a second update for a key and the expiry scheduled by the first update
/// take the lock, the table ends up holding the second update's entry.
pub proof fn lemma_stale_expiry_cannot_remove<H>(
    t: SpecNeighborTable<H>,
    source: MacAddress,
    du1: DataUnit,
    du2: DataUnit,
    t1: u64,
    t2: u64,
    h1: H,
    h2: H,
)
    requires
        wf_table(t),
        t.next_generation + 1 < u64::MAX,
        spec_protocol(du1@) == spec_protocol(du2@),
    ensures
        ({
            let id = key_id(key_of(source, du1));
            let g1 = t.next_generation;
            let a = spec_update(t, source, du1, t1, h1);
            let late = spec_expire(spec_update(a, source, du2, t2, h2), key_of(source, du1), g1);
            let early = spec_update(spec_expire(a, key_of(source, du1), g1), source, du2, t2, h2);
            &&& late.neighbors.contains_key(id)
            &&& late.neighbors[id].du == du2
            &&& late.neighbors[id].last_detection_time == t2
            &&& early.neighbors.contains_key(id)
            &&& early.neighbors[id].du == du2
            &&& early.neighbors[id].last_detection_time == t2
        }),
{
}

} // verus!
