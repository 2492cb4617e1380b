//! The allocation table for the linear memory the host and the engine
//! share. Buffers live in two disjoint families: *live* buffers, obtained
//! from `allocate` and owned by the host until it releases them, and
//! *handed-out* buffers, which carry return values; a handed-out buffer is
//! never entered into the live table, so it cannot be released — mirroring
//! the one-way ownership handoff of the boundary protocol.

use vstd::prelude::*;

verus! {

use std::collections::HashMap;
use vstd::std_specs::hash::group_hash_axioms;
use vstd::std_specs::hash::obeys_key_model;

broadcast use group_hash_axioms;

/// A fresh buffer of `size` zero bytes.
pub open spec fn zero_bytes(size: u32) -> Seq<u8> {
    Seq::new(size as nat, |i: int| 0u8)
}

/// The table tracking every buffer of the shared memory: which addresses
/// are live, which were handed out, and what bytes each one holds.
pub struct MemoryTable {
    next: u32,
    live: HashMap<u32, Vec<u8>>,
    handed: HashMap<u32, Vec<u8>>,
}

impl MemoryTable {
    /// The live allocations, by address.
    pub closed spec fn live_map(self) -> Map<u32, Seq<u8>> {
        self.live@.map_values(|v: Vec<u8>| v@)
    }

    /// The buffers handed out to carry return values, by address.
    pub closed spec fn handed_map(self) -> Map<u32, Seq<u8>> {
        self.handed@.map_values(|v: Vec<u8>| v@)
    }

    /// Every tracked address is non-zero and below the allocation cursor,
    /// and no address is tracked in both families.
    pub closed spec fn wf(self) -> bool {
        &&& 0 < self.next
        &&& forall|a: u32| self.live@.contains_key(a) ==> 0 < a < self.next
        &&& forall|a: u32| self.handed@.contains_key(a) ==> 0 < a < self.next
        &&& forall|a: u32| !(self.live@.contains_key(a) && #[trigger] self.handed@.contains_key(a))
        &&& self.live@.dom().finite()
        &&& self.handed@.dom().finite()
        &&& obeys_key_model::<u32>()
        &&& vstd::std_specs::hash::builds_valid_hashers::<std::hash::RandomState>()
    }

    /// Room in the address space for one more buffer. Addresses name
    /// buffers in the table — they are opaque keys, not byte offsets — so
    /// each new buffer takes the next address.
    pub open spec fn has_room(self) -> bool {
        self.spec_next() < u32::MAX
    }

    /// The allocation cursor: every address at or above it is still free.
    pub closed spec fn spec_next(self) -> u32 {
        self.next
    }

    /// An empty table: nothing allocated, nothing handed out.
    pub fn new() -> (r: MemoryTable)
        ensures
            r.wf(),
            r.spec_next() == 1,
            r.live_map() =~= Map::<u32, Seq<u8>>::empty(),
            r.handed_map() =~= Map::<u32, Seq<u8>>::empty(),
    {
        let r = MemoryTable { next: 1, live: HashMap::new(), handed: HashMap::new() };
        proof {
            assert(r.live_map() =~= Map::<u32, Seq<u8>>::empty());
            assert(r.handed_map() =~= Map::<u32, Seq<u8>>::empty());
        }
        r
    }

    /// Reserves a buffer of exactly `size` zeroed bytes, registers it in
    /// the live table under a fresh address, and returns that address. The
    /// address collides with no currently tracked buffer, live or handed
    /// out.
    pub fn allocate(&mut self, size: u32) -> (addr: u32)
        requires
            old(self).wf(),
            old(self).has_room(),
        ensures
            final(self).wf(),
            final(self).spec_next() == old(self).spec_next() + 1,
            addr != 0,
            !old(self).live_map().contains_key(addr),
            !old(self).handed_map().contains_key(addr),
            final(self).live_map() =~= old(self).live_map().insert(addr, zero_bytes(size)),
            final(self).handed_map() == old(self).handed_map(),
            final(self).live_map().len() == old(self).live_map().len() + 1,
    {
        let addr = self.next;
        let mut buf: Vec<u8> = Vec::new();
        let mut i: u32 = 0;
        while i < size
            invariant
                i <= size,
                buf@ =~= zero_bytes(i),
            decreases size - i,
        {
            buf.push(0u8);
            i = i + 1;
        }
        self.next = self.next + 1;
        let _ = self.live.insert(addr, buf);
        proof {
            assert(old(self).live_map().dom() =~= old(self).live@.dom());
            assert(old(self).handed_map().dom() =~= old(self).handed@.dom());
            assert(self.live_map() =~= old(self).live_map().insert(addr, zero_bytes(size)));
            assert(self.live_map().dom() =~= old(self).live_map().dom().insert(addr));
            vstd::set::axiom_set_insert_len(old(self).live_map().dom(), addr);
        }
        addr
    }

    /// Releases a live buffer: removes its entry from the live table. The
    /// address must be live and `size` must match the original allocation;
    /// the boundary protocol treats a violation as a fatal caller error,
    /// so those inputs are excluded here outright.
    pub fn deallocate(&mut self, addr: u32, size: u32)
        requires
            old(self).wf(),
            old(self).live_map().contains_key(addr),
            old(self).live_map()[addr].len() == size,
        ensures
            final(self).wf(),
            final(self).spec_next() == old(self).spec_next(),
            final(self).live_map() =~= old(self).live_map().remove(addr),
            final(self).handed_map() == old(self).handed_map(),
            final(self).live_map().len() == old(self).live_map().len() - 1,
    {
        let _ = self.live.remove(&addr);
        proof {
            assert(self.live_map() =~= old(self).live_map().remove(addr));
            assert(old(self).live_map().dom() =~= old(self).live@.dom());
            assert(old(self).live_map().dom().contains(addr));
            assert(old(self).live_map().dom().finite());
            old(self).live_map().lemma_remove_key_len(addr);
        }
    }

    /// The checked form of `deallocate`: refuses, instead of trapping,
    /// an address that is not live or a length that does not match, and
    /// reports whether the entry was removed.
    pub fn try_deallocate(&mut self, addr: u32, size: u32) -> (released: bool)
        requires
            old(self).wf(),
        ensures
            final(self).wf(),
            final(self).spec_next() == old(self).spec_next(),
            released == (old(self).live_map().contains_key(addr) && old(self).live_map()[addr].len()
                == size),
            released ==> final(self).live_map() =~= old(self).live_map().remove(addr),
            !released ==> final(self).live_map() == old(self).live_map(),
            final(self).handed_map() == old(self).handed_map(),
    {
        let matches_entry: bool = match self.live.get(&addr) {
            Some(buf) => buf.len() == size as usize,
            None => false,
        };
        if matches_entry {
            self.deallocate(addr, size);
            true
        } else {
            false
        }
    }

    /// Whether `addr` is a live allocation.
    pub fn contains(&self, addr: u32) -> (r: bool)
        requires
            self.wf(),
        ensures
            r == self.live_map().contains_key(addr),
    {
        self.live.contains_key(&addr)
    }

    /// How many allocations are currently outstanding.
    pub fn live_count(&self) -> (r: usize)
        requires
            self.wf(),
        ensures
            r == self.live_map().len(),
    {
        proof {
            assert(self.live_map().dom() =~= self.live@.dom());
        }
        self.live.len()
    }

    /// Overwrites the contents of a live buffer with host-supplied bytes
    /// of the same length: the host filling a buffer it allocated.
    pub fn write_buffer(&mut self, addr: u32, data: Vec<u8>)
        requires
            old(self).wf(),
            old(self).live_map().contains_key(addr),
            old(self).live_map()[addr].len() == data@.len(),
        ensures
            final(self).wf(),
            final(self).spec_next() == old(self).spec_next(),
            final(self).live_map() =~= old(self).live_map().insert(addr, data@),
            final(self).handed_map() == old(self).handed_map(),
    {
        let _ = self.live.insert(addr, data);
        proof {
            assert(self.live_map() =~= old(self).live_map().insert(addr, data@));
        }
    }

    /// Copies the bytes of a live buffer out of the table, leaving the
    /// buffer in place: reading across the boundary is not a transfer of
    /// ownership.
    pub fn read_buffer(&self, addr: u32, len: u32) -> (r: Vec<u8>)
        requires
            self.wf(),
            self.live_map().contains_key(addr),
            self.live_map()[addr].len() == len,
        ensures
            r@ == self.live_map()[addr],
    {
        proof {
            assert(self.live@.contains_key(addr));
        }
        let buf = match self.live.get(&addr) {
            Some(b) => b,
            None => unreached(),
        };
        copy_bytes(buf)
    }

    /// Stores a return buffer under a fresh address and hands that address
    /// out. The buffer goes into the handed-out family, never the live
    /// table, so it cannot be released: the receiver must copy the bytes
    /// out, exactly as the boundary protocol demands.
    pub fn hand_out(&mut self, data: Vec<u8>) -> (addr: u32)
        requires
            old(self).wf(),
            old(self).has_room(),
        ensures
            final(self).wf(),
            final(self).spec_next() == old(self).spec_next() + 1,
            addr != 0,
            !old(self).live_map().contains_key(addr),
            !old(self).handed_map().contains_key(addr),
            final(self).handed_map() =~= old(self).handed_map().insert(addr, data@),
            final(self).live_map() == old(self).live_map(),
    {
        let addr = self.next;
        self.next = self.next + 1;
        let _ = self.handed.insert(addr, data);
        proof {
            assert(old(self).live_map().dom() =~= old(self).live@.dom());
            assert(old(self).handed_map().dom() =~= old(self).handed@.dom());
            assert(self.handed_map() =~= old(self).handed_map().insert(addr, data@));
        }
        addr
    }

    /// Copies the bytes of a handed-out buffer: the receiver reading a
    /// returned value out of the shared memory.
    pub fn read_handed(&self, addr: u32, len: u32) -> (r: Vec<u8>)
        requires
            self.wf(),
            self.handed_map().contains_key(addr),
            self.handed_map()[addr].len() == len,
        ensures
            r@ == self.handed_map()[addr],
    {
        proof {
            assert(self.handed@.contains_key(addr));
        }
        let buf = match self.handed.get(&addr) {
            Some(b) => b,
            None => unreached(),
        };
        copy_bytes(buf)
    }
}

/// A byte-for-byte copy of a buffer.
fn copy_bytes(src: &Vec<u8>) -> (r: Vec<u8>)
    ensures
        r@ == src@,
{
    let mut out: Vec<u8> = Vec::new();
    let mut i: usize = 0;
    while i < src.len()
        invariant
            i <= src@.len(),
            out@ =~= src@.subrange(0, i as int),
        decreases src@.len() - i,
    {
        out.push(src[i]);
        i = i + 1;
    }
    proof {
        assert(out@ =~= src@);
    }
    out
}

/// An allocation followed immediately by its release leaves the table as
/// it was, and the address absent from it: over the live map, inserting a
/// fresh address and then removing it is the identity. Releasing the same
/// address a second time is not covered by `deallocate`'s precondition —
/// the protocol calls it a fatal error — and `try_deallocate` then reports
/// `false` and changes nothing.
pub proof fn lemma_allocate_then_release(live: Map<u32, Seq<u8>>, addr: u32, data: Seq<u8>)
    requires
        !live.contains_key(addr),
    ensures
        live.insert(addr, data).remove(addr) =~= live,
        !live.insert(addr, data).remove(addr).contains_key(addr),
{
}

/// Two allocations with no release in between never alias: the second
/// address is fresh for the table that already holds the first. And each
/// allocation grows the count of outstanding entries by exactly one, so
/// the live count equals the number of unreleased allocations.
pub proof fn lemma_allocations_distinct(
    live: Map<u32, Seq<u8>>,
    addr1: u32,
    data1: Seq<u8>,
    addr2: u32,
)
    requires
        live.dom().finite(),
        !live.contains_key(addr1),
        !live.insert(addr1, data1).contains_key(addr2),
    ensures
        addr2 != addr1,
        live.insert(addr1, data1).len() == live.len() + 1,
{
    assert(live.insert(addr1, data1).dom() =~= live.dom().insert(addr1));
}

} // verus!
