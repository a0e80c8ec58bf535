//! The server-side region allocator.
//!
//! A `DataNode` owns a table of regions: variable-length byte buffers,
//! each named by the index at which it was allocated. A freed slot is
//! tombstoned (`None`) and its id is never reissued, so an id stays
//! permanently invalid after `free_memory` succeeds.

use vstd::prelude::*;

use crate::errors::{AllocationError, DeallocationError, MemoryAccessError};

verus! {

/// The largest size a single region may have, in bytes.
pub const MAX_ALLOCATION: usize = 1024 * 1024;

/// True when `id` names a live (allocated, not yet freed) region.
pub open spec fn is_live(regions: Seq<Option<Seq<u8>>>, id: int) -> bool {
    0 <= id < regions.len() && regions[id] is Some
}

/// The bytes of the live region `id`.
pub open spec fn region_bytes(regions: Seq<Option<Seq<u8>>>, id: int) -> Seq<u8>
    recommends
        is_live(regions, id),
{
    regions[id].unwrap()
}

/// A zero-filled region of `size` bytes: the contents of a fresh allocation.
pub open spec fn zero_region(size: nat) -> Seq<u8> {
    Seq::new(size, |i: int| 0u8)
}

/// `region` with the span of `data.len()` bytes starting at `offset`
/// overwritten by `data`; bytes outside that span are untouched.
pub open spec fn region_write(region: Seq<u8>, offset: int, data: Seq<u8>) -> Seq<u8>
    recommends
        0 <= offset,
        offset + data.len() <= region.len(),
{
    region.subrange(0, offset) + data + region.subrange(offset + data.len(), region.len() as int)
}

/// The server's region table: a growth-only table of byte buffers,
/// where a freed slot is tombstoned and its index never reissued.
pub struct DataNode {
    mem: Vec<Option<Vec<u8>>>,
}

impl View for DataNode {
    type V = Seq<Option<Seq<u8>>>;

    closed spec fn view(&self) -> Seq<Option<Seq<u8>>> {
        Seq::new(
            self.mem@.len(),
            |i: int| match self.mem@[i] {
                Some(region) => Some(region@),
                None => None,
            },
        )
    }
}

impl DataNode {
    /// A node with no regions.
    pub fn new() -> (r: DataNode)
        ensures
            r@ == Seq::<Option<Seq<u8>>>::empty(),
    {
        let r = DataNode { mem: Vec::new() };
        proof {
            assert(r@ =~= Seq::<Option<Seq<u8>>>::empty());
        }
        r
    }

    /// The number of ids ever issued (live regions plus tombstones).
    pub fn region_count(&self) -> (r: usize)
        ensures
            r == self@.len(),
    {
        self.mem.len()
    }

    /// Reserves a fresh zero-filled region of exactly `size` bytes and
    /// returns its id; rejects sizes over [`MAX_ALLOCATION`].
    pub fn allocate_memory(&mut self, size: usize) -> (r: Result<usize, AllocationError>)
        ensures
            size <= MAX_ALLOCATION ==> old(self)@.len() < usize::MAX && r == Ok::<
                usize,
                AllocationError,
            >(old(self)@.len() as usize)
                && final(self)@ == old(self)@.push(Some(zero_region(size as nat))),
            size > MAX_ALLOCATION ==> r == Err::<usize, AllocationError>(
                AllocationError::AllocationTooLarge,
            ) && final(self)@ == old(self)@,
    {
        if size > MAX_ALLOCATION {
            return Err(AllocationError::AllocationTooLarge);
        }

        let id = self.mem.len();
        let buf = vec![0u8; size];
        proof {
            assert(id == self.mem@.len());
        }
        proof {
            assert forall|i: int| 0 <= i < buf@.len() implies buf@[i] == 0u8 by {
                assert(cloned(0u8, buf@[i]));
            }
            assert(buf@ =~= zero_region(size as nat));
        }
        self.mem.push(Some(buf));
        let n = self.mem.len();
        proof {
            assert(n == id + 1);
            assert(self@ =~= old(self)@.push(Some(zero_region(size as nat))));
        }
        Ok(id)
    }

    /// Releases the region named by `id`; its id becomes permanently
    /// invalid. Fails iff `id` does not name a live region.
    pub fn free_memory(&mut self, id: usize) -> (r: Result<(), DeallocationError>)
        ensures
            is_live(old(self)@, id as int) ==> r == Ok::<(), DeallocationError>(())
                && final(self)@ == old(self)@.update(id as int, None::<Seq<u8>>),
            !is_live(old(self)@, id as int) ==> r == Err::<(), DeallocationError>(
                DeallocationError::InvalidMemoryAddress,
            ) && final(self)@ == old(self)@,
    {
        if id < self.mem.len() {
            if self.mem[id].is_some() {
                self.mem.set(id, None);
                proof {
                    assert(self@ =~= old(self)@.update(id as int, None::<Seq<u8>>));
                }
                return Ok(());
            }
        }
        Err(DeallocationError::InvalidMemoryAddress)
    }

    /// Returns an independent copy of `length` bytes starting at `offset`
    /// in the region named by `id`. Succeeds iff the region is live and
    /// `offset + length` does not exceed its size.
    pub fn read_memory(&self, id: usize, offset: usize, length: usize) -> (r: Result<
        Vec<u8>,
        MemoryAccessError,
    >)
        ensures
            !is_live(self@, id as int) ==> r == Err::<Vec<u8>, MemoryAccessError>(
                MemoryAccessError::InvalidMemoryAddress,
            ),
            is_live(self@, id as int) && offset + length > region_bytes(self@, id as int).len()
                ==> r == Err::<Vec<u8>, MemoryAccessError>(MemoryAccessError::OutOfBoundsAccess),
            is_live(self@, id as int) && offset + length <= region_bytes(self@, id as int).len()
                ==> r is Ok && r.unwrap()@ == region_bytes(self@, id as int).subrange(
                offset as int,
                offset + length,
            ),
    {
        if id >= self.mem.len() {
            return Err(MemoryAccessError::InvalidMemoryAddress);
        }
        match &self.mem[id] {
            None => Err(MemoryAccessError::InvalidMemoryAddress),
            Some(region) => {
                if offset <= region.len() && length <= region.len() - offset {
                    let ghost all = region@;
                    let mut out: Vec<u8> = Vec::new();
                    let mut j: usize = 0;
                    while j < length
                        invariant
                            j <= length,
                            offset + length <= all.len(),
                            all.len() <= usize::MAX,
                            region@ == all,
                            out@ == all.subrange(offset as int, offset + j),
                        decreases length - j,
                    {
                        out.push(region[offset + j]);
                        j = j + 1;
                        proof {
                            assert(out@ =~= all.subrange(offset as int, offset + j));
                        }
                    }
                    proof {
                        assert(region_bytes(self@, id as int) == all);
                    }
                    Ok(out)
                } else {
                    Err(MemoryAccessError::OutOfBoundsAccess)
                }
            },
        }
    }

    /// Overwrites exactly `data.len()` bytes starting at `offset` in the
    /// region named by `id`; bytes outside that span are untouched, and
    /// the region never grows. Succeeds iff the region is live and
    /// `offset + data.len()` does not exceed its size.
    pub fn write_memory(&mut self, id: usize, offset: usize, data: &[u8]) -> (r: Result<
        (),
        MemoryAccessError,
    >)
        ensures
            !is_live(old(self)@, id as int) ==> r == Err::<(), MemoryAccessError>(
                MemoryAccessError::InvalidMemoryAddress,
            ) && final(self)@ == old(self)@,
            is_live(old(self)@, id as int) && offset + data@.len() > region_bytes(
                old(self)@,
                id as int,
            ).len() ==> r == Err::<(), MemoryAccessError>(MemoryAccessError::OutOfBoundsAccess)
                && final(self)@ == old(self)@,
            is_live(old(self)@, id as int) && offset + data@.len() <= region_bytes(
                old(self)@,
                id as int,
            ).len() ==> r == Ok::<(), MemoryAccessError>(()) && final(self)@ == old(self)@.update(
                id as int,
                Some(region_write(region_bytes(old(self)@, id as int), offset as int, data@)),
            ),
    {
        if id >= self.mem.len() {
            return Err(MemoryAccessError::InvalidMemoryAddress);
        }

        let mut slot: Option<Vec<u8>> = None;
        self.mem.set_and_swap(id, &mut slot);
        match slot {
            None => {
                proof {
                    assert(self@ =~= old(self)@);
                }
                Err(MemoryAccessError::InvalidMemoryAddress)
            },
            Some(mut region) => {
                let ghost orig = region@;
                if offset <= region.len() && data.len() <= region.len() - offset {
                    let mut j: usize = 0;
                    while j < data.len()
                        invariant
                            j <= data@.len(),
                            offset + data@.len() <= orig.len(),
                            orig.len() <= usize::MAX,
                            region@.len() == orig.len(),
                            forall|i: int| 0 <= i < offset ==> region@[i] == orig[i],
                            forall|i: int| 0 <= i < j ==> region@[offset + i] == data@[i],
                            forall|i: int|
                                offset + data@.len() <= i < orig.len() ==> region@[i] == orig[i],
                        decreases data@.len() - j,
                    {
                        region.set(offset + j, data[j]);
                        j = j + 1;
                    }
                    proof {
                        assert(region@ =~= region_write(orig, offset as int, data@));
                    }
                    self.mem.set(id, Some(region));
                    proof {
                        assert(self@ =~= old(self)@.update(
                            id as int,
                            Some(region_write(
                                region_bytes(old(self)@, id as int),
                                offset as int,
                                data@,
                            )),
                        ));
                    }
                    Ok(())
                } else {
                    self.mem.set(id, Some(region));
                    proof {
                        assert(self@ =~= old(self)@);
                    }
                    Err(MemoryAccessError::OutOfBoundsAccess)
                }
            },
        }
    }

    /// Returns the fixed size of the region named by `id`. Fails iff the
    /// region is not live.
    pub fn get_memory_size(&self, id: usize) -> (r: Result<usize, MemoryAccessError>)
        ensures
            !is_live(self@, id as int) ==> r == Err::<usize, MemoryAccessError>(
                MemoryAccessError::InvalidMemoryAddress,
            ),
            is_live(self@, id as int) ==> region_bytes(self@, id as int).len() <= usize::MAX && r
                == Ok::<usize, MemoryAccessError>(region_bytes(self@, id as int).len() as usize),
    {
        if id >= self.mem.len() {
            return Err(MemoryAccessError::InvalidMemoryAddress);
        }
        match &self.mem[id] {
            None => Err(MemoryAccessError::InvalidMemoryAddress),
            Some(region) => Ok(region.len()),
        }
    }
}

/// Freeing is terminal: once a region's slot is tombstoned, its id is no
/// longer live, so by the contracts of `read_memory`, `write_memory`,
/// `get_memory_size` and `free_memory` every later operation on that id
/// fails with an address error.
pub proof fn lemma_free_is_terminal(regions: Seq<Option<Seq<u8>>>, id: int)
    requires
        0 <= id < regions.len(),
    ensures
        !is_live(regions.update(id, None::<Seq<u8>>), id),
{
}

/// Writing then reading the same span round-trips: after a write of
/// `data` at `offset`, a read of `data.len()` bytes at `offset` from the
/// updated table returns exactly `data`.
pub proof fn lemma_write_read_round_trip(
    regions: Seq<Option<Seq<u8>>>,
    id: int,
    offset: int,
    data: Seq<u8>,
)
    requires
        is_live(regions, id),
        0 <= offset,
        offset + data.len() <= region_bytes(regions, id).len(),
    ensures
        ({
            let written = regions.update(
                id,
                Some(region_write(region_bytes(regions, id), offset, data)),
            );
            is_live(written, id) && region_bytes(written, id).subrange(
                offset,
                offset + data.len(),
            ) == data
        }),
{
    let written = regions.update(id, Some(region_write(region_bytes(regions, id), offset, data)));
    assert(region_bytes(written, id).subrange(offset, offset + data.len()) =~= data);
}

} // verus!

