//! The memory objects that a pool holds for one memory type, and the
//! policy by which it grows.

use crate::memory::pool::block::first_fit;
use crate::memory::pool::block::gap_fits;
use crate::memory::pool::block::placement;
use crate::memory::pool::block::BlockState;
use crate::memory::pool::block::MemoryBlock;
use crate::memory::pool::block::Region;
use crate::memory::DeviceMemory;
use crate::DeviceSize;
use vstd::prelude::*;

verus! {

/// The size of the smallest memory object that a pool asks the device for.
pub const MIN_BLOCK_SIZE: DeviceSize = 8 * 1024 * 1024;

/// The first of `block`, twice `block`, four times `block` and so on that
/// is not below `size`.
pub open spec fn doubled_until(block: nat, size: nat) -> nat
    decreases
            (if size > block {
                size - block
            } else {
                0
            }),
{
    if block >= size || block == 0 {
        block
    } else {
        doubled_until(2 * block, size)
    }
}

/// The size of the memory object that a pool asks the device for when an
/// allocation of `size` bytes fits into none of its objects: the smallest
/// size that `MIN_BLOCK_SIZE` doubles to and that holds the allocation, as
/// long as that is a size that the device can be asked for, and else the
/// size of the allocation itself.
pub open spec fn spec_block_size_for(size: DeviceSize) -> DeviceSize {
    let doubled = doubled_until(MIN_BLOCK_SIZE as nat, size as nat);
    if doubled <= DeviceSize::MAX {
        doubled as DeviceSize
    } else {
        size
    }
}

/// Returns the size of the memory object that a pool asks the device for
/// when an allocation of `size` bytes fits into none of its objects.
pub fn block_size_for(size: DeviceSize) -> (r: DeviceSize)
    ensures
        r == spec_block_size_for(size),
        r >= size,
{
    let mut block: DeviceSize = MIN_BLOCK_SIZE;
    while block < size
        invariant
            block > 0,
            doubled_until(block as nat, size as nat) == doubled_until(
                MIN_BLOCK_SIZE as nat,
                size as nat,
            ),
        decreases
                (if size > block {
                    size - block
                } else {
                    0
                }),
    {
        match block.checked_mul(2) {
            Some(next) => {
                block = next;
            },
            None => {
                proof {
                    lemma_doubled_is_not_below(2 * block as nat, size as nat);
                }
                return size;
            },
        }
    }
    block
}

/// Doubling never goes down.
proof fn lemma_doubled_is_not_below(block: nat, size: nat)
    ensures
        doubled_until(block, size) >= block,
    decreases
            (if size > block {
                size - block
            } else {
                0
            }),
{
    if !(block >= size || block == 0) {
        lemma_doubled_is_not_below(2 * block, size);
    }
}

/// The memory objects that a pool holds for one memory type.
///
/// An allocation is served from the first object that has room for it. If
/// none has, the pool has to be given a new memory object first.
#[derive(Debug)]
pub struct MemoryTypePool {
    blocks: Vec<MemoryBlock>,
}

impl MemoryTypePool {
    /// Whether the pool is in order: each of its blocks is.
    pub closed spec fn wf(&self) -> bool {
        forall|b: int| 0 <= b < self.blocks@.len() ==> (#[trigger] self.blocks@[b]).wf()
    }

    /// The blocks of the pool, in the order in which they were added.
    pub closed spec fn view(&self) -> Seq<BlockState> {
        Seq::new(self.blocks@.len(), |b: int| self.blocks@[b].state())
    }

    /// Builds a pool without any memory object.
    pub fn new() -> (r: MemoryTypePool)
        ensures
            r.wf(),
            r@ =~= Seq::<BlockState>::empty(),
    {
        MemoryTypePool { blocks: Vec::new() }
    }

    /// Returns the blocks of the pool.
    pub fn blocks(&self) -> (r: &Vec<MemoryBlock>)
        ensures
            r@.len() == self@.len(),
            forall|b: int| 0 <= b < r@.len() ==> (#[trigger] r@[b]).state() == self@[b],
            self.wf() ==> forall|b: int| 0 <= b < r@.len() ==> (#[trigger] r@[b]).wf(),
    {
        &self.blocks
    }

    /// Adds a memory object to the pool, of which nothing is in use yet.
    /// Returns the number that the pool gives to the block.
    pub fn add_block(&mut self, memory: DeviceMemory) -> (r: usize)
        requires
            old(self).wf(),
        ensures
            final(self).wf(),
            r == old(self)@.len(),
            final(self)@.len() == old(self)@.len() + 1,
            forall|b: int| 0 <= b < old(self)@.len() ==> final(self)@[b] == old(self)@[b],
            final(self)@[r as int] == (BlockState { memory, regions: Seq::empty() }),
    {
        let index = self.blocks.len();
        self.blocks.push(MemoryBlock::new(memory));
        index
    }

    /// Looks for `size` bytes at the given alignment in the blocks of the
    /// pool and marks them as in use.
    ///
    /// The bytes are taken from the first block that has room for them, as
    /// `MemoryBlock::allocate` says. Returns the number of the block and
    /// the offset in it, or `None` if no block has room: the pool is then
    /// unchanged.
    pub fn allocate(&mut self, size: DeviceSize, alignment: DeviceSize) -> (r: Option<
        (usize, DeviceSize),
    >)
        requires
            old(self).wf(),
            size > 0,
            alignment > 0,
        ensures
            final(self).wf(),
            final(self)@.len() == old(self)@.len(),
            match r {
                Some((block, offset)) => {
                    &&& block < old(self)@.len()
                    &&& forall|b: int|
                        0 <= b < block ==> !(#[trigger] old(self)@[b]).has_room(size, alignment)
                    &&& forall|b: int|
                        0 <= b < old(self)@.len() && b != block ==> final(self)@[b] == old(
                            self,
                        )@[b]
                    &&& final(self)@[block as int].memory == old(self)@[block as int].memory
                    &&& exists|i: int|
                        {
                            &&& #[trigger] first_fit(
                                old(self)@[block as int].regions,
                                old(self)@[block as int].memory.size,
                                i,
                                size,
                                alignment,
                            )
                            &&& offset == placement(old(self)@[block as int].regions, i, alignment)
                            &&& final(self)@[block as int].regions == old(
                                self,
                            )@[block as int].regions.insert(
                                i,
                                Region { start: offset, end: (offset + size) as DeviceSize },
                            )
                        }
                },
                None => {
                    &&& final(self)@ == old(self)@
                    &&& forall|b: int|
                        0 <= b < old(self)@.len() ==> !(#[trigger] old(self)@[b]).has_room(
                            size,
                            alignment,
                        )
                },
            },
    {
        let mut b: usize = 0;
        while b < self.blocks.len()
            invariant
                b <= self.blocks.len(),
                self.blocks@.len() == old(self).blocks@.len(),
                self@ == old(self)@,
                self.wf(),
                size > 0,
                alignment > 0,
                forall|k: int| 0 <= k < b ==> !(#[trigger] old(self)@[k]).has_room(size, alignment),
            decreases self.blocks.len() - b,
        {
            let ghost before = self.blocks@;
            let ghost states = self@;
            assert(before[b as int].wf());
            assert(states[b as int] == before[b as int].state());
            let found = self.blocks[b].allocate(size, alignment);
            assert forall|k: int| 0 <= k < self.blocks@.len() implies (#[trigger] self.blocks@[k]).wf() by {
                if k != b {
                    assert(self.blocks@[k] == before[k]);
                }
            }
            assert forall|k: int| 0 <= k < self@.len() && k != b implies #[trigger] self@[k]
                == states[k] by {
                assert(self.blocks@[k] == before[k]);
            }
            let ghost was = before[b as int];
            let ghost now = self.blocks@[b as int];
            assert(self@[b as int] == now.state());
            match found {
                Some(offset) => {
                    proof {
                        let i = choose|i: int|
                            {
                                &&& #[trigger] first_fit(was@, was.spec_size(), i, size, alignment)
                                &&& offset == placement(was@, i, alignment)
                                &&& now@ == was@.insert(
                                    i,
                                    Region { start: offset, end: (offset + size) as DeviceSize },
                                )
                            };
                        assert(states == old(self)@);
                        assert(first_fit(
                            old(self)@[b as int].regions,
                            old(self)@[b as int].memory.size,
                            i,
                            size,
                            alignment,
                        ));
                        assert(offset == placement(old(self)@[b as int].regions, i, alignment));
                        assert(self@[b as int].regions == old(self)@[b as int].regions.insert(
                            i,
                            Region { start: offset, end: (offset + size) as DeviceSize },
                        ));
                        assert(self@[b as int].memory == old(self)@[b as int].memory);
                        assert(self@.len() == old(self)@.len());
                        assert(forall|k: int|
                            0 <= k < old(self)@.len() && k != b ==> self@[k] == old(self)@[k]);
                    }
                    return Some((b, offset));
                },
                None => {
                    assert(self@[b as int] == states[b as int]);
                    assert(self@ =~= states);
                    assert forall|i: int|
                        !gap_fits(
                            states[b as int].regions,
                            states[b as int].memory.size,
                            i,
                            size,
                            alignment,
                        ) by {
                        if 0 <= i <= was@.len() {
                            assert(!gap_fits(was@, was.spec_size(), i, size, alignment));
                        }
                    }
                    assert(!states[b as int].has_room(size, alignment));
                },
            }
            b += 1;
        }
        None
    }

    /// Gives the region back that starts at `offset` in block number
    /// `block`. Returns the region, or `None` if there is no such block or
    /// no region in use starts there: the pool is then unchanged.
    pub fn free(&mut self, block: usize, offset: DeviceSize) -> (r: Option<Region>)
        requires
            old(self).wf(),
        ensures
            final(self).wf(),
            final(self)@.len() == old(self)@.len(),
            forall|b: int|
                0 <= b < old(self)@.len() && b != block ==> final(self)@[b] == old(self)@[b],
            block >= old(self)@.len() ==> r is None,
            block < old(self)@.len() ==> {
                &&& final(self)@[block as int].memory == old(self)@[block as int].memory
                &&& match r {
                    Some(region) => exists|i: int|
                        {
                            &&& 0 <= i < old(self)@[block as int].regions.len()
                            &&& #[trigger] old(self)@[block as int].regions[i] == region
                            &&& region.start == offset
                            &&& final(self)@[block as int].regions == old(
                                self,
                            )@[block as int].regions.remove(i)
                        },
                    None => {
                        &&& final(self)@[block as int].regions == old(self)@[block as int].regions
                        &&& forall|i: int|
                            0 <= i < old(self)@[block as int].regions.len() ==> (#[trigger] old(
                                self,
                            )@[block as int].regions[i]).start != offset
                    },
                }
            },
    {
        if block >= self.blocks.len() {
            return None;
        }
        let ghost before = self.blocks@;
        let ghost states = self@;
        assert(before[block as int].wf());
        assert(states[block as int] == before[block as int].state());
        let r = self.blocks[block].free(offset);
        assert forall|k: int| 0 <= k < self.blocks@.len() implies (#[trigger] self.blocks@[k]).wf() by {
            if k != block {
                assert(self.blocks@[k] == before[k]);
            }
        }
        assert forall|k: int| 0 <= k < self@.len() && k != block implies #[trigger] self@[k]
            == states[k] by {
            assert(self.blocks@[k] == before[k]);
        }
        let ghost was = before[block as int];
        let ghost now = self.blocks@[block as int];
        assert(self@[block as int] == now.state());
        proof {
            if let Some(region) = r {
                let i = choose|i: int|
                    {
                        &&& 0 <= i < was@.len()
                        &&& #[trigger] was@[i] == region
                        &&& region.start == offset
                        &&& now@ == was@.remove(i)
                    };
                assert(old(self)@[block as int].regions[i] == region);
            }
        }
        r
    }
}

/// A memory object that is large enough for an allocation has room for it
/// as long as nothing of it is in use: the allocation goes to its first
/// byte, whatever the alignment. So a pool that was given the memory object
/// that it asked for can serve the allocation that it asked it for.
pub proof fn lemma_new_block_has_room(memory: DeviceMemory, size: DeviceSize, alignment: DeviceSize)
    requires
        size > 0,
        alignment > 0,
        memory.size >= size,
    ensures
        (BlockState { memory, regions: Seq::empty() }).has_room(size, alignment),
        first_fit(Seq::empty(), memory.size, 0, size, alignment),
        placement(Seq::empty(), 0, alignment) == 0,
{
    assert(0int % (alignment as int) == 0);
    assert(gap_fits(Seq::<Region>::empty(), memory.size, 0, size, alignment));
    let state = BlockState { memory, regions: Seq::empty() };
    assert(gap_fits(state.regions, state.memory.size, 0, size, alignment));
}

} // verus!
