//! The standard pool: one pool of memory objects for each memory type, each
//! layout and each mapping requirement.
//!
//! Linear and optimal resources never share a memory object, so that none
//! of them can come to lie next to a resource of the other kind without the
//! distance that the device asks for. Mapped and unmapped allocations are
//! kept apart in the same way.

use crate::device::MemoryType;
use crate::device::MAX_MEMORY_TYPES;
use crate::memory::pool::block::first_fit;
use crate::memory::pool::block::placement;
use crate::memory::pool::block::BlockState;
use crate::memory::pool::block::Region;
use crate::memory::pool::type_pool::MemoryTypePool;
use crate::memory::pool::AllocLayout;
use crate::memory::pool::MappingRequirement;
use crate::memory::DeviceMemory;
use crate::DeviceSize;
use vstd::prelude::*;

verus! {

/// The number of pools of a standard pool: one for each memory type, each
/// layout and each mapping requirement.
pub const NUM_POOLS: usize = 128;

/// The number of the pool that serves allocations of memory type `id` with
/// the given layout and mapping requirement.
pub open spec fn spec_pool_index(id: u32, layout: AllocLayout, map: MappingRequirement) -> int {
    4 * id + (if layout is Optimal {
        2int
    } else {
        0int
    }) + (if map is DoMap {
        1int
    } else {
        0int
    })
}

/// Returns the number of the pool that serves allocations of memory type
/// `id` with the given layout and mapping requirement.
pub fn pool_index(id: u32, layout: AllocLayout, map: MappingRequirement) -> (r: usize)
    requires
        id < MAX_MEMORY_TYPES,
    ensures
        r == spec_pool_index(id, layout, map),
        r < NUM_POOLS,
{
    let by_layout: usize = match layout {
        AllocLayout::Linear => 0,
        AllocLayout::Optimal => 2,
    };
    let by_map: usize = match map {
        MappingRequirement::DoNotMap => 0,
        MappingRequirement::DoMap => 1,
    };
    4 * (id as usize) + by_layout + by_map
}

/// Two allocations share a pool only if they agree in memory type, layout
/// and mapping requirement. In particular a linear and an optimal resource
/// are never served from the same memory object.
pub proof fn lemma_pools_are_apart(
    id: u32,
    layout: AllocLayout,
    map: MappingRequirement,
    other_id: u32,
    other_layout: AllocLayout,
    other_map: MappingRequirement,
)
    requires
        spec_pool_index(id, layout, map) == spec_pool_index(other_id, other_layout, other_map),
    ensures
        id == other_id,
        layout == other_layout,
        map == other_map,
{
}

/// A piece of memory that was taken from a standard pool.
#[derive(Debug, Copy, Clone, PartialEq, Eq, Structural)]
pub struct StdMemoryPoolAlloc {
    /// The number of the pool that the memory was taken from.
    pub pool: usize,
    /// The number of the memory object in that pool.
    pub block: usize,
    /// The offset of the first byte in the memory object.
    pub offset: DeviceSize,
    /// The number of bytes.
    pub size: DeviceSize,
}

/// The standard pool of a device.
#[derive(Debug)]
pub struct StdMemoryPool {
    pools: Vec<MemoryTypePool>,
}

impl StdMemoryPool {
    /// Whether the pool is in order.
    pub closed spec fn wf(&self) -> bool {
        &&& self.pools@.len() == NUM_POOLS
        &&& forall|p: int| 0 <= p < self.pools@.len() ==> (#[trigger] self.pools@[p]).wf()
    }

    /// The memory objects of each pool, by the number of the pool.
    pub closed spec fn view(&self) -> Seq<Seq<BlockState>> {
        Seq::new(self.pools@.len(), |p: int| self.pools@[p]@)
    }

    /// Builds a pool that holds no memory object yet.
    pub fn new() -> (r: StdMemoryPool)
        ensures
            r.wf(),
            r@.len() == NUM_POOLS,
            forall|p: int| 0 <= p < NUM_POOLS ==> (#[trigger] r@[p]).len() == 0,
    {
        let mut pools: Vec<MemoryTypePool> = Vec::new();
        while pools.len() < NUM_POOLS
            invariant
                pools@.len() <= NUM_POOLS,
                forall|p: int|
                    0 <= p < pools@.len() ==> (#[trigger] pools@[p]).wf() && pools@[p]@.len() == 0,
            decreases NUM_POOLS - pools.len(),
        {
            pools.push(MemoryTypePool::new());
        }
        StdMemoryPool { pools }
    }

    /// Returns the pool with the given number, if there is one.
    pub fn pool(&self, index: usize) -> (r: Option<&MemoryTypePool>)
        requires
            self.wf(),
        ensures
            r is Some <==> index < NUM_POOLS,
            r matches Some(pool) ==> pool@ == self@[index as int] && pool.wf(),
    {
        if index < self.pools.len() {
            Some(&self.pools[index])
        } else {
            None
        }
    }

    /// Looks for `size` bytes at the given alignment in the memory objects
    /// that the pool holds for this memory type, layout and mapping
    /// requirement, and marks them as in use.
    ///
    /// Returns `None` if none of these memory objects has room: the pool is
    /// then unchanged, and has to be given a new memory object of at least
    /// `block_size_for(size)` bytes with `add_block`.
    ///
    /// Memory that is to be mapped must be of a host-visible type, and the
    /// size and the alignment must not be zero.
    pub fn allocate(
        &mut self,
        ty: MemoryType,
        size: DeviceSize,
        alignment: DeviceSize,
        layout: AllocLayout,
        map: MappingRequirement,
    ) -> (r: Option<StdMemoryPoolAlloc>)
        requires
            old(self).wf(),
            ty.id < MAX_MEMORY_TYPES,
            map == MappingRequirement::DoMap ==> ty.host_visible,
            size > 0,
            alignment > 0,
        ensures
            final(self).wf(),
            final(self)@.len() == old(self)@.len(),
            forall|p: int|
                0 <= p < NUM_POOLS && p != spec_pool_index(ty.id, layout, map) ==> final(self)@[p]
                    == old(self)@[p],
            ({
                let before = old(self)@[spec_pool_index(ty.id, layout, map)];
                let after = final(self)@[spec_pool_index(ty.id, layout, map)];
                &&& after.len() == before.len()
                &&& match r {
                    Some(alloc) => {
                        &&& alloc.pool == spec_pool_index(ty.id, layout, map)
                        &&& alloc.size == size
                        &&& alloc.block < before.len()
                        &&& forall|b: int|
                            0 <= b < alloc.block ==> !(#[trigger] before[b]).has_room(
                                size,
                                alignment,
                            )
                        &&& forall|b: int|
                            0 <= b < before.len() && b != alloc.block ==> after[b] == before[b]
                        &&& after[alloc.block as int].memory == before[alloc.block as int].memory
                        &&& exists|i: int|
                            {
                                &&& #[trigger] first_fit(
                                    before[alloc.block as int].regions,
                                    before[alloc.block as int].memory.size,
                                    i,
                                    size,
                                    alignment,
                                )
                                &&& alloc.offset == placement(
                                    before[alloc.block as int].regions,
                                    i,
                                    alignment,
                                )
                                &&& after[alloc.block as int].regions
                                    == before[alloc.block as int].regions.insert(
                                    i,
                                    Region {
                                        start: alloc.offset,
                                        end: (alloc.offset + size) as DeviceSize,
                                    },
                                )
                            }
                    },
                    None => {
                        &&& after == before
                        &&& forall|b: int|
                            0 <= b < before.len() ==> !(#[trigger] before[b]).has_room(
                                size,
                                alignment,
                            )
                    },
                }
            }),
    {
        let index = pool_index(ty.id, layout, map);
        let ghost pools = self.pools@;
        let ghost states = self@;
        assert(pools[index as int].wf());
        assert(states[index as int] == pools[index as int]@);
        let found = self.pools[index].allocate(size, alignment);
        assert forall|p: int| 0 <= p < self.pools@.len() implies (#[trigger] self.pools@[p]).wf() by {
            if p != index {
                assert(self.pools@[p] == pools[p]);
            }
        }
        assert forall|p: int| 0 <= p < NUM_POOLS && p != index implies #[trigger] self@[p]
            == states[p] by {
            assert(self.pools@[p] == pools[p]);
        }
        assert(self@[index as int] == self.pools@[index as int]@);
        match found {
            Some((block, offset)) => {
                proof {
                    let before = states[index as int];
                    let after = self@[index as int];
                    let i = choose|i: int|
                        {
                            &&& #[trigger] first_fit(
                                before[block as int].regions,
                                before[block as int].memory.size,
                                i,
                                size,
                                alignment,
                            )
                            &&& offset == placement(before[block as int].regions, i, alignment)
                            &&& after[block as int].regions == before[block as int].regions.insert(
                                i,
                                Region { start: offset, end: (offset + size) as DeviceSize },
                            )
                        };
                    assert(first_fit(
                        before[block as int].regions,
                        before[block as int].memory.size,
                        i,
                        size,
                        alignment,
                    ));
                    assert(states == old(self)@);
                    assert(after.len() == before.len());
                    assert(after[block as int].memory == before[block as int].memory);
                    assert(forall|b: int|
                        0 <= b < before.len() && b != block ==> after[b] == before[b]);
                    assert(forall|b: int|
                        0 <= b < block ==> !(#[trigger] before[b]).has_room(size, alignment));
                }
                Some(StdMemoryPoolAlloc { pool: index, block, offset, size })
            },
            None => {
                proof {
                    let before = states[index as int];
                    let after = self@[index as int];
                    assert(states == old(self)@);
                    assert(after == before);
                    assert(forall|b: int|
                        0 <= b < before.len() ==> !(#[trigger] before[b]).has_room(size, alignment));
                }
                None
            },
        }
    }

    /// Gives the pool for this memory type, layout and mapping requirement
    /// a new memory object, of which nothing is in use yet. Returns the
    /// number of the memory object in its pool.
    pub fn add_block(
        &mut self,
        ty: MemoryType,
        layout: AllocLayout,
        map: MappingRequirement,
        memory: DeviceMemory,
    ) -> (r: usize)
        requires
            old(self).wf(),
            ty.id < MAX_MEMORY_TYPES,
        ensures
            final(self).wf(),
            final(self)@.len() == old(self)@.len(),
            forall|p: int|
                0 <= p < NUM_POOLS && p != spec_pool_index(ty.id, layout, map) ==> final(self)@[p]
                    == old(self)@[p],
            ({
                let before = old(self)@[spec_pool_index(ty.id, layout, map)];
                let after = final(self)@[spec_pool_index(ty.id, layout, map)];
                &&& r == before.len()
                &&& after == before.push(BlockState { memory, regions: Seq::empty() })
            }),
    {
        let index = pool_index(ty.id, layout, map);
        let ghost pools = self.pools@;
        let ghost states = self@;
        assert(pools[index as int].wf());
        assert(states[index as int] == pools[index as int]@);
        let block = self.pools[index].add_block(memory);
        assert forall|p: int| 0 <= p < self.pools@.len() implies (#[trigger] self.pools@[p]).wf() by {
            if p != index {
                assert(self.pools@[p] == pools[p]);
            }
        }
        assert forall|p: int| 0 <= p < NUM_POOLS && p != index implies #[trigger] self@[p]
            == states[p] by {
            assert(self.pools@[p] == pools[p]);
        }
        assert(self@[index as int] == self.pools@[index as int]@);
        assert(self@[index as int] =~= states[index as int].push(
            BlockState { memory, regions: Seq::empty() },
        ));
        block
    }

    /// Gives a piece of memory back to the pool. The memory object that it
    /// was taken from stays with the pool. Returns whether the piece was in
    /// use: if it was not, the pool is unchanged.
    pub fn free(&mut self, alloc: &StdMemoryPoolAlloc) -> (r: bool)
        requires
            old(self).wf(),
        ensures
            final(self).wf(),
            final(self)@.len() == old(self)@.len(),
            forall|p: int|
                0 <= p < NUM_POOLS && p != alloc.pool ==> final(self)@[p] == old(self)@[p],
            alloc.pool >= NUM_POOLS ==> !r,
            alloc.pool < NUM_POOLS ==> ({
                let before = old(self)@[alloc.pool as int];
                let after = final(self)@[alloc.pool as int];
                &&& after.len() == before.len()
                &&& forall|b: int|
                    0 <= b < before.len() && b != alloc.block ==> after[b] == before[b]
                &&& alloc.block >= before.len() ==> !r
                &&& alloc.block < before.len() ==> {
                    &&& after[alloc.block as int].memory == before[alloc.block as int].memory
                    &&& if r {
                        exists|i: int|
                            {
                                &&& 0 <= i < before[alloc.block as int].regions.len()
                                &&& (#[trigger] before[alloc.block as int].regions[i]).start
                                    == alloc.offset
                                &&& after[alloc.block as int].regions
                                    == before[alloc.block as int].regions.remove(i)
                            }
                    } else {
                        &&& after[alloc.block as int].regions == before[alloc.block as int].regions
                        &&& forall|i: int|
                            0 <= i < before[alloc.block as int].regions.len() ==> (
                            #[trigger] before[alloc.block as int].regions[i]).start != alloc.offset
                    }
                }
            }),
    {
        if alloc.pool >= self.pools.len() {
            return false;
        }
        let index = alloc.pool;
        let ghost pools = self.pools@;
        let ghost states = self@;
        assert(pools[index as int].wf());
        assert(states[index as int] == pools[index as int]@);
        let freed = self.pools[index].free(alloc.block, alloc.offset);
        assert forall|p: int| 0 <= p < self.pools@.len() implies (#[trigger] self.pools@[p]).wf() by {
            if p != index {
                assert(self.pools@[p] == pools[p]);
            }
        }
        assert forall|p: int| 0 <= p < NUM_POOLS && p != index implies #[trigger] self@[p]
            == states[p] by {
            assert(self.pools@[p] == pools[p]);
        }
        assert(self@[index as int] == self.pools@[index as int]@);
        proof {
            let before = states[index as int];
            let after = self@[index as int];
            if let Some(region) = freed {
                let i = choose|i: int|
                    {
                        &&& 0 <= i < before[alloc.block as int].regions.len()
                        &&& #[trigger] before[alloc.block as int].regions[i] == region
                        &&& region.start == alloc.offset
                        &&& after[alloc.block as int].regions
                            == before[alloc.block as int].regions.remove(i)
                    };
                assert(before[alloc.block as int].regions[i].start == alloc.offset);
            }
        }
        freed.is_some()
    }
}

} // verus!
