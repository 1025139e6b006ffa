//! Sub-allocation of one memory object: which byte ranges of the object are
//! in use, and where the next allocation goes.

use crate::memory::DeviceMemory;
use crate::DeviceSize;
use vstd::prelude::*;

verus! {

/// A range of bytes of a memory object, from `start` up to but not
/// including `end`.
#[derive(Debug, Copy, Clone, PartialEq, Eq, Hash, Structural)]
pub struct Region {
    pub start: DeviceSize,
    pub end: DeviceSize,
}

impl Region {
    /// Whether the region has a byte in common with the `size` bytes that
    /// start at `offset`.
    pub open spec fn overlaps(self, offset: int, size: int) -> bool {
        self.start < offset + size && offset < self.end
    }
}

/// Whether `regions` can be the regions in use of a memory object of `size`
/// bytes: none is empty, all lie within the object, and they follow each
/// other in ascending order without a byte in common.
pub open spec fn regions_valid(regions: Seq<Region>, size: DeviceSize) -> bool {
    &&& forall|i: int|
        0 <= i < regions.len() ==> (#[trigger] regions[i]).start < regions[i].end && regions[i].end
            <= size
    &&& forall|i: int, j: int|
        0 <= i < j < regions.len() ==> (#[trigger] regions[i]).end <= (#[trigger] regions[j]).start
}

/// The smallest multiple of `alignment` that is not below `offset`.
pub open spec fn align_up(offset: int, alignment: int) -> int {
    if offset % alignment == 0 {
        offset
    } else {
        offset + alignment - offset % alignment
    }
}

/// Where gap number `i` starts. Gap 0 lies before the first region, and gap
/// `i` behind region `i - 1`.
pub open spec fn gap_start(regions: Seq<Region>, i: int) -> int {
    if i == 0 {
        0
    } else {
        regions[i - 1].end as int
    }
}

/// Where gap number `i` ends: at the start of region `i`, or at the end of
/// the memory object for the gap behind the last region.
pub open spec fn gap_end(regions: Seq<Region>, block_size: DeviceSize, i: int) -> int {
    if i == regions.len() {
        block_size as int
    } else {
        regions[i].start as int
    }
}

/// The first offset in gap number `i` that has the given alignment.
pub open spec fn placement(regions: Seq<Region>, i: int, alignment: DeviceSize) -> int {
    align_up(gap_start(regions, i), alignment as int)
}

/// Whether `size` bytes at the given alignment fit into gap number `i`.
pub open spec fn gap_fits(
    regions: Seq<Region>,
    block_size: DeviceSize,
    i: int,
    size: DeviceSize,
    alignment: DeviceSize,
) -> bool {
    &&& 0 <= i <= regions.len()
    &&& placement(regions, i, alignment) + size <= gap_end(regions, block_size, i)
}

/// Whether gap number `i` is the first gap that `size` bytes at the given
/// alignment fit into.
pub open spec fn first_fit(
    regions: Seq<Region>,
    block_size: DeviceSize,
    i: int,
    size: DeviceSize,
    alignment: DeviceSize,
) -> bool {
    &&& gap_fits(regions, block_size, i, size, alignment)
    &&& forall|j: int| 0 <= j < i ==> !gap_fits(regions, block_size, j, size, alignment)
}

/// Whether the `size` bytes at `offset` are free in a memory object: they
/// lie within the object and have no byte in common with a region in use.
pub open spec fn is_free(
    regions: Seq<Region>,
    block_size: DeviceSize,
    offset: int,
    size: DeviceSize,
) -> bool {
    &&& 0 <= offset
    &&& offset + size <= block_size
    &&& forall|k: int| 0 <= k < regions.len() ==> !(#[trigger] regions[k]).overlaps(
        offset,
        size as int,
    )
}

/// Rounding up to an alignment gives a multiple of the alignment, and the
/// smallest one that is not below the offset.
pub proof fn lemma_align_up(offset: int, alignment: int, other: int)
    requires
        0 <= offset,
        0 < alignment,
    ensures
        align_up(offset, alignment) % alignment == 0,
        offset <= align_up(offset, alignment) < offset + alignment,
        offset <= other && other % alignment == 0 ==> align_up(offset, alignment) <= other,
{
    let rem = offset % alignment;
    let up = align_up(offset, alignment);
    assert(offset == alignment * (offset / alignment) + rem) by (nonlinear_arith)
        requires
            0 < alignment,
            rem == offset % alignment,
    ;
    if rem != 0 {
        let q = offset / alignment;
        assert(alignment * (q + 1) == alignment * q + alignment) by (nonlinear_arith);
        assert(up == alignment * (q + 1));
        assert((alignment * (q + 1)) % alignment == 0) by (nonlinear_arith)
            requires
                0 < alignment,
        ;
    }
    if offset <= other && other % alignment == 0 {
        assert(other == alignment * (other / alignment)) by (nonlinear_arith)
            requires
                0 < alignment,
                other % alignment == 0,
        ;
        assert(up == alignment * (up / alignment)) by (nonlinear_arith)
            requires
                0 < alignment,
                up % alignment == 0,
        ;
        if other < up {
            assert(other / alignment < up / alignment) by (nonlinear_arith)
                requires
                    0 < alignment,
                    other < up,
                    other == alignment * (other / alignment),
                    up == alignment * (up / alignment),
            ;
            assert(other + alignment <= up) by (nonlinear_arith)
                requires
                    0 < alignment,
                    other / alignment < up / alignment,
                    other == alignment * (other / alignment),
                    up == alignment * (up / alignment),
            ;
        }
    }
}

/// The place that the first fitting gap gives to an allocation is good: it
/// has the alignment, its bytes are free, and with the new region in its
/// place the regions are valid again.
pub proof fn lemma_first_fit_is_free(
    regions: Seq<Region>,
    block_size: DeviceSize,
    i: int,
    size: DeviceSize,
    alignment: DeviceSize,
)
    requires
        regions_valid(regions, block_size),
        size > 0,
        alignment > 0,
        gap_fits(regions, block_size, i, size, alignment),
    ensures
        placement(regions, i, alignment) % (alignment as int) == 0,
        is_free(regions, block_size, placement(regions, i, alignment), size),
        regions_valid(
            regions.insert(
                i,
                Region {
                    start: placement(regions, i, alignment) as DeviceSize,
                    end: (placement(regions, i, alignment) + size) as DeviceSize,
                },
            ),
            block_size,
        ),
{
    let at = placement(regions, i, alignment);
    lemma_align_up(gap_start(regions, i), alignment as int, 0);
    assert forall|k: int| 0 <= k < regions.len() implies !(#[trigger] regions[k]).overlaps(
        at,
        size as int,
    ) by {
        if k < i {
            if k < i - 1 {
                assert(regions[k].end <= regions[i - 1].start);
            }
        } else {
            if i < k {
                assert(regions[i].end <= regions[k].start);
            }
        }
    }
    let region = Region { start: at as DeviceSize, end: (at + size) as DeviceSize };
    let after = regions.insert(i, region);
    assert forall|a: int, b: int| 0 <= a < b < after.len() implies (#[trigger] after[a]).end <= (
    #[trigger] after[b]).start by {
        if a < i && b > i {
            assert(after[a] == regions[a]);
            assert(after[b] == regions[b - 1]);
            if a < b - 1 {
                assert(regions[a].end <= regions[b - 1].start);
            }
        } else if a == i {
            assert(after[b] == regions[b - 1]);
            if i < b - 1 {
                assert(regions[i].end <= regions[b - 1].start);
            }
        } else if b == i {
            assert(after[a] == regions[a]);
            if a < i - 1 {
                assert(regions[a].end <= regions[i - 1].start);
            }
        } else if b < i {
            assert(after[a] == regions[a] && after[b] == regions[b]);
        } else {
            assert(after[a] == regions[a - 1] && after[b] == regions[b - 1]);
        }
    }
    assert forall|k: int| 0 <= k < after.len() implies (#[trigger] after[k]).start < after[k].end
        && after[k].end <= block_size by {
        if k < i {
            assert(after[k] == regions[k]);
        } else if k > i {
            assert(after[k] == regions[k - 1]);
        }
    }
}

/// The search through the gaps is complete: where no gap fits, no place at
/// all is free for an allocation of that size and alignment.
pub proof fn lemma_no_gap_no_place(
    regions: Seq<Region>,
    block_size: DeviceSize,
    size: DeviceSize,
    alignment: DeviceSize,
    offset: int,
)
    requires
        regions_valid(regions, block_size),
        size > 0,
        alignment > 0,
        forall|i: int| 0 <= i <= regions.len() ==> !gap_fits(regions, block_size, i, size, alignment),
        offset % (alignment as int) == 0,
    ensures
        !is_free(regions, block_size, offset, size),
{
    if is_free(regions, block_size, offset, size) {
        let i = lemma_gap_around(regions, block_size, offset, size, regions.len() as int);
        lemma_align_up(gap_start(regions, i), alignment as int, offset);
        assert(gap_fits(regions, block_size, i, size, alignment));
    }
}

/// A free place lies in a gap: between the end of one region and the start
/// of the next.
proof fn lemma_gap_around(
    regions: Seq<Region>,
    block_size: DeviceSize,
    offset: int,
    size: DeviceSize,
    n: int,
) -> (i: int)
    requires
        regions_valid(regions, block_size),
        size > 0,
        is_free(regions, block_size, offset, size),
        0 <= n <= regions.len(),
        offset + size <= gap_end(regions, block_size, n),
    ensures
        0 <= i <= n,
        gap_start(regions, i) <= offset,
        offset + size <= gap_end(regions, block_size, i),
    decreases n,
{
    if n == 0 {
        0
    } else if regions[n - 1].end <= offset {
        n
    } else {
        assert(!regions[n - 1].overlaps(offset, size as int));
        lemma_gap_around(regions, block_size, offset, size, n - 1)
    }
}

/// What a block is at one moment: its memory object, and the regions of it
/// that are in use.
pub struct BlockState {
    pub memory: DeviceMemory,
    pub regions: Seq<Region>,
}

impl BlockState {
    /// Whether `size` bytes at the given alignment fit into some gap of the
    /// block.
    pub open spec fn has_room(self, size: DeviceSize, alignment: DeviceSize) -> bool {
        exists|i: int| #[trigger] gap_fits(self.regions, self.memory.size, i, size, alignment)
    }
}

/// One memory object of a pool, and the regions of it that are in use.
#[derive(Debug)]
pub struct MemoryBlock {
    memory: DeviceMemory,
    occupied: Vec<Region>,
}

impl MemoryBlock {
    /// Whether the block is in order: its regions are valid regions of its
    /// memory object.
    pub closed spec fn wf(&self) -> bool {
        regions_valid(self.occupied@, self.memory.size)
    }

    /// The memory object.
    pub closed spec fn spec_memory(&self) -> DeviceMemory {
        self.memory
    }

    /// The regions in use, in ascending order.
    pub closed spec fn view(&self) -> Seq<Region> {
        self.occupied@
    }

    /// The size of the memory object in bytes.
    pub open spec fn spec_size(&self) -> DeviceSize {
        self.spec_memory().size
    }

    /// The memory object of the block and its regions in use.
    pub open spec fn state(&self) -> BlockState {
        BlockState { memory: self.spec_memory(), regions: self@ }
    }

    /// Starts the sub-allocation of a memory object, of which nothing is in
    /// use yet.
    pub fn new(memory: DeviceMemory) -> (r: MemoryBlock)
        ensures
            r.wf(),
            r.spec_memory() == memory,
            r@ == Seq::<Region>::empty(),
    {
        MemoryBlock { memory, occupied: Vec::new() }
    }

    /// Returns the memory object.
    pub fn memory(&self) -> (r: &DeviceMemory)
        ensures
            *r == self.spec_memory(),
    {
        &self.memory
    }

    /// Returns the regions in use, in ascending order.
    pub fn occupied(&self) -> (r: &Vec<Region>)
        ensures
            r@ == self@,
    {
        &self.occupied
    }

    /// Looks for `size` bytes at the given alignment and marks them as in
    /// use.
    ///
    /// The bytes are taken from the first gap that they fit into, at the
    /// first offset of the gap that has the alignment. Returns the offset,
    /// or `None` if no gap fits: the block is then unchanged, and no place
    /// in it is free for such an allocation.
    pub fn allocate(&mut self, size: DeviceSize, alignment: DeviceSize) -> (r: Option<DeviceSize>)
        requires
            old(self).wf(),
            size > 0,
            alignment > 0,
        ensures
            final(self).wf(),
            final(self).spec_memory() == old(self).spec_memory(),
            match r {
                Some(offset) => exists|i: int|
                    {
                        &&& #[trigger] first_fit(old(self)@, old(self).spec_size(), i, size, alignment)
                        &&& offset == placement(old(self)@, i, alignment)
                        &&& final(self)@ == old(self)@.insert(
                            i,
                            Region { start: offset, end: (offset + size) as DeviceSize },
                        )
                    },
                None => {
                    &&& final(self)@ == old(self)@
                    &&& forall|i: int|
                        0 <= i <= old(self)@.len() ==> !#[trigger] gap_fits(
                            old(self)@,
                            old(self).spec_size(),
                            i,
                            size,
                            alignment,
                        )
                },
            },
            r matches Some(offset) ==> offset % alignment == 0 && is_free(
                old(self)@,
                old(self).spec_size(),
                offset as int,
                size,
            ),
    {
        let ghost before = self.occupied@;
        let block_size = self.memory.size;
        let mut i: usize = 0;
        while i <= self.occupied.len()
            invariant
                i <= self.occupied.len() + 1,
                self.occupied@ == before,
                before == old(self).occupied@,
                self.memory == old(self).memory,
                block_size == self.memory.size,
                regions_valid(before, block_size),
                size > 0,
                alignment > 0,
                forall|j: int| 0 <= j < i ==> !gap_fits(before, block_size, j, size, alignment),
            decreases self.occupied.len() + 1 - i,
        {
            let start: DeviceSize = if i == 0 {
                0
            } else {
                self.occupied[i - 1].end
            };
            let end: DeviceSize = if i == self.occupied.len() {
                block_size
            } else {
                self.occupied[i].start
            };
            let rem = start % alignment;
            let fitting = if rem == 0 {
                Some(start)
            } else {
                start.checked_add(alignment - rem)
            };
            assert(start == gap_start(before, i as int));
            assert(end == gap_end(before, block_size, i as int));
            proof {
                lemma_align_up(start as int, alignment as int, 0);
            }
            if let Some(offset) = fitting {
                assert(offset == placement(before, i as int, alignment));
                if let Some(last) = offset.checked_add(size) {
                    if last <= end {
                        proof {
                            lemma_first_fit_is_free(before, block_size, i as int, size, alignment);
                            assert(first_fit(before, block_size, i as int, size, alignment));
                        }
                        self.occupied.insert(i, Region { start: offset, end: last });
                        assert(first_fit(old(self)@, old(self).spec_size(), i as int, size, alignment)
                            && self@ == old(self)@.insert(
                            i as int,
                            Region { start: offset, end: (offset + size) as DeviceSize },
                        ));
                        return Some(offset);
                    }
                }
            }
            assert(!gap_fits(before, block_size, i as int, size, alignment));
            if i == self.occupied.len() {
                return None;
            }
            i += 1;
        }
        None
    }

    /// Gives the region that starts at `offset` back. Returns the region,
    /// or `None` if no region in use starts there: the block is then
    /// unchanged.
    pub fn free(&mut self, offset: DeviceSize) -> (r: Option<Region>)
        requires
            old(self).wf(),
        ensures
            final(self).wf(),
            final(self).spec_memory() == old(self).spec_memory(),
            match r {
                Some(region) => exists|i: int|
                    {
                        &&& 0 <= i < old(self)@.len()
                        &&& #[trigger] old(self)@[i] == region
                        &&& region.start == offset
                        &&& final(self)@ == old(self)@.remove(i)
                    },
                None => {
                    &&& final(self)@ == old(self)@
                    &&& forall|i: int|
                        0 <= i < old(self)@.len() ==> (#[trigger] old(self)@[i]).start != offset
                },
            },
    {
        let ghost before = self.occupied@;
        let mut i: usize = 0;
        while i < self.occupied.len()
            invariant
                i <= self.occupied.len(),
                self.occupied@ == before,
                before == old(self).occupied@,
                self.memory == old(self).memory,
                regions_valid(before, self.memory.size),
                forall|j: int| 0 <= j < i ==> (#[trigger] before[j]).start != offset,
            decreases self.occupied.len() - i,
        {
            if self.occupied[i].start == offset {
                let region = self.occupied.remove(i);
                proof {
                    lemma_remove_keeps_valid(before, self.memory.size, i as int);
                }
                assert(old(self)@[i as int] == region && self@ == old(self)@.remove(i as int));
                return Some(region);
            }
            i += 1;
        }
        None
    }
}

/// What is left of valid regions when one is given back is valid again.
pub proof fn lemma_remove_keeps_valid(regions: Seq<Region>, block_size: DeviceSize, i: int)
    requires
        regions_valid(regions, block_size),
        0 <= i < regions.len(),
    ensures
        regions_valid(regions.remove(i), block_size),
{
    let after = regions.remove(i);
    assert forall|k: int| 0 <= k < after.len() implies (#[trigger] after[k]).start < after[k].end
        && after[k].end <= block_size by {
        if k < i {
            assert(after[k] == regions[k]);
        } else {
            assert(after[k] == regions[k + 1]);
        }
    }
    assert forall|a: int, b: int| 0 <= a < b < after.len() implies (#[trigger] after[a]).end <= (
    #[trigger] after[b]).start by {
        let a0 = if a < i {
            a
        } else {
            a + 1
        };
        let b0 = if b < i {
            b
        } else {
            b + 1
        };
        assert(after[a] == regions[a0] && after[b] == regions[b0]);
        assert(regions[a0].end <= regions[b0].start);
    }
}

} // verus!
