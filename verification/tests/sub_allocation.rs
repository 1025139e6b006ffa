use vulkano::memory::pool::block::MemoryBlock;
use vulkano::memory::pool::block::Region;
use vulkano::memory::pool::type_pool::block_size_for;
use vulkano::memory::pool::type_pool::MemoryTypePool;
use vulkano::memory::pool::type_pool::MIN_BLOCK_SIZE;
use vulkano::memory::DeviceMemory;

fn memory(handle: u64, size: u64) -> DeviceMemory {
    DeviceMemory { handle, size, memory_type_index: 0 }
}

fn region(start: u64, end: u64) -> Region {
    Region { start, end }
}

#[test]
fn new_block_has_nothing_in_use() {
    let block = MemoryBlock::new(memory(1, 1024));
    assert!(block.occupied().is_empty());
    assert_eq!(block.memory().handle, 1);
    assert_eq!(block.memory().size, 1024);
}

#[test]
fn allocations_follow_each_other() {
    let mut block = MemoryBlock::new(memory(1, 1024));
    assert_eq!(block.allocate(100, 1), Some(0));
    assert_eq!(block.allocate(100, 1), Some(100));
    assert_eq!(block.allocate(24, 1), Some(200));
    assert_eq!(*block.occupied(), vec![region(0, 100), region(100, 200), region(200, 224)]);
}

#[test]
fn allocations_are_aligned() {
    let mut block = MemoryBlock::new(memory(1, 1024));
    assert_eq!(block.allocate(10, 64), Some(0));
    assert_eq!(block.allocate(10, 64), Some(64));
    assert_eq!(block.allocate(1, 256), Some(256));
    assert_eq!(block.allocate(1, 3), Some(12));
    assert_eq!(
        *block.occupied(),
        vec![region(0, 10), region(12, 13), region(64, 74), region(256, 257)]
    );
}

#[test]
fn block_that_is_full_takes_no_more() {
    let mut block = MemoryBlock::new(memory(1, 256));
    assert_eq!(block.allocate(256, 16), Some(0));
    assert_eq!(block.allocate(1, 1), None);
    assert_eq!(*block.occupied(), vec![region(0, 256)]);
    let mut block = MemoryBlock::new(memory(1, 256));
    assert_eq!(block.allocate(257, 1), None);
    assert!(block.occupied().is_empty());
    let mut block = MemoryBlock::new(memory(1, 256));
    assert_eq!(block.allocate(200, 1), Some(0));
    assert_eq!(block.allocate(8, 128), None);
    assert_eq!(block.allocate(56, 8), Some(200));
}

#[test]
fn freed_region_is_used_again() {
    let mut block = MemoryBlock::new(memory(1, 300));
    assert_eq!(block.allocate(100, 1), Some(0));
    assert_eq!(block.allocate(100, 1), Some(100));
    assert_eq!(block.allocate(100, 1), Some(200));
    assert_eq!(block.allocate(1, 1), None);
    assert_eq!(block.free(100), Some(region(100, 200)));
    assert_eq!(*block.occupied(), vec![region(0, 100), region(200, 300)]);
    assert_eq!(block.allocate(101, 1), None);
    assert_eq!(block.allocate(60, 1), Some(100));
    assert_eq!(block.allocate(40, 32), Some(160));
    assert_eq!(block.free(0), Some(region(0, 100)));
    assert_eq!(block.allocate(10, 1), Some(0));
    assert_eq!(
        *block.occupied(),
        vec![region(0, 10), region(100, 160), region(160, 200), region(200, 300)]
    );
}

#[test]
fn freeing_what_is_not_in_use_changes_nothing() {
    let mut block = MemoryBlock::new(memory(1, 300));
    assert_eq!(block.allocate(100, 1), Some(0));
    assert_eq!(block.free(50), None);
    assert_eq!(block.free(100), None);
    assert_eq!(*block.occupied(), vec![region(0, 100)]);
    assert_eq!(block.free(0), Some(region(0, 100)));
    assert_eq!(block.free(0), None);
    assert!(block.occupied().is_empty());
}

#[test]
fn sizes_near_the_largest_do_not_overflow() {
    let mut block = MemoryBlock::new(memory(1, u64::MAX));
    assert_eq!(block.allocate(u64::MAX - 1, 1), Some(0));
    assert_eq!(block.allocate(1, 1 << 63), None);
    assert_eq!(block.allocate(2, 1), None);
    assert_eq!(block.allocate(1, 1), Some(u64::MAX - 1));
}

#[test]
fn regions_in_use_never_overlap() {
    let mut block = MemoryBlock::new(memory(1, 4096));
    let mut offsets = Vec::new();
    for step in 0u64..40 {
        let size = 1 + (step * 37) % 200;
        let alignment = 1 << (step % 7);
        if let Some(offset) = block.allocate(size, alignment) {
            assert_eq!(offset % alignment, 0);
            assert!(offset + size <= 4096);
            offsets.push(offset);
        }
        if step % 3 == 2 {
            let victim = offsets.remove((step as usize * 7) % offsets.len());
            assert!(block.free(victim).is_some());
        }
        let occupied = block.occupied();
        for pair in occupied.windows(2) {
            assert!(pair[0].end <= pair[1].start);
        }
        for region in occupied.iter() {
            assert!(region.start < region.end && region.end <= 4096);
        }
        assert_eq!(occupied.len(), offsets.len());
    }
}

#[test]
fn block_size_doubles_from_eight_mebibytes() {
    assert_eq!(MIN_BLOCK_SIZE, 8 * 1024 * 1024);
    assert_eq!(block_size_for(1), MIN_BLOCK_SIZE);
    assert_eq!(block_size_for(MIN_BLOCK_SIZE), MIN_BLOCK_SIZE);
    assert_eq!(block_size_for(MIN_BLOCK_SIZE + 1), 2 * MIN_BLOCK_SIZE);
    assert_eq!(block_size_for(100 * 1024 * 1024), 128 * 1024 * 1024);
    assert_eq!(block_size_for(1 << 63), 1 << 63);
    assert_eq!(block_size_for((1 << 63) + 1), (1 << 63) + 1);
    assert_eq!(block_size_for(u64::MAX), u64::MAX);
    assert_eq!(block_size_for(0), MIN_BLOCK_SIZE);
}

#[test]
fn pool_serves_from_the_first_block_with_room() {
    let mut pool = MemoryTypePool::new();
    assert_eq!(pool.allocate(10, 1), None);
    assert_eq!(pool.add_block(memory(1, 100)), 0);
    assert_eq!(pool.add_block(memory(2, 1000)), 1);
    assert_eq!(pool.allocate(60, 1), Some((0, 0)));
    assert_eq!(pool.allocate(60, 1), Some((1, 0)));
    assert_eq!(pool.allocate(40, 1), Some((0, 60)));
    assert_eq!(pool.allocate(40, 64), Some((1, 64)));
    assert_eq!(pool.allocate(2000, 1), None);
    assert_eq!(pool.blocks().len(), 2);
    assert_eq!(*pool.blocks()[0].occupied(), vec![region(0, 60), region(60, 100)]);
    assert_eq!(*pool.blocks()[1].occupied(), vec![region(0, 60), region(64, 104)]);
    assert_eq!(pool.blocks()[1].memory().handle, 2);
}

#[test]
fn pool_grows_by_the_block_that_it_asks_for() {
    let mut pool = MemoryTypePool::new();
    let size = 9 * 1024 * 1024;
    assert_eq!(pool.allocate(size, 256), None);
    let index = pool.add_block(memory(1, block_size_for(size)));
    assert_eq!(pool.allocate(size, 256), Some((index, 0)));
    assert_eq!(pool.allocate(size, 256), None);
    assert_eq!(pool.allocate(7 * 1024 * 1024, 256), Some((index, size)));
}

#[test]
fn pool_takes_regions_back() {
    let mut pool = MemoryTypePool::new();
    pool.add_block(memory(1, 100));
    pool.add_block(memory(2, 100));
    assert_eq!(pool.allocate(100, 1), Some((0, 0)));
    assert_eq!(pool.allocate(100, 1), Some((1, 0)));
    assert_eq!(pool.free(2, 0), None);
    assert_eq!(pool.free(1, 50), None);
    assert_eq!(pool.free(0, 0), Some(region(0, 100)));
    assert!(pool.blocks()[0].occupied().is_empty());
    assert_eq!(*pool.blocks()[1].occupied(), vec![region(0, 100)]);
    assert_eq!(pool.allocate(30, 1), Some((0, 0)));
}
