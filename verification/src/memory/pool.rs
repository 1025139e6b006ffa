//! The policy by which memory is chosen for a resource.

use crate::device::memory_types_valid;
use crate::device::Device;
use crate::device::MemoryType;
use crate::memory::DedicatedAlloc;
use crate::memory::DeviceMemory;
use crate::memory::DeviceMemoryAllocError;
use crate::memory::MappedDeviceMemory;
use crate::memory::MemoryRequirements;
use crate::DeviceSize;
use vstd::prelude::*;

pub mod block;
pub mod std_pool;
pub mod type_pool;

verus! {

/// If the allocation size goes beyond this, then we perform a dedicated
/// allocation which bypasses the pool. This prevents the pool from
/// overallocating a significant amount of memory.
pub const MAX_POOL_ALLOC: DeviceSize = 256 * 1024 * 1024;

/// What a caller's filter says of one memory type.
#[derive(Debug, Copy, Clone, PartialEq, Eq, Structural)]
pub enum AllocFromRequirementsFilter {
    Preferred,
    Allowed,
    Forbidden,
}

/// Whether an allocation should map the memory or not.
#[derive(Debug, Copy, Clone, PartialEq, Eq, Hash, Structural)]
pub enum MappingRequirement {
    /// Should map.
    DoMap,
    /// Shouldn't map.
    DoNotMap,
}

/// Layout of the object being allocated.
#[derive(Debug, Copy, Clone, PartialEq, Eq, Hash, Structural)]
pub enum AllocLayout {
    /// The object has a linear layout.
    Linear,
    /// The object has an optimal layout.
    Optimal,
}

/// Whether the bit of memory type `id` is set in `bits`.
pub open spec fn memory_type_bit_set(bits: u32, id: u32) -> bool {
    bits & (1u32 << id) != 0
}

/// Whether the caller's filter is asked about `ty` at all: the bit of the
/// type is set, and the type is host-visible if the memory is to be mapped.
pub open spec fn consulted(ty: MemoryType, bits: u32, map: MappingRequirement) -> bool {
    &&& memory_type_bit_set(bits, ty.id)
    &&& map == MappingRequirement::DoMap ==> ty.host_visible
}

/// Whether type number `i` is a candidate of class `wanted`: the filter is
/// asked about it and answers `wanted`.
pub open spec fn candidate(
    types: Seq<MemoryType>,
    bits: u32,
    map: MappingRequirement,
    classes: Seq<AllocFromRequirementsFilter>,
    wanted: AllocFromRequirementsFilter,
    i: int,
) -> bool {
    &&& 0 <= i < types.len()
    &&& consulted(types[i], bits, map)
    &&& classes[i] == wanted
}

/// Whether type number `i` is the candidate of class `wanted` with the
/// smallest identifier.
pub open spec fn first_candidate(
    types: Seq<MemoryType>,
    bits: u32,
    map: MappingRequirement,
    classes: Seq<AllocFromRequirementsFilter>,
    wanted: AllocFromRequirementsFilter,
    i: int,
) -> bool {
    &&& candidate(types, bits, map, classes, wanted, i)
    &&& forall|j: int| 0 <= j < i ==> !candidate(types, bits, map, classes, wanted, j)
}

/// Whether some type is a candidate of class `wanted`.
pub open spec fn has_candidate(
    types: Seq<MemoryType>,
    bits: u32,
    map: MappingRequirement,
    classes: Seq<AllocFromRequirementsFilter>,
    wanted: AllocFromRequirementsFilter,
) -> bool {
    exists|j: int| candidate(types, bits, map, classes, wanted, j)
}

/// Whether type number `i` is the one to allocate from: the first preferred
/// candidate, or the first allowed one where nothing is preferred.
pub open spec fn selects(
    types: Seq<MemoryType>,
    bits: u32,
    map: MappingRequirement,
    classes: Seq<AllocFromRequirementsFilter>,
    i: int,
) -> bool {
    let preferred = AllocFromRequirementsFilter::Preferred;
    let allowed = AllocFromRequirementsFilter::Allowed;
    ||| first_candidate(types, bits, map, classes, preferred, i)
    ||| (!has_candidate(types, bits, map, classes, preferred) && first_candidate(
        types,
        bits,
        map,
        classes,
        allowed,
        i,
    ))
}

/// There is at most one memory type to allocate from: what the filter says
/// of the types decides the choice.
pub proof fn lemma_selection_is_unique(
    types: Seq<MemoryType>,
    bits: u32,
    map: MappingRequirement,
    classes: Seq<AllocFromRequirementsFilter>,
    i: int,
    j: int,
)
    requires
        selects(types, bits, map, classes, i),
        selects(types, bits, map, classes, j),
    ensures
        i == j,
{
    let preferred = AllocFromRequirementsFilter::Preferred;
    let allowed = AllocFromRequirementsFilter::Allowed;
    if first_candidate(types, bits, map, classes, preferred, i) {
        assert(candidate(types, bits, map, classes, preferred, i));
        assert(first_candidate(types, bits, map, classes, preferred, j));
    } else {
        assert(first_candidate(types, bits, map, classes, allowed, i));
        if first_candidate(types, bits, map, classes, preferred, j) {
            assert(candidate(types, bits, map, classes, preferred, j));
        }
    }
    if i < j {
        assert(candidate(types, bits, map, classes, classes[i], i));
    } else if j < i {
        assert(candidate(types, bits, map, classes, classes[j], j));
    }
}

/// Whether there is a type to allocate from at all.
pub open spec fn selectable(
    types: Seq<MemoryType>,
    bits: u32,
    map: MappingRequirement,
    classes: Seq<AllocFromRequirementsFilter>,
) -> bool {
    ||| has_candidate(types, bits, map, classes, AllocFromRequirementsFilter::Preferred)
    ||| has_candidate(types, bits, map, classes, AllocFromRequirementsFilter::Allowed)
}

/// Tells whether the bit of memory type `id` is set in `bits`.
fn type_bit_set(bits: u32, id: u32) -> (r: bool)
    requires
        id < 32,
    ensures
        r == memory_type_bit_set(bits, id),
{
    bits & (1u32 << id) != 0
}

/// Looks for the candidate of class `wanted` with the smallest identifier.
fn find_first_candidate(
    types: &Vec<MemoryType>,
    bits: u32,
    map: MappingRequirement,
    classes: &Vec<AllocFromRequirementsFilter>,
    wanted: AllocFromRequirementsFilter,
) -> (r: Option<usize>)
    requires
        memory_types_valid(types@),
        classes@.len() == types@.len(),
    ensures
        r matches Some(i) ==> first_candidate(types@, bits, map, classes@, wanted, i as int),
        r is None ==> !has_candidate(types@, bits, map, classes@, wanted),
{
    let mut i: usize = 0;
    while i < types.len()
        invariant
            i <= types.len(),
            memory_types_valid(types@),
            classes@.len() == types@.len(),
            forall|j: int| 0 <= j < i ==> !candidate(types@, bits, map, classes@, wanted, j),
        decreases types.len() - i,
    {
        let ty = types[i];
        let host_ok = match map {
            MappingRequirement::DoMap => ty.host_visible,
            MappingRequirement::DoNotMap => true,
        };
        if type_bit_set(bits, ty.id) && host_ok && classes[i] == wanted {
            return Some(i);
        }
        i += 1;
    }
    None
}

/// Picks the memory type to allocate from, given what the filter says of
/// each type of the device: `classes` holds one answer per memory type, in
/// the order of the device's list.
///
/// Returns the first type that is preferred, or else the first one that is
/// allowed, among the types whose bit is set in the requirements and which
/// are host-visible if the memory is to be mapped. Returns `None` if there
/// is no such type, or if `classes` is not as long as the device's list.
pub fn select_memory_type(
    device: &Device,
    requirements: &MemoryRequirements,
    classes: &Vec<AllocFromRequirementsFilter>,
    map: MappingRequirement,
) -> (r: Option<MemoryType>)
    ensures
        r is Some <==> classes@.len() == device.spec_memory_types().len() && selectable(
            device.spec_memory_types(),
            requirements.memory_type_bits,
            map,
            classes@,
        ),
        r matches Some(ty) ==> {
            &&& 0 <= ty.id < device.spec_memory_types().len()
            &&& device.spec_memory_types()[ty.id as int] == ty
            &&& selects(
                device.spec_memory_types(),
                requirements.memory_type_bits,
                map,
                classes@,
                ty.id as int,
            )
        },
{
    let types = device.memory_types();
    if classes.len() != types.len() {
        return None;
    }
    let bits = requirements.memory_type_bits;
    match find_first_candidate(types, bits, map, classes, AllocFromRequirementsFilter::Preferred) {
        Some(i) => Some(types[i]),
        None => match find_first_candidate(
            types,
            bits,
            map,
            classes,
            AllocFromRequirementsFilter::Allowed,
        ) {
            Some(i) => Some(types[i]),
            None => None,
        },
    }
}

/// Whether `classes` can be what `filter` says of the memory types: one
/// answer for each type that it is asked about, and `Forbidden` for the
/// types that it is not asked about.
pub open spec fn filter_answers<F: Fn(MemoryType) -> AllocFromRequirementsFilter>(
    filter: F,
    types: Seq<MemoryType>,
    bits: u32,
    map: MappingRequirement,
    classes: Seq<AllocFromRequirementsFilter>,
) -> bool {
    &&& classes.len() == types.len()
    &&& forall|i: int|
        0 <= i < types.len() ==> if consulted(types[i], bits, map) {
            call_ensures(filter, (types[i],), #[trigger] classes[i])
        } else {
            classes[i] == AllocFromRequirementsFilter::Forbidden
        }
}

/// Whether `filter` can be asked about every memory type that it is
/// consulted on, and leaves a type to allocate from whatever it answers.
pub open spec fn filter_leaves_choice<F: Fn(MemoryType) -> AllocFromRequirementsFilter>(
    filter: F,
    types: Seq<MemoryType>,
    bits: u32,
    map: MappingRequirement,
) -> bool {
    &&& forall|i: int|
        0 <= i < types.len() && consulted(#[trigger] types[i], bits, map) ==> call_requires(
            filter,
            (types[i],),
        )
    &&& forall|classes: Seq<AllocFromRequirementsFilter>|
        #[trigger] filter_answers(filter, types, bits, map, classes) ==> selectable(
            types,
            bits,
            map,
            classes,
        )
}

/// Asks `filter` about each memory type whose bit is set in `bits` and
/// which is host-visible if the memory is to be mapped, once and in the
/// order of the types. Returns one answer for each type, with `Forbidden`
/// for the types that the filter has no say on.
pub fn classify_memory_types<F>(
    types: &Vec<MemoryType>,
    bits: u32,
    filter: &F,
    map: MappingRequirement,
) -> (classes: Vec<AllocFromRequirementsFilter>) where
    F: Fn(MemoryType) -> AllocFromRequirementsFilter,

    requires
        memory_types_valid(types@),
        forall|i: int|
            0 <= i < types@.len() && consulted(#[trigger] types@[i], bits, map) ==> call_requires(
                *filter,
                (types@[i],),
            ),
    ensures
        filter_answers(*filter, types@, bits, map, classes@),
{
    let mut classes: Vec<AllocFromRequirementsFilter> = Vec::new();
    let mut i: usize = 0;
    while i < types.len()
        invariant
            i <= types.len(),
            classes@.len() == i,
            memory_types_valid(types@),
            forall|j: int|
                0 <= j < types@.len() && consulted(#[trigger] types@[j], bits, map)
                    ==> call_requires(*filter, (types@[j],)),
            forall|j: int|
                0 <= j < i ==> if consulted(types@[j], bits, map) {
                    call_ensures(*filter, (types@[j],), #[trigger] classes@[j])
                } else {
                    classes@[j] == AllocFromRequirementsFilter::Forbidden
                },
        decreases types.len() - i,
    {
        let ty = types[i];
        let host_ok = match map {
            MappingRequirement::DoMap => ty.host_visible,
            MappingRequirement::DoNotMap => true,
        };
        let class = if type_bit_set(bits, ty.id) && host_ok {
            filter(ty)
        } else {
            AllocFromRequirementsFilter::Forbidden
        };
        classes.push(class);
        i += 1;
    }
    classes
}

/// Chooses the memory type to allocate from.
///
/// Only the types whose bit is set in `requirements.memory_type_bits` are
/// considered, and only the host-visible ones if `map` asks for mapped
/// memory. Among them the first type that `filter` prefers is chosen, or
/// else the first that it allows. `filter` must leave at least one type.
pub fn choose_allocation_memory_type<F>(
    device: &Device,
    requirements: &MemoryRequirements,
    filter: F,
    map: MappingRequirement,
) -> (ty: MemoryType) where F: Fn(MemoryType) -> AllocFromRequirementsFilter
    requires
        filter_leaves_choice(
            filter,
            device.spec_memory_types(),
            requirements.memory_type_bits,
            map,
        ),
    ensures
        0 <= ty.id < device.spec_memory_types().len(),
        device.spec_memory_types()[ty.id as int] == ty,
        memory_type_bit_set(requirements.memory_type_bits, ty.id),
        map == MappingRequirement::DoMap ==> ty.host_visible,
        exists|classes: Seq<AllocFromRequirementsFilter>|
            {
                &&& #[trigger] filter_answers(
                    filter,
                    device.spec_memory_types(),
                    requirements.memory_type_bits,
                    map,
                    classes,
                )
                &&& selects(
                    device.spec_memory_types(),
                    requirements.memory_type_bits,
                    map,
                    classes,
                    ty.id as int,
                )
            },
{
    let classes = classify_memory_types(
        device.memory_types(),
        requirements.memory_type_bits,
        &filter,
        map,
    );
    select_memory_type(device, requirements, &classes, map).expect(
        "Couldn't find a memory type to allocate from",
    )
}

/// Whether a request bypasses the pool and gets a memory object of its own:
/// the request is larger than `MAX_POOL_ALLOC`, or the resource prefers a
/// memory object of its own and the caller has named the resource that the
/// memory would be dedicated to.
pub open spec fn bypasses_pool(requirements: MemoryRequirements, dedicated: DedicatedAlloc) -> bool {
    ||| requirements.size > MAX_POOL_ALLOC
    ||| requirements.prefer_dedicated && !(dedicated is Generic)
}

/// Tells whether a request bypasses the pool.
pub fn dedicated_allocation_wanted(requirements: &MemoryRequirements, dedicated: DedicatedAlloc) -> (r:
    bool)
    ensures
        r == bypasses_pool(*requirements, dedicated),
{
    if requirements.size > MAX_POOL_ALLOC {
        return true;
    }
    if !requirements.prefer_dedicated {
        return false;
    }
    match dedicated {
        DedicatedAlloc::Generic => false,
        _ => true,
    }
}

/// Object that represents a single allocation. Its destructor should free
/// the chunk.
pub trait MemoryPoolAlloc {
    /// Returns the memory object from which this is allocated. Returns
    /// `None` if the memory is not mapped.
    fn mapped_memory(&self) -> Option<&MappedDeviceMemory>;

    /// Returns the memory object from which this is allocated.
    fn memory(&self) -> &DeviceMemory;

    /// Returns the offset at the start of the memory where the first byte
    /// of this allocation resides.
    fn offset(&self) -> DeviceSize;
}

/// Enumeration that can contain either a generic allocation coming from a
/// pool, or a dedicated allocation for one specific resource.
#[derive(Debug)]
pub enum PotentialDedicatedAllocation<A> {
    Generic(A),
    Dedicated(DeviceMemory),
    DedicatedMapped(MappedDeviceMemory),
}

impl<A> MemoryPoolAlloc for PotentialDedicatedAllocation<A> where A: MemoryPoolAlloc {
    /// What the pool's allocation says of itself, no memory for a dedicated
    /// allocation that is not mapped, and the mapped memory object itself
    /// for one that is.
    #[inline]
    fn mapped_memory(&self) -> (r: Option<&MappedDeviceMemory>)
        ensures
            match *self {
                PotentialDedicatedAllocation::Generic(alloc) => call_ensures(
                    A::mapped_memory,
                    (&alloc,),
                    r,
                ),
                PotentialDedicatedAllocation::Dedicated(_) => r is None,
                PotentialDedicatedAllocation::DedicatedMapped(mem) => r == Some(&mem),
            },
    {
        match *self {
            PotentialDedicatedAllocation::Generic(ref alloc) => alloc.mapped_memory(),
            PotentialDedicatedAllocation::Dedicated(_) => None,
            PotentialDedicatedAllocation::DedicatedMapped(ref mem) => Some(mem),
        }
    }

    /// What the pool's allocation says of itself, and the memory object
    /// itself for a dedicated allocation.
    #[inline]
    fn memory(&self) -> (r: &DeviceMemory)
        ensures
            match *self {
                PotentialDedicatedAllocation::Generic(alloc) => call_ensures(
                    A::memory,
                    (&alloc,),
                    r,
                ),
                PotentialDedicatedAllocation::Dedicated(mem) => *r == mem,
                PotentialDedicatedAllocation::DedicatedMapped(mem) => *r == mem.memory,
            },
    {
        match *self {
            PotentialDedicatedAllocation::Generic(ref alloc) => alloc.memory(),
            PotentialDedicatedAllocation::Dedicated(ref mem) => mem,
            PotentialDedicatedAllocation::DedicatedMapped(ref mem) => mem.as_ref(),
        }
    }

    /// What the pool's allocation says of itself, and zero for a dedicated
    /// allocation, which starts at the first byte of its memory object.
    #[inline]
    fn offset(&self) -> (r: DeviceSize)
        ensures
            match *self {
                PotentialDedicatedAllocation::Generic(alloc) => call_ensures(
                    A::offset,
                    (&alloc,),
                    r,
                ),
                PotentialDedicatedAllocation::Dedicated(_) => r == 0,
                PotentialDedicatedAllocation::DedicatedMapped(_) => r == 0,
            },
    {
        match *self {
            PotentialDedicatedAllocation::Generic(ref alloc) => alloc.offset(),
            PotentialDedicatedAllocation::Dedicated(_) => 0,
            PotentialDedicatedAllocation::DedicatedMapped(_) => 0,
        }
    }
}

/// What the pool returned for a generic allocation, as the allocator hands
/// it on.
pub open spec fn wrap_generic<A>(outcome: Result<A, DeviceMemoryAllocError>) -> Result<
    PotentialDedicatedAllocation<A>,
    DeviceMemoryAllocError,
> {
    match outcome {
        Ok(alloc) => Ok(PotentialDedicatedAllocation::Generic(alloc)),
        Err(err) => Err(err),
    }
}

/// What the device returned for a dedicated allocation, as the allocator
/// hands it on.
pub open spec fn wrap_dedicated<A>(outcome: Result<DeviceMemory, DeviceMemoryAllocError>) -> Result<
    PotentialDedicatedAllocation<A>,
    DeviceMemoryAllocError,
> {
    match outcome {
        Ok(mem) => Ok(PotentialDedicatedAllocation::Dedicated(mem)),
        Err(err) => Err(err),
    }
}

/// What the device returned for a dedicated allocation that it was asked
/// to map, as the allocator hands it on.
pub open spec fn wrap_dedicated_mapped<A>(
    outcome: Result<MappedDeviceMemory, DeviceMemoryAllocError>,
) -> Result<PotentialDedicatedAllocation<A>, DeviceMemoryAllocError> {
    match outcome {
        Ok(mem) => Ok(PotentialDedicatedAllocation::DedicatedMapped(mem)),
        Err(err) => Err(err),
    }
}

impl<A> PotentialDedicatedAllocation<A> {
    /// Wraps what the pool returned for a generic allocation.
    pub fn from_generic(outcome: Result<A, DeviceMemoryAllocError>) -> (r: Result<
        PotentialDedicatedAllocation<A>,
        DeviceMemoryAllocError,
    >)
        ensures
            r == wrap_generic(outcome),
    {
        match outcome {
            Ok(alloc) => Ok(PotentialDedicatedAllocation::Generic(alloc)),
            Err(err) => Err(err),
        }
    }

    /// Wraps what the device returned for a dedicated allocation.
    pub fn from_dedicated(outcome: Result<DeviceMemory, DeviceMemoryAllocError>) -> (r: Result<
        PotentialDedicatedAllocation<A>,
        DeviceMemoryAllocError,
    >)
        ensures
            r == wrap_dedicated::<A>(outcome),
    {
        match outcome {
            Ok(mem) => Ok(PotentialDedicatedAllocation::Dedicated(mem)),
            Err(err) => Err(err),
        }
    }

    /// Wraps what the device returned for a dedicated allocation that it
    /// was asked to map.
    pub fn from_dedicated_mapped(outcome: Result<MappedDeviceMemory, DeviceMemoryAllocError>) -> (r:
        Result<PotentialDedicatedAllocation<A>, DeviceMemoryAllocError>)
        ensures
            r == wrap_dedicated_mapped::<A>(outcome),
    {
        match outcome {
            Ok(mem) => Ok(PotentialDedicatedAllocation::DedicatedMapped(mem)),
            Err(err) => Err(err),
        }
    }
}

/// Whether `ty` is the memory type that a request to `pool` is served from:
/// the one that is chosen among the types of the pool's device, for some
/// answers that `filter` can give.
pub open spec fn pool_chooses<P: MemoryPool, F: Fn(MemoryType) -> AllocFromRequirementsFilter>(
    pool: &P,
    bits: u32,
    map: MappingRequirement,
    filter: F,
    ty: MemoryType,
) -> bool {
    exists|device: &Device, classes: Seq<AllocFromRequirementsFilter>|
        {
            &&& #[trigger] call_ensures(P::device, (pool,), device)
            &&& #[trigger] filter_answers(filter, device.spec_memory_types(), bits, map, classes)
            &&& selects(device.spec_memory_types(), bits, map, classes, ty.id as int)
            &&& device.spec_memory_types()[ty.id as int] == ty
        }
}

/// The type that is chosen among the types of a pool's device is the type
/// that the pool serves the request from.
proof fn lemma_pool_chooses<P: MemoryPool, F: Fn(MemoryType) -> AllocFromRequirementsFilter>(
    pool: &P,
    device: &Device,
    bits: u32,
    map: MappingRequirement,
    filter: F,
    ty: MemoryType,
)
    requires
        call_ensures(P::device, (pool,), device),
        device.spec_memory_types()[ty.id as int] == ty,
        exists|classes: Seq<AllocFromRequirementsFilter>|
            {
                &&& #[trigger] filter_answers(filter, device.spec_memory_types(), bits, map, classes)
                &&& selects(device.spec_memory_types(), bits, map, classes, ty.id as int)
            },
    ensures
        pool_chooses(pool, bits, map, filter, ty),
{
    let classes = choose|classes: Seq<AllocFromRequirementsFilter>|
        {
            &&& #[trigger] filter_answers(filter, device.spec_memory_types(), bits, map, classes)
            &&& selects(device.spec_memory_types(), bits, map, classes, ty.id as int)
        };
    assert(call_ensures(P::device, (pool,), device) && filter_answers(
        filter,
        device.spec_memory_types(),
        bits,
        map,
        classes,
    ));
}

/// Whether `r` is what a pool hands out for a request that is served from
/// memory type `ty`: what `alloc_generic` returned where the request stays in
/// the pool, and what `dedicated_alloc` or `dedicated_alloc_and_map`
/// returned where it bypasses the pool, each wrapped in its own variant.
pub open spec fn pool_serves<P: MemoryPool>(
    pool: &P,
    ty: MemoryType,
    requirements: MemoryRequirements,
    layout: AllocLayout,
    map: MappingRequirement,
    dedicated: DedicatedAlloc,
    r: Result<PotentialDedicatedAllocation<P::Alloc>, DeviceMemoryAllocError>,
) -> bool {
    if !bypasses_pool(requirements, dedicated) {
        exists|outcome: Result<P::Alloc, DeviceMemoryAllocError>|
            {
                &&& #[trigger] call_ensures(
                    P::alloc_generic,
                    (pool, ty, requirements.size, requirements.alignment, layout, map),
                    outcome,
                )
                &&& r == wrap_generic(outcome)
            }
    } else {
        pool_serves_dedicated(pool, ty, requirements.size, map, dedicated, false, r)
    }
}

/// Whether `r` is what the device of a pool returned for a memory object of
/// `size` bytes of type `ty`, mapped or not as `map` says, wrapped in the
/// variant of that kind.
pub open spec fn pool_serves_dedicated<P: MemoryPool>(
    pool: &P,
    ty: MemoryType,
    size: DeviceSize,
    map: MappingRequirement,
    dedicated: DedicatedAlloc,
    export_fd: bool,
    r: Result<PotentialDedicatedAllocation<P::Alloc>, DeviceMemoryAllocError>,
) -> bool {
    match map {
        MappingRequirement::DoMap => exists|outcome: Result<MappedDeviceMemory, DeviceMemoryAllocError>|
            {
                &&& #[trigger] call_ensures(
                    P::dedicated_alloc_and_map,
                    (pool, ty, size, dedicated, export_fd),
                    outcome,
                )
                &&& r == wrap_dedicated_mapped::<P::Alloc>(outcome)
            },
        MappingRequirement::DoNotMap => exists|outcome: Result<DeviceMemory, DeviceMemoryAllocError>|
            {
                &&& #[trigger] call_ensures(
                    P::dedicated_alloc,
                    (pool, ty, size, dedicated, export_fd),
                    outcome,
                )
                &&& r == wrap_dedicated::<P::Alloc>(outcome)
            },
    }
}

/// Pool of device-visible memory that can be allocated from.
///
/// The pool belongs to a device, and reaches the memory of that device
/// through the three allocation methods, which the implementor provides.
/// Memory that they return must not be bound to a resource without the
/// synchronization that the device asks for.
pub trait MemoryPool {
    /// Object that represents a single allocation. Its destructor should
    /// free the chunk.
    type Alloc: MemoryPoolAlloc;

    /// Returns the device that the pool belongs to.
    fn device(&self) -> &Device;

    /// Allocates memory from the pool.
    ///
    /// The returned object must match the requirements. When a linear
    /// object is allocated next to an optimal object, the boundary must be
    /// aligned to the buffer-image granularity of the device.
    ///
    /// `ty` must be a memory type of the pool's device, and a host-visible
    /// one if `map` asks for mapped memory. `size` and `alignment` must not
    /// be zero.
    fn alloc_generic(
        &self,
        ty: MemoryType,
        size: DeviceSize,
        alignment: DeviceSize,
        layout: AllocLayout,
        map: MappingRequirement,
    ) -> (r: Result<Self::Alloc, DeviceMemoryAllocError>)
        requires
            map == MappingRequirement::DoMap ==> ty.host_visible,
            size > 0,
            alignment > 0,
    ;

    /// Allocates a memory object of its own for one resource, without
    /// mapping it. With `export_fd` the object can be exported as a posix
    /// file descriptor.
    ///
    /// `ty` must be a memory type of the pool's device, and `size` must not
    /// be zero.
    fn dedicated_alloc(
        &self,
        ty: MemoryType,
        size: DeviceSize,
        dedicated: DedicatedAlloc,
        export_fd: bool,
    ) -> (r: Result<DeviceMemory, DeviceMemoryAllocError>)
        requires
            size > 0,
    ;

    /// Allocates a memory object of its own for one resource and maps it.
    /// With `export_fd` the object can be exported as a posix file
    /// descriptor.
    ///
    /// `ty` must be a host-visible memory type of the pool's device, and
    /// `size` must not be zero.
    fn dedicated_alloc_and_map(
        &self,
        ty: MemoryType,
        size: DeviceSize,
        dedicated: DedicatedAlloc,
        export_fd: bool,
    ) -> (r: Result<MappedDeviceMemory, DeviceMemoryAllocError>)
        requires
            ty.host_visible,
            size > 0,
    ;
}

/// Chooses a memory type and allocates memory from it.
///
/// Contrary to `alloc_generic`, this function may allocate a whole new
/// block of memory for the resource, based on
/// `requirements.prefer_dedicated` and on the size of the request: a
/// request of more than `MAX_POOL_ALLOC` bytes never comes from the pool,
/// and a smaller one does unless the resource prefers memory of its own and
/// `dedicated` names the resource.
///
/// `filter` can be used to restrict the memory types and to indicate
/// which are preferred. If `map` is `MappingRequirement::DoMap`, then
/// non-host-visible memory types will automatically be filtered out.
/// `filter` must leave at least one memory type, and the size and the
/// alignment of the request must not be zero.
pub fn alloc_from_requirements<P, F>(
    pool: &P,
    requirements: &MemoryRequirements,
    layout: AllocLayout,
    map: MappingRequirement,
    dedicated: DedicatedAlloc,
    filter: F,
) -> (r: Result<PotentialDedicatedAllocation<P::Alloc>, DeviceMemoryAllocError>) where
    P: MemoryPool,
    F: Fn(MemoryType) -> AllocFromRequirementsFilter,

    requires
        requirements.size > 0,
        requirements.alignment > 0,
        forall|device: &Device| #[trigger]
            call_ensures(P::device, (pool,), device) ==> filter_leaves_choice(
                filter,
                device.spec_memory_types(),
                requirements.memory_type_bits,
                map,
            ),
    ensures
        exists|ty: MemoryType|
            {
                &&& #[trigger] pool_chooses(pool, requirements.memory_type_bits, map, filter, ty)
                &&& pool_serves(pool, ty, *requirements, layout, map, dedicated, r)
            },
        r matches Ok(alloc) ==> {
            &&& alloc is Generic <==> !bypasses_pool(*requirements, dedicated)
            &&& alloc is DedicatedMapped <==> bypasses_pool(*requirements, dedicated) && map
                == MappingRequirement::DoMap
            &&& alloc is Dedicated <==> bypasses_pool(*requirements, dedicated) && map
                == MappingRequirement::DoNotMap
        },
        requirements.size > MAX_POOL_ALLOC ==> (r matches Ok(alloc) ==> alloc is Dedicated || alloc
            is DedicatedMapped),
        requirements.size <= MAX_POOL_ALLOC && !requirements.prefer_dedicated ==> (r matches Ok(
            alloc,
        ) ==> alloc is Generic),
{
    // Choose a suitable memory type.
    let device = pool.device();
    let mem_ty = choose_allocation_memory_type(device, requirements, filter, map);
    proof {
        lemma_pool_chooses(pool, device, requirements.memory_type_bits, map, filter, mem_ty);
    }

    // Redirect to `pool.alloc_generic` if we don't perform a dedicated allocation.
    if !dedicated_allocation_wanted(requirements, dedicated) {
        let outcome = pool.alloc_generic(
            mem_ty,
            requirements.size,
            requirements.alignment,
            layout,
            map,
        );
        return PotentialDedicatedAllocation::from_generic(outcome);
    }
    // If we reach here, then we perform a dedicated alloc.

    match map {
        MappingRequirement::DoMap => {
            let outcome = pool.dedicated_alloc_and_map(
                mem_ty,
                requirements.size,
                dedicated,
                false,
            );
            PotentialDedicatedAllocation::from_dedicated_mapped(outcome)
        },
        MappingRequirement::DoNotMap => {
            let outcome = pool.dedicated_alloc(mem_ty, requirements.size, dedicated, false);
            PotentialDedicatedAllocation::from_dedicated(outcome)
        },
    }
}

/// Allocates dedicated memory that can be exported as a posix file
/// descriptor. Memory from a pool always exports the same descriptor, so a
/// memory object of its own is made whatever the size of the request.
///
/// The device of `pool` must have been created with the extensions
/// `khr_external_memory` and `khr_external_memory_fd`. `filter` must leave
/// at least one memory type, and the size of the request must not be zero.
pub fn alloc_dedicated_with_exportable_fd<P, F>(
    pool: &P,
    requirements: &MemoryRequirements,
    layout: AllocLayout,
    map: MappingRequirement,
    dedicated: DedicatedAlloc,
    filter: F,
) -> (r: Result<PotentialDedicatedAllocation<P::Alloc>, DeviceMemoryAllocError>) where
    P: MemoryPool,
    F: Fn(MemoryType) -> AllocFromRequirementsFilter,

    requires
        requirements.size > 0,
        forall|device: &Device| #[trigger]
            call_ensures(P::device, (pool,), device) ==> {
                &&& device.spec_enabled_extensions().khr_external_memory_fd
                &&& device.spec_enabled_extensions().khr_external_memory
                &&& filter_leaves_choice(
                    filter,
                    device.spec_memory_types(),
                    requirements.memory_type_bits,
                    map,
                )
            },
    ensures
        exists|ty: MemoryType|
            {
                &&& #[trigger] pool_chooses(pool, requirements.memory_type_bits, map, filter, ty)
                &&& pool_serves_dedicated(pool, ty, requirements.size, map, dedicated, true, r)
            },
        r matches Ok(alloc) ==> {
            &&& alloc is DedicatedMapped <==> map == MappingRequirement::DoMap
            &&& alloc is Dedicated <==> map == MappingRequirement::DoNotMap
        },
{
    let device = pool.device();
    let mem_ty = choose_allocation_memory_type(device, requirements, filter, map);
    proof {
        lemma_pool_chooses(pool, device, requirements.memory_type_bits, map, filter, mem_ty);
    }

    match map {
        MappingRequirement::DoMap => {
            let outcome = pool.dedicated_alloc_and_map(mem_ty, requirements.size, dedicated, true);
            PotentialDedicatedAllocation::from_dedicated_mapped(outcome)
        },
        MappingRequirement::DoNotMap => {
            let outcome = pool.dedicated_alloc(mem_ty, requirements.size, dedicated, true);
            PotentialDedicatedAllocation::from_dedicated(outcome)
        },
    }
}

} // verus!
