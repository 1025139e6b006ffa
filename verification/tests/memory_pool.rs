use std::cell::RefCell;
use vulkano::device::Device;
use vulkano::device::DeviceExtensions;
use vulkano::device::Features;
use vulkano::device::MemoryType;
use vulkano::device::Properties;
use vulkano::memory::pool::alloc_dedicated_with_exportable_fd;
use vulkano::memory::pool::alloc_from_requirements;
use vulkano::memory::pool::choose_allocation_memory_type;
use vulkano::memory::pool::classify_memory_types;
use vulkano::memory::pool::dedicated_allocation_wanted;
use vulkano::memory::pool::select_memory_type;
use vulkano::memory::pool::AllocFromRequirementsFilter;
use vulkano::memory::pool::AllocLayout;
use vulkano::memory::pool::MappingRequirement;
use vulkano::memory::pool::MemoryPool;
use vulkano::memory::pool::MemoryPoolAlloc;
use vulkano::memory::pool::PotentialDedicatedAllocation;
use vulkano::memory::pool::MAX_POOL_ALLOC;
use vulkano::memory::DedicatedAlloc;
use vulkano::memory::DeviceMemory;
use vulkano::memory::DeviceMemoryAllocError;
use vulkano::memory::MappedDeviceMemory;
use vulkano::memory::MemoryRequirements;
use vulkano::Error;
use vulkano::OomError;

struct TestAlloc {
    memory: DeviceMemory,
    offset: u64,
}

impl MemoryPoolAlloc for TestAlloc {
    fn mapped_memory(&self) -> Option<&MappedDeviceMemory> {
        None
    }

    fn memory(&self) -> &DeviceMemory {
        &self.memory
    }

    fn offset(&self) -> u64 {
        self.offset
    }
}

#[derive(Debug, Clone, PartialEq, Eq)]
enum Call {
    Generic { ty: u32, size: u64, alignment: u64, layout: AllocLayout, map: MappingRequirement },
    Dedicated { ty: u32, size: u64, export_fd: bool },
    DedicatedMapped { ty: u32, size: u64, export_fd: bool },
}

struct TestPool {
    device: Device,
    out_of_memory: bool,
    calls: RefCell<Vec<Call>>,
}

impl TestPool {
    fn new(device: Device) -> TestPool {
        TestPool { device, out_of_memory: false, calls: RefCell::new(Vec::new()) }
    }
}

impl MemoryPool for TestPool {
    type Alloc = TestAlloc;

    fn device(&self) -> &Device {
        &self.device
    }

    fn alloc_generic(
        &self,
        ty: MemoryType,
        size: u64,
        alignment: u64,
        layout: AllocLayout,
        map: MappingRequirement,
    ) -> Result<TestAlloc, DeviceMemoryAllocError> {
        self.calls.borrow_mut().push(Call::Generic { ty: ty.id, size, alignment, layout, map });
        if self.out_of_memory {
            return Err(DeviceMemoryAllocError::OomError(OomError::OutOfDeviceMemory));
        }
        Ok(TestAlloc {
            memory: DeviceMemory { handle: 1, size: 1 << 20, memory_type_index: ty.id },
            offset: 4096,
        })
    }

    fn dedicated_alloc(
        &self,
        ty: MemoryType,
        size: u64,
        _dedicated: DedicatedAlloc,
        export_fd: bool,
    ) -> Result<DeviceMemory, DeviceMemoryAllocError> {
        self.calls.borrow_mut().push(Call::Dedicated { ty: ty.id, size, export_fd });
        if self.out_of_memory {
            return Err(DeviceMemoryAllocError::OomError(OomError::OutOfDeviceMemory));
        }
        Ok(DeviceMemory { handle: 2, size, memory_type_index: ty.id })
    }

    fn dedicated_alloc_and_map(
        &self,
        ty: MemoryType,
        size: u64,
        _dedicated: DedicatedAlloc,
        export_fd: bool,
    ) -> Result<MappedDeviceMemory, DeviceMemoryAllocError> {
        self.calls.borrow_mut().push(Call::DedicatedMapped { ty: ty.id, size, export_fd });
        if self.out_of_memory {
            return Err(DeviceMemoryAllocError::OomError(OomError::OutOfHostMemory));
        }
        Ok(MappedDeviceMemory {
            memory: DeviceMemory { handle: 3, size, memory_type_index: ty.id },
            address: 0x1000,
            coherent: true,
        })
    }
}

fn pool_properties() -> Properties {
    Properties {
        buffer_image_granularity: 1024,
        max_tessellation_patch_size: 32,
        max_vertex_attrib_divisor: None,
        max_vertex_input_attribute_offset: 2047,
        max_vertex_input_attributes: 16,
        max_vertex_input_binding_stride: 2048,
        max_vertex_input_bindings: 16,
        max_viewport_width: 4096,
        max_viewport_height: 4096,
        max_viewports: 16,
        min_storage_buffer_offset_alignment: 64,
        min_uniform_buffer_offset_alignment: 256,
    }
}

fn pool_features() -> Features {
    Features {
        alpha_to_one: false,
        depth_bias_clamp: false,
        depth_bounds: false,
        depth_clamp: false,
        fill_mode_non_solid: false,
        geometry_shader: false,
        independent_blend: false,
        logic_op: false,
        multi_viewport: false,
        multiview: false,
        multiview_geometry_shader: false,
        multiview_tessellation_shader: false,
        sample_rate_shading: false,
        tessellation_shader: false,
        vertex_attribute_instance_rate_divisor: false,
        vertex_attribute_instance_rate_zero_divisor: false,
        wide_lines: false,
    }
}

fn memory_types() -> Vec<MemoryType> {
    vec![
        MemoryType { id: 0, host_visible: false, device_local: true },
        MemoryType { id: 1, host_visible: true, device_local: false },
        MemoryType { id: 2, host_visible: true, device_local: true },
        MemoryType { id: 3, host_visible: false, device_local: false },
    ]
}

fn test_device() -> Device {
    let extensions = DeviceExtensions { khr_external_memory: true, khr_external_memory_fd: true };
    Device::new(7, memory_types(), pool_properties(), extensions, pool_features()).unwrap()
}

fn requirements(size: u64, bits: u32, prefer_dedicated: bool) -> MemoryRequirements {
    MemoryRequirements { size, alignment: 16, memory_type_bits: bits, prefer_dedicated }
}

fn some_buffer() -> DedicatedAlloc {
    DedicatedAlloc::Buffer(ash::vk::Buffer::null())
}

#[test]
fn device_rejects_memory_types_out_of_order() {
    let types = vec![
        MemoryType { id: 1, host_visible: false, device_local: true },
        MemoryType { id: 0, host_visible: true, device_local: false },
    ];
    let extensions = DeviceExtensions { khr_external_memory: false, khr_external_memory_fd: false };
    assert!(Device::new(1, types, pool_properties(), extensions, pool_features()).is_none());
}

#[test]
fn device_rejects_more_than_32_memory_types() {
    let types: Vec<MemoryType> =
        (0..33).map(|id| MemoryType { id, host_visible: false, device_local: true }).collect();
    let extensions = DeviceExtensions { khr_external_memory: false, khr_external_memory_fd: false };
    assert!(Device::new(1, types, pool_properties(), extensions, pool_features()).is_none());
}

#[test]
fn device_keeps_what_it_was_given() {
    let device = test_device();
    assert_eq!(device.handle(), 7);
    assert_eq!(device.memory_types().len(), 4);
    assert_eq!(device.memory_types()[2], MemoryType { id: 2, host_visible: true, device_local: true });
    assert_eq!(device.properties().min_uniform_buffer_offset_alignment, 256);
    assert!(device.enabled_extensions().khr_external_memory_fd);
    assert!(!device.enabled_features().wide_lines);
}

#[test]
fn chooses_first_allowed_type_in_bits() {
    let device = test_device();
    let ty = choose_allocation_memory_type(
        &device,
        &requirements(16, 0b0110, false),
        |_| AllocFromRequirementsFilter::Allowed,
        MappingRequirement::DoNotMap,
    );
    assert_eq!(ty.id, 1);
}

#[test]
fn chosen_type_has_its_bit_set_and_is_host_visible_when_mapped() {
    let device = test_device();
    for bits in 1u32..16 {
        if bits & 0b0110 == 0 {
            continue;
        }
        let ty = choose_allocation_memory_type(
            &device,
            &requirements(16, bits, false),
            |_| AllocFromRequirementsFilter::Allowed,
            MappingRequirement::DoMap,
        );
        assert_ne!(bits & (1 << ty.id), 0);
        assert!(ty.host_visible);
        assert_eq!(device.memory_types()[ty.id as usize], ty);
    }
}

#[test]
fn preferred_type_wins_over_earlier_allowed_type() {
    let device = test_device();
    let ty = choose_allocation_memory_type(
        &device,
        &requirements(16, 0b1111, false),
        |t| {
            if t.id == 2 {
                AllocFromRequirementsFilter::Preferred
            } else {
                AllocFromRequirementsFilter::Allowed
            }
        },
        MappingRequirement::DoNotMap,
    );
    assert_eq!(ty.id, 2);
}

#[test]
fn forbidden_types_are_never_chosen() {
    let device = test_device();
    let ty = choose_allocation_memory_type(
        &device,
        &requirements(16, 0b1111, false),
        |t| {
            if t.id < 3 {
                AllocFromRequirementsFilter::Forbidden
            } else {
                AllocFromRequirementsFilter::Allowed
            }
        },
        MappingRequirement::DoNotMap,
    );
    assert_eq!(ty.id, 3);
}

#[test]
fn preferred_type_that_is_not_host_visible_is_skipped_when_mapping() {
    let device = test_device();
    let ty = choose_allocation_memory_type(
        &device,
        &requirements(16, 0b1111, false),
        |t| {
            if t.device_local {
                AllocFromRequirementsFilter::Preferred
            } else {
                AllocFromRequirementsFilter::Allowed
            }
        },
        MappingRequirement::DoMap,
    );
    assert_eq!(ty.id, 2);
}

#[test]
fn filter_is_not_asked_about_types_outside_the_bits() {
    let device = test_device();
    let asked = RefCell::new(Vec::new());
    let ty = choose_allocation_memory_type(
        &device,
        &requirements(16, 0b1010, false),
        |t| {
            asked.borrow_mut().push(t.id);
            AllocFromRequirementsFilter::Allowed
        },
        MappingRequirement::DoMap,
    );
    assert_eq!(ty.id, 1);
    assert_eq!(*asked.borrow(), vec![1]);
}

#[test]
fn select_memory_type_finds_nothing_when_all_are_forbidden() {
    let device = test_device();
    let classes = vec![AllocFromRequirementsFilter::Forbidden; 4];
    let picked = select_memory_type(
        &device,
        &requirements(16, 0b1111, false),
        &classes,
        MappingRequirement::DoNotMap,
    );
    assert!(picked.is_none());
}

#[test]
fn select_memory_type_finds_nothing_for_a_bit_without_a_type() {
    let device = test_device();
    let classes = vec![AllocFromRequirementsFilter::Allowed; 4];
    let picked = select_memory_type(
        &device,
        &requirements(16, 0b1_0000, false),
        &classes,
        MappingRequirement::DoNotMap,
    );
    assert!(picked.is_none());
}

#[test]
fn select_memory_type_wants_one_class_for_each_type() {
    let device = test_device();
    let classes = vec![AllocFromRequirementsFilter::Allowed; 3];
    let picked = select_memory_type(
        &device,
        &requirements(16, 0b1111, false),
        &classes,
        MappingRequirement::DoNotMap,
    );
    assert!(picked.is_none());
}

#[test]
fn select_memory_type_prefers_then_allows() {
    let device = test_device();
    let classes = vec![
        AllocFromRequirementsFilter::Allowed,
        AllocFromRequirementsFilter::Forbidden,
        AllocFromRequirementsFilter::Preferred,
        AllocFromRequirementsFilter::Preferred,
    ];
    let picked = select_memory_type(
        &device,
        &requirements(16, 0b1111, false),
        &classes,
        MappingRequirement::DoNotMap,
    );
    assert_eq!(picked.map(|t| t.id), Some(2));
    let picked = select_memory_type(
        &device,
        &requirements(16, 0b0011, false),
        &classes,
        MappingRequirement::DoNotMap,
    );
    assert_eq!(picked.map(|t| t.id), Some(0));
    let picked = select_memory_type(
        &device,
        &requirements(16, 0b0011, false),
        &classes,
        MappingRequirement::DoMap,
    );
    assert_eq!(picked.map(|t| t.id), None);
}

#[test]
fn pool_ceiling_is_256_mebibytes() {
    assert_eq!(MAX_POOL_ALLOC, 268_435_456);
}

#[test]
fn dedicated_allocation_is_wanted_above_the_ceiling_or_when_preferred() {
    assert!(!dedicated_allocation_wanted(&requirements(MAX_POOL_ALLOC, 1, false), some_buffer()));
    assert!(dedicated_allocation_wanted(&requirements(MAX_POOL_ALLOC + 1, 1, false), some_buffer()));
    assert!(dedicated_allocation_wanted(&requirements(16, 1, true), some_buffer()));
    assert!(dedicated_allocation_wanted(
        &requirements(16, 1, true),
        DedicatedAlloc::Image(ash::vk::Image::null())
    ));
    assert!(!dedicated_allocation_wanted(&requirements(16, 1, true), DedicatedAlloc::Generic));
    assert!(!dedicated_allocation_wanted(
        &requirements(MAX_POOL_ALLOC, 1, true),
        DedicatedAlloc::Generic
    ));
    assert!(dedicated_allocation_wanted(
        &requirements(MAX_POOL_ALLOC + 1, 1, false),
        DedicatedAlloc::Generic
    ));
    assert!(dedicated_allocation_wanted(&requirements(u64::MAX, 1, true), DedicatedAlloc::Generic));
}

#[test]
fn small_request_comes_from_the_pool() {
    let pool = TestPool::new(test_device());
    let alloc = alloc_from_requirements(
        &pool,
        &requirements(16, 0b1111, false),
        AllocLayout::Linear,
        MappingRequirement::DoNotMap,
        some_buffer(),
        |_| AllocFromRequirementsFilter::Allowed,
    )
    .unwrap();
    assert!(matches!(alloc, PotentialDedicatedAllocation::Generic(_)));
    assert_eq!(alloc.offset(), 4096);
    assert_eq!(alloc.memory().handle, 1);
    assert!(alloc.mapped_memory().is_none());
    assert_eq!(
        *pool.calls.borrow(),
        vec![Call::Generic {
            ty: 0,
            size: 16,
            alignment: 16,
            layout: AllocLayout::Linear,
            map: MappingRequirement::DoNotMap
        }]
    );
}

#[test]
fn request_at_the_ceiling_comes_from_the_pool() {
    let pool = TestPool::new(test_device());
    let alloc = alloc_from_requirements(
        &pool,
        &requirements(MAX_POOL_ALLOC, 0b1111, false),
        AllocLayout::Optimal,
        MappingRequirement::DoMap,
        some_buffer(),
        |_| AllocFromRequirementsFilter::Allowed,
    )
    .unwrap();
    assert!(matches!(alloc, PotentialDedicatedAllocation::Generic(_)));
    assert_eq!(
        *pool.calls.borrow(),
        vec![Call::Generic {
            ty: 1,
            size: MAX_POOL_ALLOC,
            alignment: 16,
            layout: AllocLayout::Optimal,
            map: MappingRequirement::DoMap
        }]
    );
}

#[test]
fn request_above_the_ceiling_is_dedicated() {
    let pool = TestPool::new(test_device());
    let alloc = alloc_from_requirements(
        &pool,
        &requirements(MAX_POOL_ALLOC + 1, 0b1111, false),
        AllocLayout::Linear,
        MappingRequirement::DoNotMap,
        some_buffer(),
        |_| AllocFromRequirementsFilter::Allowed,
    )
    .unwrap();
    assert!(matches!(alloc, PotentialDedicatedAllocation::Dedicated(_)));
    assert_eq!(alloc.offset(), 0);
    assert_eq!(alloc.memory().handle, 2);
    assert_eq!(alloc.memory().size, MAX_POOL_ALLOC + 1);
    assert!(alloc.mapped_memory().is_none());
    assert_eq!(
        *pool.calls.borrow(),
        vec![Call::Dedicated { ty: 0, size: MAX_POOL_ALLOC + 1, export_fd: false }]
    );
}

#[test]
fn mapped_request_above_the_ceiling_is_dedicated_and_mapped() {
    let pool = TestPool::new(test_device());
    let alloc = alloc_from_requirements(
        &pool,
        &requirements(MAX_POOL_ALLOC + 1, 0b1111, false),
        AllocLayout::Linear,
        MappingRequirement::DoMap,
        some_buffer(),
        |_| AllocFromRequirementsFilter::Allowed,
    )
    .unwrap();
    assert!(matches!(alloc, PotentialDedicatedAllocation::DedicatedMapped(_)));
    assert_eq!(alloc.offset(), 0);
    assert_eq!(alloc.memory().handle, 3);
    assert_eq!(alloc.mapped_memory().map(|m| m.address), Some(0x1000));
    assert_eq!(
        *pool.calls.borrow(),
        vec![Call::DedicatedMapped { ty: 1, size: MAX_POOL_ALLOC + 1, export_fd: false }]
    );
}

#[test]
fn preferred_dedicated_request_is_dedicated() {
    let pool = TestPool::new(test_device());
    let alloc = alloc_from_requirements(
        &pool,
        &requirements(16, 0b1111, true),
        AllocLayout::Linear,
        MappingRequirement::DoNotMap,
        DedicatedAlloc::Image(ash::vk::Image::null()),
        |_| AllocFromRequirementsFilter::Allowed,
    )
    .unwrap();
    assert!(matches!(alloc, PotentialDedicatedAllocation::Dedicated(_)));
}

#[test]
fn large_request_is_dedicated_even_without_a_resource() {
    let pool = TestPool::new(test_device());
    let alloc = alloc_from_requirements(
        &pool,
        &requirements(MAX_POOL_ALLOC + 1, 0b1111, false),
        AllocLayout::Linear,
        MappingRequirement::DoNotMap,
        DedicatedAlloc::Generic,
        |_| AllocFromRequirementsFilter::Allowed,
    )
    .unwrap();
    assert!(matches!(alloc, PotentialDedicatedAllocation::Dedicated(_)));
    let alloc = alloc_from_requirements(
        &pool,
        &requirements(u64::MAX, 0b1111, true),
        AllocLayout::Optimal,
        MappingRequirement::DoMap,
        DedicatedAlloc::Generic,
        |_| AllocFromRequirementsFilter::Allowed,
    )
    .unwrap();
    assert!(matches!(alloc, PotentialDedicatedAllocation::DedicatedMapped(_)));
}

#[test]
fn preferred_dedicated_request_without_a_resource_stays_in_the_pool() {
    let pool = TestPool::new(test_device());
    let alloc = alloc_from_requirements(
        &pool,
        &requirements(MAX_POOL_ALLOC, 0b1111, true),
        AllocLayout::Linear,
        MappingRequirement::DoNotMap,
        DedicatedAlloc::Generic,
        |_| AllocFromRequirementsFilter::Allowed,
    )
    .unwrap();
    assert!(matches!(alloc, PotentialDedicatedAllocation::Generic(_)));
}

#[test]
fn out_of_memory_is_handed_on() {
    let mut pool = TestPool::new(test_device());
    pool.out_of_memory = true;
    let failed = alloc_from_requirements(
        &pool,
        &requirements(16, 0b1111, false),
        AllocLayout::Linear,
        MappingRequirement::DoNotMap,
        some_buffer(),
        |_| AllocFromRequirementsFilter::Allowed,
    );
    assert!(matches!(
        failed,
        Err(DeviceMemoryAllocError::OomError(OomError::OutOfDeviceMemory))
    ));
    let failed = alloc_from_requirements(
        &pool,
        &requirements(16, 0b1111, true),
        AllocLayout::Linear,
        MappingRequirement::DoMap,
        some_buffer(),
        |_| AllocFromRequirementsFilter::Allowed,
    );
    assert!(matches!(failed, Err(DeviceMemoryAllocError::OomError(OomError::OutOfHostMemory))));
}

#[test]
fn exportable_memory_is_always_dedicated() {
    let pool = TestPool::new(test_device());
    let alloc = alloc_dedicated_with_exportable_fd(
        &pool,
        &requirements(16, 0b1100, false),
        AllocLayout::Linear,
        MappingRequirement::DoNotMap,
        some_buffer(),
        |_| AllocFromRequirementsFilter::Allowed,
    )
    .unwrap();
    assert!(matches!(alloc, PotentialDedicatedAllocation::Dedicated(_)));
    let alloc = alloc_dedicated_with_exportable_fd(
        &pool,
        &requirements(16, 0b1100, false),
        AllocLayout::Linear,
        MappingRequirement::DoMap,
        some_buffer(),
        |_| AllocFromRequirementsFilter::Allowed,
    )
    .unwrap();
    assert!(matches!(alloc, PotentialDedicatedAllocation::DedicatedMapped(_)));
    assert_eq!(
        *pool.calls.borrow(),
        vec![
            Call::Dedicated { ty: 2, size: 16, export_fd: true },
            Call::DedicatedMapped { ty: 2, size: 16, export_fd: true }
        ]
    );
}

#[test]
fn wrapping_keeps_what_was_returned() {
    let generic: Result<PotentialDedicatedAllocation<u8>, DeviceMemoryAllocError> =
        PotentialDedicatedAllocation::from_generic(Ok(5u8));
    assert!(matches!(generic, Ok(PotentialDedicatedAllocation::Generic(5))));
    let failed: Result<PotentialDedicatedAllocation<u8>, DeviceMemoryAllocError> =
        PotentialDedicatedAllocation::from_generic(Err(DeviceMemoryAllocError::TooManyObjects));
    assert!(matches!(failed, Err(DeviceMemoryAllocError::TooManyObjects)));
    let dedicated: Result<PotentialDedicatedAllocation<u8>, DeviceMemoryAllocError> =
        PotentialDedicatedAllocation::from_dedicated(Ok(DeviceMemory {
            handle: 9,
            size: 64,
            memory_type_index: 1,
        }));
    match dedicated {
        Ok(PotentialDedicatedAllocation::Dedicated(memory)) => assert_eq!(memory.handle, 9),
        _ => panic!("expected a dedicated allocation"),
    }
    let failed: Result<PotentialDedicatedAllocation<u8>, DeviceMemoryAllocError> =
        PotentialDedicatedAllocation::from_dedicated_mapped(Err(
            DeviceMemoryAllocError::MemoryMapFailed,
        ));
    assert!(matches!(failed, Err(DeviceMemoryAllocError::MemoryMapFailed)));
}

#[test]
fn filter_answers_are_collected_for_the_types_that_it_has_a_say_on() {
    let device = test_device();
    let filter = |ty: MemoryType| {
        if ty.device_local {
            AllocFromRequirementsFilter::Preferred
        } else {
            AllocFromRequirementsFilter::Allowed
        }
    };
    let classes =
        classify_memory_types(device.memory_types(), 0b1110, &filter, MappingRequirement::DoMap);
    assert_eq!(
        classes,
        vec![
            AllocFromRequirementsFilter::Forbidden,
            AllocFromRequirementsFilter::Allowed,
            AllocFromRequirementsFilter::Preferred,
            AllocFromRequirementsFilter::Forbidden,
        ]
    );
    let classes =
        classify_memory_types(device.memory_types(), 0b1001, &filter, MappingRequirement::DoNotMap);
    assert_eq!(
        classes,
        vec![
            AllocFromRequirementsFilter::Preferred,
            AllocFromRequirementsFilter::Forbidden,
            AllocFromRequirementsFilter::Forbidden,
            AllocFromRequirementsFilter::Allowed,
        ]
    );
}

#[test]
fn native_errors_become_allocation_errors() {
    assert_eq!(
        DeviceMemoryAllocError::from_error(Error::OutOfHostMemory),
        Some(DeviceMemoryAllocError::OomError(OomError::OutOfHostMemory))
    );
    assert_eq!(
        DeviceMemoryAllocError::from_error(Error::OutOfDeviceMemory),
        Some(DeviceMemoryAllocError::OomError(OomError::OutOfDeviceMemory))
    );
    assert_eq!(
        DeviceMemoryAllocError::from_error(Error::TooManyObjects),
        Some(DeviceMemoryAllocError::TooManyObjects)
    );
    assert_eq!(
        DeviceMemoryAllocError::from_error(Error::MemoryMapFailed),
        Some(DeviceMemoryAllocError::MemoryMapFailed)
    );
    assert_eq!(DeviceMemoryAllocError::from_error(Error::DeviceLost), None);
    assert_eq!(DeviceMemoryAllocError::from_error(Error::OutOfPoolMemory), None);
    assert_eq!(
        DeviceMemoryAllocError::OomError(OomError::OutOfHostMemory).to_string(),
        "not enough memory available"
    );
    assert_eq!(
        DeviceMemoryAllocError::TooManyObjects.to_string(),
        "the maximum number of allocations has been exceeded"
    );
    assert_eq!(DeviceMemoryAllocError::MemoryMapFailed.to_string(), "memory map failed");
}
