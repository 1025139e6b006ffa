use ash::vk::ExternalSemaphoreHandleTypeFlags;
use std::sync::Arc;
use vulkano::device::Device;
use vulkano::device::DeviceExtensions;
use vulkano::device::Features;
use vulkano::device::Properties;
use vulkano::sync::external_semaphore_handle_type::D3D12_FENCE_BIT;
use vulkano::sync::external_semaphore_handle_type::OPAQUE_FD_BIT;
use vulkano::sync::external_semaphore_handle_type::OPAQUE_WIN32_BIT;
use vulkano::sync::external_semaphore_handle_type::OPAQUE_WIN32_KMT_BIT;
use vulkano::sync::external_semaphore_handle_type::SYNC_FD_BIT;
use vulkano::sync::semaphore::Disposal;
use vulkano::sync::semaphore::PoolLookup;
use vulkano::sync::semaphore::SemaphorePool;
use vulkano::sync::semaphore::SHARED_RESOURCE_ACCESS;
use vulkano::sync::ExternalSemaphoreHandleType;
use vulkano::sync::Semaphore;
use vulkano::Error;
use vulkano::OomError;

fn sync_device() -> Arc<Device> {
    let properties = Properties {
        buffer_image_granularity: 1024,
        max_tessellation_patch_size: 32,
        max_vertex_attrib_divisor: None,
        max_vertex_input_attribute_offset: 2047,
        max_vertex_input_attributes: 16,
        max_vertex_input_binding_stride: 2048,
        max_vertex_input_bindings: 16,
        max_viewport_width: 4096,
        max_viewport_height: 4096,
        max_viewports: 16,
        min_storage_buffer_offset_alignment: 64,
        min_uniform_buffer_offset_alignment: 256,
    };
    let features = Features {
        alpha_to_one: false,
        depth_bias_clamp: false,
        depth_bounds: false,
        depth_clamp: false,
        fill_mode_non_solid: false,
        geometry_shader: false,
        independent_blend: false,
        logic_op: false,
        multi_viewport: false,
        multiview: false,
        multiview_geometry_shader: false,
        multiview_tessellation_shader: false,
        sample_rate_shading: false,
        tessellation_shader: false,
        vertex_attribute_instance_rate_divisor: false,
        vertex_attribute_instance_rate_zero_divisor: false,
        wide_lines: false,
    };
    let extensions = DeviceExtensions { khr_external_memory: false, khr_external_memory_fd: false };
    Arc::new(Device::new(7, Vec::new(), properties, extensions, features).unwrap())
}

/// Takes a semaphore from the pool, and makes one of the native semaphore
/// `fresh` if the pool is empty.
fn acquire(device: &Arc<Device>, pool: &mut SemaphorePool, fresh: u64) -> Semaphore {
    match Semaphore::from_pool(device.clone(), pool) {
        PoolLookup::Reused(semaphore) => semaphore,
        PoolLookup::Empty(device) => Semaphore::alloc_impl(device, true, Ok(fresh)).unwrap(),
    }
}

fn all_handle_types() -> Vec<ExternalSemaphoreHandleType> {
    let mut all = Vec::new();
    for mask in 0u32..32 {
        all.push(ExternalSemaphoreHandleType {
            opaque_fd: mask & 1 != 0,
            opaque_win32: mask & 2 != 0,
            opaque_win32_kmt: mask & 4 != 0,
            d3d12_fence: mask & 8 != 0,
            sync_fd: mask & 16 != 0,
        });
    }
    all
}

#[test]
fn semaphore_create() {
    let device = sync_device();
    let _ = Semaphore::alloc_new(device.clone(), Ok(21));
}

#[test]
fn semaphore_pool() {
    let device = sync_device();
    let mut pool = SemaphorePool::new();

    assert_eq!(pool.len(), 0);
    let sem1_internal_obj = {
        let sem = acquire(&device, &mut pool, 21);
        assert_eq!(pool.len(), 0);
        let internal_object = sem.internal_object();
        assert_eq!(sem.release(&mut pool), Disposal::Pooled);
        internal_object
    };

    assert_eq!(pool.len(), 1);
    let sem2 = acquire(&device, &mut pool, 22);
    assert_eq!(pool.len(), 0);
    assert_eq!(sem2.internal_object(), sem1_internal_obj);
}

#[test]
fn semaphore_outside_the_pool_is_destroyed() {
    let device = sync_device();
    let mut pool = SemaphorePool::new();
    let semaphore = Semaphore::alloc_new(device.clone(), Ok(21)).unwrap();
    assert_eq!(semaphore.internal_object(), 21);
    assert_eq!(semaphore.device().handle(), 7);
    assert_eq!(semaphore.release(&mut pool), Disposal::Destroy(21));
    assert_eq!(pool.len(), 0);
}

#[test]
fn pool_hands_out_the_handle_that_came_back_last() {
    let device = sync_device();
    let mut pool = SemaphorePool::new();
    let first = acquire(&device, &mut pool, 1);
    let second = acquire(&device, &mut pool, 2);
    let third = acquire(&device, &mut pool, 3);
    assert_eq!(first.release(&mut pool), Disposal::Pooled);
    assert_eq!(third.release(&mut pool), Disposal::Pooled);
    assert_eq!(second.release(&mut pool), Disposal::Pooled);
    assert_eq!(pool.len(), 3);
    assert_eq!(acquire(&device, &mut pool, 9).internal_object(), 2);
    assert_eq!(acquire(&device, &mut pool, 9).internal_object(), 3);
    assert_eq!(acquire(&device, &mut pool, 9).internal_object(), 1);
    assert_eq!(acquire(&device, &mut pool, 9).internal_object(), 9);
}

#[test]
fn empty_pool_hands_the_device_back() {
    let device = sync_device();
    let mut pool = SemaphorePool::new();
    match Semaphore::from_pool(device.clone(), &mut pool) {
        PoolLookup::Empty(back) => assert!(Arc::ptr_eq(&back, &device)),
        PoolLookup::Reused(_) => panic!("the pool was empty"),
    }
    match Semaphore::from_exportable_pool(device.clone(), &mut pool) {
        PoolLookup::Empty(back) => assert!(Arc::ptr_eq(&back, &device)),
        PoolLookup::Reused(_) => panic!("the pool was empty"),
    }
}

#[test]
fn out_of_memory_on_creation_is_reported() {
    let device = sync_device();
    assert_eq!(
        Semaphore::alloc_new(device.clone(), Err(Error::OutOfHostMemory)).err(),
        Some(OomError::OutOfHostMemory)
    );
    assert_eq!(
        Semaphore::alloc_impl(device.clone(), true, Err(Error::OutOfDeviceMemory)).err(),
        Some(OomError::OutOfDeviceMemory)
    );
    assert_eq!(
        Semaphore::alloc_exportable(
            device.clone(),
            ExternalSemaphoreHandleType::win32(),
            Err(Error::OutOfDeviceMemory)
        )
        .err(),
        Some(OomError::OutOfDeviceMemory)
    );
}

#[test]
fn exportable_semaphores_are_made_like_the_others() {
    let device = sync_device();
    let mut pool = SemaphorePool::new();
    let semaphore =
        Semaphore::alloc_exportable(device.clone(), ExternalSemaphoreHandleType::win32(), Ok(5))
            .unwrap();
    assert_eq!(semaphore.release(&mut pool), Disposal::Destroy(5));
    let pooled = Semaphore::alloc_exportable_impl(
        device.clone(),
        ExternalSemaphoreHandleType::win32(),
        true,
        Ok(6),
    )
    .unwrap();
    assert_eq!(pooled.release(&mut pool), Disposal::Pooled);
    match Semaphore::from_exportable_pool(device.clone(), &mut pool) {
        PoolLookup::Reused(semaphore) => assert_eq!(semaphore.internal_object(), 6),
        PoolLookup::Empty(_) => panic!("the pool was not empty"),
    }
}

#[test]
fn create_info_asks_for_export_only_where_wanted() {
    assert!(Semaphore::create_info().export.is_none());
    let info = Semaphore::exportable_create_info(ExternalSemaphoreHandleType::posix());
    let export = info.export.unwrap();
    assert_eq!(export.handle_types, ExternalSemaphoreHandleTypeFlags::OPAQUE_WIN32);
    assert_eq!(export.dw_access, 2147483649);
    assert_eq!(SHARED_RESOURCE_ACCESS, 0x8000_0001);
}

#[test]
fn handle_type_constructors() {
    let none = ExternalSemaphoreHandleType::none();
    assert_eq!(
        none,
        ExternalSemaphoreHandleType {
            opaque_fd: false,
            opaque_win32: false,
            opaque_win32_kmt: false,
            d3d12_fence: false,
            sync_fd: false
        }
    );
    assert_eq!(
        ExternalSemaphoreHandleType::posix(),
        ExternalSemaphoreHandleType { opaque_fd: true, ..none }
    );
    assert_eq!(
        ExternalSemaphoreHandleType::win32(),
        ExternalSemaphoreHandleType { opaque_win32: true, ..none }
    );
}

#[test]
fn handle_type_bits_are_those_of_the_native_flags() {
    assert_eq!(OPAQUE_FD_BIT, ExternalSemaphoreHandleTypeFlags::OPAQUE_FD.as_raw());
    assert_eq!(OPAQUE_WIN32_BIT, ExternalSemaphoreHandleTypeFlags::OPAQUE_WIN32.as_raw());
    assert_eq!(OPAQUE_WIN32_KMT_BIT, ExternalSemaphoreHandleTypeFlags::OPAQUE_WIN32_KMT.as_raw());
    assert_eq!(D3D12_FENCE_BIT, ExternalSemaphoreHandleTypeFlags::D3D12_FENCE.as_raw());
    assert_eq!(SYNC_FD_BIT, ExternalSemaphoreHandleTypeFlags::SYNC_FD.as_raw());
}

#[test]
fn posix_round_trips_through_the_native_flags() {
    let flags = ExternalSemaphoreHandleTypeFlags::from(ExternalSemaphoreHandleType::posix());
    assert_eq!(flags, ExternalSemaphoreHandleTypeFlags::OPAQUE_FD);
    let back = ExternalSemaphoreHandleType::from(flags);
    assert_eq!(back, ExternalSemaphoreHandleType::posix());
    assert!(back.opaque_fd);
    assert!(!back.opaque_win32 && !back.opaque_win32_kmt && !back.d3d12_fence && !back.sync_fd);
}

#[test]
fn win32_round_trips_through_the_native_flags() {
    let flags = ExternalSemaphoreHandleTypeFlags::from(ExternalSemaphoreHandleType::win32());
    assert_eq!(flags, ExternalSemaphoreHandleTypeFlags::OPAQUE_WIN32);
    let back = ExternalSemaphoreHandleType::from(flags);
    assert_eq!(back, ExternalSemaphoreHandleType::win32());
    assert!(back.opaque_win32);
    assert!(!back.opaque_fd && !back.opaque_win32_kmt && !back.d3d12_fence && !back.sync_fd);
}

#[test]
fn every_handle_type_round_trips_through_the_native_flags() {
    for (mask, handle_type) in all_handle_types().into_iter().enumerate() {
        let flags = ExternalSemaphoreHandleTypeFlags::from(handle_type);
        assert_eq!(flags.as_raw(), mask as u32);
        assert_eq!(ExternalSemaphoreHandleType::from(flags), handle_type);
    }
}

#[test]
fn native_flags_without_a_field_are_dropped() {
    let flags = ExternalSemaphoreHandleTypeFlags::from_raw(0b1110_0101);
    let handle_type = ExternalSemaphoreHandleType::from(flags);
    assert_eq!(
        handle_type,
        ExternalSemaphoreHandleType {
            opaque_fd: true,
            opaque_win32: false,
            opaque_win32_kmt: true,
            d3d12_fence: false,
            sync_fd: false
        }
    );
    assert_eq!(ExternalSemaphoreHandleTypeFlags::from(handle_type).as_raw(), 0b101);
    assert_eq!(
        ExternalSemaphoreHandleType::from(ExternalSemaphoreHandleTypeFlags::empty()),
        ExternalSemaphoreHandleType::none()
    );
}

#[test]
fn bitor_is_the_union_of_the_fields() {
    let none = ExternalSemaphoreHandleType::none();
    assert_eq!(none | none, none);
    let both = ExternalSemaphoreHandleType::posix() | ExternalSemaphoreHandleType::win32();
    assert_eq!(
        both,
        ExternalSemaphoreHandleType { opaque_fd: true, opaque_win32: true, ..none }
    );
    for a in all_handle_types() {
        assert_eq!(a | none, a);
        assert_eq!(a | a, a);
        for b in all_handle_types() {
            let union = a | b;
            assert_eq!(union.opaque_fd, a.opaque_fd || b.opaque_fd);
            assert_eq!(union.opaque_win32, a.opaque_win32 || b.opaque_win32);
            assert_eq!(union.opaque_win32_kmt, a.opaque_win32_kmt || b.opaque_win32_kmt);
            assert_eq!(union.d3d12_fence, a.d3d12_fence || b.d3d12_fence);
            assert_eq!(union.sync_fd, a.sync_fd || b.sync_fd);
            assert_eq!(
                ExternalSemaphoreHandleTypeFlags::from(union),
                ExternalSemaphoreHandleTypeFlags::from(a) | ExternalSemaphoreHandleTypeFlags::from(b)
            );
        }
    }
}

#[test]
fn handle_is_fetched_as_a_windows_handle() {
    let device = sync_device();
    let semaphore = Semaphore::alloc_new(device.clone(), Ok(21)).unwrap();
    let info = semaphore.get_handle_info();
    assert_eq!(info.semaphore, 21);
    assert_eq!(info.handle_type, ExternalSemaphoreHandleTypeFlags::OPAQUE_WIN32);
    let handle_type = ExternalSemaphoreHandleType::win32();
    assert_eq!(semaphore.get_handle(handle_type, Ok(0x40)), Ok(0x40));
    assert_eq!(
        semaphore.get_handle(handle_type, Err(Error::OutOfHostMemory)),
        Err(OomError::OutOfHostMemory)
    );
}
