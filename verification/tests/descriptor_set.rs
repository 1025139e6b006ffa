use std::sync::Arc;
use vulkano::descriptor_set::builder::BufferInfo;
use vulkano::descriptor_set::builder::BufferUsage;
use vulkano::descriptor_set::check_dynamic_offsets;
use vulkano::descriptor_set::descriptor_set_eq;
use vulkano::descriptor_set::descriptor_set_identity;
use vulkano::descriptor_set::layout::DescriptorDesc;
use vulkano::descriptor_set::layout::DescriptorDescTy;
use vulkano::descriptor_set::layout::DescriptorSetDesc;
use vulkano::descriptor_set::layout::DescriptorSetLayout;
use vulkano::descriptor_set::layout::ShaderStages;
use vulkano::descriptor_set::DescriptorSet;
use vulkano::descriptor_set::DescriptorSetError;
use vulkano::descriptor_set::DescriptorSetWithOffsets;
use vulkano::descriptor_set::DynamicOffsetsError;
use vulkano::descriptor_set::MissingBufferUsage;
use vulkano::descriptor_set::MissingImageUsage;
use vulkano::descriptor_set::UnsafeDescriptorSet;
use vulkano::device::Device;
use vulkano::device::DeviceExtensions;
use vulkano::device::Features;
use vulkano::device::Properties;
use vulkano::image::ImageViewInfo;
use vulkano::image::ImageViewType;
use vulkano::OomError;

struct TestSet {
    inner: UnsafeDescriptorSet,
    layout: Arc<DescriptorSetLayout>,
}

impl DescriptorSet for TestSet {
    fn inner(&self) -> &UnsafeDescriptorSet {
        &self.inner
    }

    fn layout(&self) -> &Arc<DescriptorSetLayout> {
        &self.layout
    }

    fn num_buffers(&self) -> usize {
        2
    }

    fn buffer(&self, index: usize) -> Option<(BufferInfo, u32)> {
        if index < 2 {
            let usage = BufferUsage {
                uniform_texel_buffer: false,
                storage_texel_buffer: false,
                uniform_buffer: true,
                storage_buffer: false,
            };
            Some((BufferInfo { handle: 30 + index as u64, device: 7, usage }, index as u32))
        } else {
            None
        }
    }

    fn num_images(&self) -> usize {
        0
    }

    fn image(&self, _index: usize) -> Option<(ImageViewInfo, u32)> {
        None
    }
}

fn set_device(handle: u64, uniform_alignment: u64, storage_alignment: u64) -> Arc<Device> {
    let properties = Properties {
        buffer_image_granularity: 1024,
        max_tessellation_patch_size: 32,
        max_vertex_attrib_divisor: None,
        max_vertex_input_attribute_offset: 2047,
        max_vertex_input_attributes: 16,
        max_vertex_input_binding_stride: 2048,
        max_vertex_input_bindings: 16,
        max_viewport_width: 4096,
        max_viewport_height: 4096,
        max_viewports: 16,
        min_storage_buffer_offset_alignment: storage_alignment,
        min_uniform_buffer_offset_alignment: uniform_alignment,
    };
    let features = Features {
        alpha_to_one: false,
        depth_bias_clamp: false,
        depth_bounds: false,
        depth_clamp: false,
        fill_mode_non_solid: false,
        geometry_shader: false,
        independent_blend: false,
        logic_op: false,
        multi_viewport: false,
        multiview: false,
        multiview_geometry_shader: false,
        multiview_tessellation_shader: false,
        sample_rate_shading: false,
        tessellation_shader: false,
        vertex_attribute_instance_rate_divisor: false,
        vertex_attribute_instance_rate_zero_divisor: false,
        wide_lines: false,
    };
    let extensions = DeviceExtensions { khr_external_memory: false, khr_external_memory_fd: false };
    Arc::new(Device::new(handle, Vec::new(), properties, extensions, features).unwrap())
}

fn binding(ty: DescriptorDescTy) -> Option<DescriptorDesc> {
    Some(DescriptorDesc {
        ty,
        descriptor_count: 1,
        variable_count: false,
        stages: ShaderStages {
            vertex: true,
            tessellation_control: false,
            tessellation_evaluation: false,
            geometry: false,
            fragment: true,
            compute: false,
        },
        mutable: false,
    })
}

fn layout_of(device: Arc<Device>, bindings: Vec<Option<DescriptorDesc>>) -> Arc<DescriptorSetLayout> {
    Arc::new(DescriptorSetLayout::new(11, device, DescriptorSetDesc::new(bindings).unwrap()))
}

/// uniform dynamic, plain uniform, empty, storage dynamic, uniform dynamic
fn mixed_layout() -> Arc<DescriptorSetLayout> {
    layout_of(
        set_device(7, 256, 64),
        vec![
            binding(DescriptorDescTy::UniformBufferDynamic),
            binding(DescriptorDescTy::UniformBuffer),
            None,
            binding(DescriptorDescTy::StorageBufferDynamic),
            binding(DescriptorDescTy::UniformBufferDynamic),
        ],
    )
}

#[test]
fn layout_keeps_its_description() {
    let layout = mixed_layout();
    assert_eq!(layout.handle(), 11);
    assert_eq!(layout.device().handle(), 7);
    assert_eq!(layout.num_bindings(), 5);
    assert!(layout.desc().bindings()[2].is_none());
    assert!(layout.desc().bindings()[3].unwrap().ty.is_dynamic());
    assert!(!layout.desc().bindings()[1].unwrap().ty.is_dynamic());
}

#[test]
fn offsets_that_fit_are_accepted() {
    let layout = mixed_layout();
    assert_eq!(check_dynamic_offsets(&layout, vec![256, 64, 0]), Ok(()));
    assert_eq!(check_dynamic_offsets(&layout, vec![0, 0, 0]), Ok(()));
    assert_eq!(check_dynamic_offsets(&layout, vec![512, 192, 768]), Ok(()));
}

#[test]
fn layout_without_dynamic_bindings_takes_no_offsets() {
    let layout = layout_of(
        set_device(7, 256, 64),
        vec![binding(DescriptorDescTy::UniformBuffer), None, binding(DescriptorDescTy::StorageBuffer)],
    );
    assert_eq!(check_dynamic_offsets(&layout, Vec::new()), Ok(()));
    assert_eq!(
        check_dynamic_offsets(&layout, vec![0]),
        Err(DynamicOffsetsError::TooMany { obtained: 1, expected: 0 })
    );
}

#[test]
fn too_few_offsets_are_refused() {
    let layout = mixed_layout();
    assert_eq!(
        check_dynamic_offsets(&layout, vec![256, 64]),
        Err(DynamicOffsetsError::TooFew { obtained: 2, expected: 3 })
    );
    assert_eq!(
        check_dynamic_offsets(&layout, Vec::new()),
        Err(DynamicOffsetsError::TooFew { obtained: 0, expected: 3 })
    );
}

#[test]
fn too_many_offsets_are_refused() {
    let layout = mixed_layout();
    assert_eq!(
        check_dynamic_offsets(&layout, vec![256, 64, 0, 0]),
        Err(DynamicOffsetsError::TooMany { obtained: 4, expected: 3 })
    );
}

#[test]
fn misaligned_uniform_offset_is_refused() {
    let layout = mixed_layout();
    assert_eq!(
        check_dynamic_offsets(&layout, vec![64, 64, 0]),
        Err(DynamicOffsetsError::UniformOffsetMisaligned { offset: 64, alignment: 256 })
    );
    assert_eq!(
        check_dynamic_offsets(&layout, vec![0, 64, 128]),
        Err(DynamicOffsetsError::UniformOffsetMisaligned { offset: 128, alignment: 256 })
    );
}

#[test]
fn misaligned_storage_offset_is_refused() {
    let layout = mixed_layout();
    assert_eq!(
        check_dynamic_offsets(&layout, vec![256, 32, 0]),
        Err(DynamicOffsetsError::StorageOffsetMisaligned { offset: 32, alignment: 64 })
    );
}

#[test]
fn first_misaligned_offset_is_reported_before_the_count() {
    let layout = mixed_layout();
    assert_eq!(
        check_dynamic_offsets(&layout, vec![256, 1]),
        Err(DynamicOffsetsError::StorageOffsetMisaligned { offset: 1, alignment: 64 })
    );
    assert_eq!(
        check_dynamic_offsets(&layout, vec![3, 1, 5, 7]),
        Err(DynamicOffsetsError::UniformOffsetMisaligned { offset: 3, alignment: 256 })
    );
    // The offset beyond the last dynamic binding is not looked at.
    assert_eq!(
        check_dynamic_offsets(&layout, vec![0, 0, 0, 7]),
        Err(DynamicOffsetsError::TooMany { obtained: 4, expected: 3 })
    );
}

#[test]
fn alignment_is_truncated_to_32_bits() {
    let layout = layout_of(
        set_device(7, (1 << 32) + 16, 1 << 32),
        vec![binding(DescriptorDescTy::UniformBufferDynamic)],
    );
    assert_eq!(check_dynamic_offsets(&layout, vec![32]), Ok(()));
    assert_eq!(
        check_dynamic_offsets(&layout, vec![8]),
        Err(DynamicOffsetsError::UniformOffsetMisaligned { offset: 8, alignment: 16 })
    );
    let layout = layout_of(
        set_device(7, (1 << 32) + 16, 1 << 32),
        vec![binding(DescriptorDescTy::StorageBufferDynamic)],
    );
    assert_eq!(
        check_dynamic_offsets(&layout, vec![0]),
        Err(DynamicOffsetsError::StorageOffsetMisaligned { offset: 0, alignment: 0 })
    );
}

#[test]
fn set_with_offsets_keeps_set_and_offsets() {
    let set = TestSet { inner: UnsafeDescriptorSet::new(5), layout: mixed_layout() };
    let with_offsets = DescriptorSetWithOffsets::new(set, vec![256, 64, 512]);
    let (set, offsets) = with_offsets.as_ref();
    assert_eq!(offsets, &[256, 64, 512]);
    assert_eq!(set.inner().internal_object(), 5);
    assert_eq!(set.num_buffers(), 2);
    assert_eq!(set.buffer(1).map(|(buffer, descriptor)| (buffer.handle, descriptor)), Some((31, 1)));
    assert!(set.buffer(2).is_none());
    assert_eq!(set.num_images(), 0);
    assert!(set.image(0).is_none());
    let (set, offsets) = with_offsets.into_tuple();
    assert_eq!(offsets, vec![256, 64, 512]);
    assert_eq!(set.inner().internal_object(), 5);
}

#[test]
fn set_with_more_offsets_than_fit_inline_keeps_them_all() {
    let bindings = (0..9).map(|_| binding(DescriptorDescTy::StorageBufferDynamic)).collect();
    let layout = layout_of(set_device(7, 256, 64), bindings);
    let offsets: Vec<u32> = (0..9).map(|i| i * 64).collect();
    let set = TestSet { inner: UnsafeDescriptorSet::new(5), layout };
    let with_offsets = DescriptorSetWithOffsets::try_new(set, offsets.clone()).ok().unwrap();
    assert_eq!(with_offsets.as_ref().1, offsets.as_slice());
    assert_eq!(with_offsets.into_tuple().1, offsets);
}

#[test]
fn try_new_says_what_is_wrong() {
    let set = TestSet { inner: UnsafeDescriptorSet::new(5), layout: mixed_layout() };
    let refused = DescriptorSetWithOffsets::try_new(set, vec![256, 64]);
    assert_eq!(refused.err(), Some(DynamicOffsetsError::TooFew { obtained: 2, expected: 3 }));
    let set = TestSet { inner: UnsafeDescriptorSet::new(5), layout: mixed_layout() };
    let refused = DescriptorSetWithOffsets::try_new(set, vec![256, 65, 0]);
    assert_eq!(
        refused.err(),
        Some(DynamicOffsetsError::StorageOffsetMisaligned { offset: 65, alignment: 64 })
    );
    let set = TestSet { inner: UnsafeDescriptorSet::new(5), layout: mixed_layout() };
    assert!(DescriptorSetWithOffsets::try_new(set, vec![256, 64, 0]).is_ok());
}

#[test]
fn sets_are_equal_when_handle_and_device_are() {
    let a = TestSet { inner: UnsafeDescriptorSet::new(5), layout: mixed_layout() };
    let b = TestSet { inner: UnsafeDescriptorSet::new(5), layout: mixed_layout() };
    let other_handle = TestSet { inner: UnsafeDescriptorSet::new(6), layout: mixed_layout() };
    let other_device = TestSet {
        inner: UnsafeDescriptorSet::new(5),
        layout: layout_of(set_device(8, 256, 64), Vec::new()),
    };
    assert_eq!(descriptor_set_identity(&a), (5, 7));
    assert_eq!(descriptor_set_identity(&other_device), (5, 8));
    assert!(descriptor_set_eq(&a, &a));
    assert!(descriptor_set_eq(&a, &b));
    assert!(!descriptor_set_eq(&a, &other_handle));
    assert!(!descriptor_set_eq(&a, &other_device));
}

#[test]
fn descriptor_set_error_messages() {
    let format = ash::vk::Format::R8G8B8A8_UNORM;
    let cases = vec![
        (DescriptorSetError::AlreadyInArray, "builder is already within an array"),
        (
            DescriptorSetError::BuilderPoisoned,
            "the builder has previously return an error and is an unknown state",
        ),
        (
            DescriptorSetError::ArrayLayersMismatch { expected: 1, obtained: 2 },
            "the number of array layers of an image doesn't match what was expected",
        ),
        (
            DescriptorSetError::ArrayLengthMismatch { expected: 1, obtained: 2 },
            "array doesn't contain the correct amount of descriptors",
        ),
        (
            DescriptorSetError::ArrayTooManyDescriptors { capacity: 1, obtained: 2 },
            "runtime array contains too many descriptors",
        ),
        (
            DescriptorSetError::ExpectedMultisampled,
            "expected a multisampled image, but got a single-sampled image",
        ),
        (
            DescriptorSetError::DescriptorIsEmpty,
            "operation can not be performed on an empty descriptor",
        ),
        (
            DescriptorSetError::DescriptorsMissing { expected: 2, obtained: 1 },
            "not all descriptors have been added",
        ),
        (
            DescriptorSetError::ImageViewFormatMismatch { expected: format, obtained: format },
            "the format of an image view doesn't match what was expected",
        ),
        (
            DescriptorSetError::ImageViewTypeMismatch {
                expected: ImageViewType::Dim2d,
                obtained: ImageViewType::Dim3d,
            },
            "the type of an image view doesn't match what was expected",
        ),
        (
            DescriptorSetError::IncompatibleImageViewSampler,
            "the image view isn't compatible with the sampler",
        ),
        (
            DescriptorSetError::MissingBufferUsage(MissingBufferUsage::StorageBuffer),
            "the buffer is missing the correct usage",
        ),
        (
            DescriptorSetError::MissingImageUsage(MissingImageUsage::Sampled),
            "the image is missing the correct usage",
        ),
        (
            DescriptorSetError::NotIdentitySwizzled,
            "the image view has a component swizzle that is different from identity",
        ),
        (DescriptorSetError::NotInArray, "builder is not in an array"),
        (DescriptorSetError::OomError(OomError::OutOfHostMemory), "out of memory"),
        (DescriptorSetError::ResourceWrongDevice, "resource belongs to another device"),
        (
            DescriptorSetError::SamplerIsImmutable,
            "provided a dynamically assigned sampler, but the descriptor has an immutable sampler",
        ),
        (DescriptorSetError::TooManyDescriptors, "builder doesn't expect anymore descriptors"),
        (
            DescriptorSetError::UnexpectedArrayed,
            "expected a non-arrayed image, but got an arrayed image",
        ),
        (
            DescriptorSetError::UnexpectedMultisampled,
            "expected a single-sampled image, but got a multisampled image",
        ),
        (DescriptorSetError::WrongDescriptorType, "expected one type of resource but got another"),
    ];
    assert_eq!(cases.len(), 22);
    for (error, message) in cases {
        assert_eq!(error.to_string(), message);
    }
}

#[test]
fn out_of_memory_becomes_a_descriptor_set_error() {
    let error = DescriptorSetError::from(OomError::OutOfDeviceMemory);
    assert!(matches!(error, DescriptorSetError::OomError(OomError::OutOfDeviceMemory)));
}

#[test]
fn set_description_keeps_its_bindings() {
    let desc = DescriptorSetDesc::new(vec![None, binding(DescriptorDescTy::StorageBuffer)]).unwrap();
    assert_eq!(desc.bindings().len(), 2);
    assert!(desc.bindings()[0].is_none());
    assert!(matches!(desc.bindings()[1].unwrap().ty, DescriptorDescTy::StorageBuffer));
}
