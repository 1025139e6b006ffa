use std::sync::Arc;
use vulkano::descriptor_set::builder::check_resource;
use vulkano::descriptor_set::builder::image_match_desc;
use vulkano::descriptor_set::builder::BufferInfo;
use vulkano::descriptor_set::builder::BufferUsage;
use vulkano::descriptor_set::builder::BufferViewInfo;
use vulkano::descriptor_set::builder::DescriptorResource;
use vulkano::descriptor_set::builder::DescriptorSetBuilder;
use vulkano::descriptor_set::builder::SamplerInfo;
use vulkano::descriptor_set::layout::DescriptorDesc;
use vulkano::descriptor_set::layout::DescriptorDescImage;
use vulkano::descriptor_set::layout::DescriptorDescImageArray;
use vulkano::descriptor_set::layout::DescriptorDescTy;
use vulkano::descriptor_set::layout::DescriptorSetDesc;
use vulkano::descriptor_set::layout::DescriptorSetLayout;
use vulkano::descriptor_set::layout::ShaderStages;
use vulkano::descriptor_set::DescriptorSetError;
use vulkano::descriptor_set::MissingBufferUsage;
use vulkano::descriptor_set::MissingImageUsage;
use vulkano::device::Device;
use vulkano::device::DeviceExtensions;
use vulkano::device::Features;
use vulkano::device::Properties;
use vulkano::image::same_format;
use vulkano::image::ImageUsage;
use vulkano::image::ImageViewInfo;
use vulkano::image::ImageViewType;

const DEVICE: u64 = 7;

fn builder_device() -> Arc<Device> {
    let properties = Properties {
        buffer_image_granularity: 1024,
        max_tessellation_patch_size: 32,
        max_vertex_attrib_divisor: None,
        max_vertex_input_attribute_offset: 2047,
        max_vertex_input_attributes: 16,
        max_vertex_input_binding_stride: 2048,
        max_vertex_input_bindings: 16,
        max_viewport_width: 4096,
        max_viewport_height: 4096,
        max_viewports: 16,
        min_storage_buffer_offset_alignment: 64,
        min_uniform_buffer_offset_alignment: 256,
    };
    let features = Features {
        alpha_to_one: false,
        depth_bias_clamp: false,
        depth_bounds: false,
        depth_clamp: false,
        fill_mode_non_solid: false,
        geometry_shader: false,
        independent_blend: false,
        logic_op: false,
        multi_viewport: false,
        multiview: false,
        multiview_geometry_shader: false,
        multiview_tessellation_shader: false,
        sample_rate_shading: false,
        tessellation_shader: false,
        vertex_attribute_instance_rate_divisor: false,
        vertex_attribute_instance_rate_zero_divisor: false,
        wide_lines: false,
    };
    let extensions = DeviceExtensions { khr_external_memory: false, khr_external_memory_fd: false };
    Arc::new(Device::new(DEVICE, Vec::new(), properties, extensions, features).unwrap())
}

fn desc(ty: DescriptorDescTy, descriptor_count: u32, variable_count: bool) -> Option<DescriptorDesc> {
    Some(DescriptorDesc {
        ty,
        descriptor_count,
        variable_count,
        stages: ShaderStages {
            vertex: true,
            tessellation_control: false,
            tessellation_evaluation: false,
            geometry: false,
            fragment: true,
            compute: false,
        },
        mutable: false,
    })
}

fn single(ty: DescriptorDescTy) -> Option<DescriptorDesc> {
    desc(ty, 1, false)
}

fn start(bindings: Vec<Option<DescriptorDesc>>) -> DescriptorSetBuilder {
    let layout = DescriptorSetLayout::new(3, builder_device(), DescriptorSetDesc::new(bindings).unwrap());
    DescriptorSetBuilder::start(Arc::new(layout))
}

fn usage(uniform: bool, storage: bool) -> BufferUsage {
    BufferUsage {
        uniform_texel_buffer: uniform,
        storage_texel_buffer: storage,
        uniform_buffer: uniform,
        storage_buffer: storage,
    }
}

fn uniform_buffer(handle: u64) -> BufferInfo {
    BufferInfo { handle, device: DEVICE, usage: usage(true, false) }
}

fn storage_buffer(handle: u64) -> BufferInfo {
    BufferInfo { handle, device: DEVICE, usage: usage(false, true) }
}

fn image_desc() -> DescriptorDescImage {
    DescriptorDescImage {
        array_layers: DescriptorDescImageArray::NonArrayed,
        format: Some(ash::vk::Format::R8G8B8A8_UNORM),
        multisampled: false,
        view_type: ImageViewType::Dim2d,
    }
}

fn image_view() -> ImageViewInfo {
    ImageViewInfo {
        handle: 40,
        device: DEVICE,
        format: ash::vk::Format::R8G8B8A8_UNORM,
        view_type: ImageViewType::Dim2d,
        samples: 1,
        array_layers: 1,
        usage: ImageUsage { sampled: true, storage: true, input_attachment: true },
        identity_swizzle: true,
    }
}

fn sampler() -> SamplerInfo {
    SamplerInfo { handle: 50, device: DEVICE }
}

#[test]
fn formats_are_compared_by_their_code() {
    assert!(same_format(ash::vk::Format::R8G8B8A8_UNORM, ash::vk::Format::from_raw(37)));
    assert!(!same_format(ash::vk::Format::R8G8B8A8_UNORM, ash::vk::Format::D32_SFLOAT));
    assert!(same_format(ash::vk::Format::UNDEFINED, ash::vk::Format::default()));
}

#[test]
fn builder_fills_one_binding_for_each_resource() {
    let mut builder = start(vec![
        single(DescriptorDescTy::UniformBuffer),
        single(DescriptorDescTy::StorageBuffer),
    ]);
    assert!(builder.add_buffer(uniform_buffer(1)).is_ok());
    assert!(builder.add_buffer(storage_buffer(2)).is_ok());
    let output = builder.build().unwrap();
    let writes = output.writes();
    assert_eq!(writes.len(), 2);
    assert_eq!((writes[0].binding, writes[0].array_element), (0, 0));
    assert_eq!((writes[1].binding, writes[1].array_element), (1, 0));
    assert!(matches!(writes[0].resource, DescriptorResource::Buffer(buffer) if buffer.handle == 1));
    assert!(matches!(writes[1].resource, DescriptorResource::Buffer(buffer) if buffer.handle == 2));
    assert_eq!(output.layout().handle(), 3);
}

#[test]
fn one_descriptor_too_many_is_refused() {
    let mut builder = start(vec![
        single(DescriptorDescTy::UniformBuffer),
        single(DescriptorDescTy::UniformBuffer),
        single(DescriptorDescTy::UniformBuffer),
    ]);
    for handle in 0..3 {
        assert!(builder.add_buffer(uniform_buffer(handle)).is_ok());
    }
    assert!(matches!(
        builder.add_buffer(uniform_buffer(3)),
        Err(DescriptorSetError::TooManyDescriptors)
    ));
}

#[test]
fn nothing_can_be_added_to_a_layout_without_bindings() {
    let mut builder = start(Vec::new());
    assert!(matches!(
        builder.add_buffer(uniform_buffer(0)),
        Err(DescriptorSetError::TooManyDescriptors)
    ));
    let mut builder = start(Vec::new());
    assert!(matches!(builder.enter_array(), Err(DescriptorSetError::TooManyDescriptors)));
    let mut builder = start(Vec::new());
    assert!(matches!(builder.add_empty(), Err(DescriptorSetError::TooManyDescriptors)));
    assert!(start(Vec::new()).build().is_ok());
}

#[test]
fn finishing_early_reports_the_missing_descriptors() {
    let bindings = vec![
        single(DescriptorDescTy::UniformBuffer),
        single(DescriptorDescTy::UniformBuffer),
        single(DescriptorDescTy::UniformBuffer),
    ];
    let builder = start(bindings.clone());
    assert!(matches!(
        builder.build(),
        Err(DescriptorSetError::DescriptorsMissing { expected: 3, obtained: 0 })
    ));
    let mut builder = start(bindings);
    assert!(builder.add_buffer(uniform_buffer(0)).is_ok());
    assert!(builder.add_buffer(uniform_buffer(1)).is_ok());
    assert!(matches!(
        builder.build(),
        Err(DescriptorSetError::DescriptorsMissing { expected: 3, obtained: 2 })
    ));
}

#[test]
fn a_failed_operation_poisons_the_builder() {
    let mut builder = start(vec![single(DescriptorDescTy::UniformBuffer)]);
    assert!(matches!(
        builder.add_buffer(storage_buffer(0)),
        Err(DescriptorSetError::MissingBufferUsage(MissingBufferUsage::UniformBuffer))
    ));
    assert!(matches!(
        builder.add_buffer(uniform_buffer(0)),
        Err(DescriptorSetError::BuilderPoisoned)
    ));
    assert!(matches!(builder.enter_array(), Err(DescriptorSetError::BuilderPoisoned)));
    assert!(matches!(builder.leave_array(), Err(DescriptorSetError::BuilderPoisoned)));
    assert!(matches!(builder.add_empty(), Err(DescriptorSetError::BuilderPoisoned)));
    assert!(matches!(builder.build(), Err(DescriptorSetError::BuilderPoisoned)));
}

#[test]
fn resource_of_another_device_is_refused() {
    let mut builder = start(vec![single(DescriptorDescTy::UniformBuffer)]);
    let foreign = BufferInfo { handle: 1, device: DEVICE + 1, usage: usage(true, true) };
    assert!(matches!(builder.add_buffer(foreign), Err(DescriptorSetError::ResourceWrongDevice)));
    let mut builder = start(vec![single(DescriptorDescTy::CombinedImageSampler {
        image_desc: image_desc(),
        immutable_samplers: false,
    })]);
    let foreign_sampler = SamplerInfo { handle: 50, device: DEVICE + 1 };
    assert!(matches!(
        builder.add_sampled_image(image_view(), foreign_sampler),
        Err(DescriptorSetError::ResourceWrongDevice)
    ));
}

#[test]
fn empty_binding_must_be_skipped() {
    let mut builder = start(vec![None, single(DescriptorDescTy::UniformBuffer)]);
    assert!(matches!(
        builder.add_buffer(uniform_buffer(0)),
        Err(DescriptorSetError::DescriptorIsEmpty)
    ));
    let mut builder = start(vec![None, single(DescriptorDescTy::UniformBuffer)]);
    assert!(builder.add_empty().is_ok());
    assert!(matches!(builder.add_empty(), Err(DescriptorSetError::WrongDescriptorType)));
    let mut builder = start(vec![None, single(DescriptorDescTy::UniformBuffer)]);
    assert!(builder.add_empty().is_ok());
    assert!(builder.add_buffer(uniform_buffer(0)).is_ok());
    let output = builder.build().unwrap();
    assert_eq!(output.writes().len(), 1);
    assert_eq!(output.writes()[0].binding, 1);
    assert_eq!(*output.counts(), vec![0, 1]);
}

#[test]
fn array_must_have_the_declared_length() {
    let bindings = vec![desc(DescriptorDescTy::StorageBuffer, 3, false)];
    let mut builder = start(bindings.clone());
    assert!(builder.enter_array().is_ok());
    for handle in 0..3 {
        assert!(builder.add_buffer(storage_buffer(handle)).is_ok());
    }
    assert!(builder.leave_array().is_ok());
    let output = builder.build().unwrap();
    let places: Vec<(u32, u32)> =
        output.writes().iter().map(|w| (w.binding, w.array_element)).collect();
    assert_eq!(places, vec![(0, 0), (0, 1), (0, 2)]);
    assert_eq!(*output.counts(), vec![3]);

    let mut builder = start(bindings.clone());
    assert!(builder.enter_array().is_ok());
    assert!(builder.add_buffer(storage_buffer(0)).is_ok());
    assert!(builder.add_buffer(storage_buffer(1)).is_ok());
    assert!(matches!(
        builder.leave_array(),
        Err(DescriptorSetError::ArrayLengthMismatch { expected: 3, obtained: 2 })
    ));

    let mut builder = start(bindings.clone());
    assert!(builder.enter_array().is_ok());
    for handle in 0..4 {
        assert!(builder.add_buffer(storage_buffer(handle)).is_ok());
    }
    assert!(matches!(
        builder.leave_array(),
        Err(DescriptorSetError::ArrayLengthMismatch { expected: 3, obtained: 4 })
    ));

    // A resource outside of an array is an array of one.
    let mut builder = start(bindings);
    assert!(matches!(
        builder.add_buffer(storage_buffer(0)),
        Err(DescriptorSetError::ArrayLengthMismatch { expected: 3, obtained: 1 })
    ));
}

#[test]
fn runtime_array_has_a_capacity() {
    let bindings = vec![desc(DescriptorDescTy::StorageBuffer, 2, true)];
    let mut builder = start(bindings.clone());
    assert!(builder.enter_array().is_ok());
    assert!(builder.leave_array().is_ok());
    assert!(builder.build().is_ok());

    let mut builder = start(bindings.clone());
    assert!(builder.enter_array().is_ok());
    assert!(builder.add_buffer(storage_buffer(0)).is_ok());
    assert!(builder.add_buffer(storage_buffer(1)).is_ok());
    assert!(builder.leave_array().is_ok());
    assert_eq!(builder.build().unwrap().writes().len(), 2);

    let mut builder = start(bindings);
    assert!(builder.enter_array().is_ok());
    for handle in 0..3 {
        assert!(builder.add_buffer(storage_buffer(handle)).is_ok());
    }
    assert!(matches!(
        builder.leave_array(),
        Err(DescriptorSetError::ArrayTooManyDescriptors { capacity: 2, obtained: 3 })
    ));
}

#[test]
fn arrays_do_not_nest() {
    let mut builder = start(vec![desc(DescriptorDescTy::StorageBuffer, 2, false)]);
    assert!(builder.enter_array().is_ok());
    assert!(matches!(builder.enter_array(), Err(DescriptorSetError::AlreadyInArray)));
    let mut builder = start(vec![desc(DescriptorDescTy::StorageBuffer, 2, false)]);
    assert!(matches!(builder.leave_array(), Err(DescriptorSetError::NotInArray)));
    let mut builder = start(vec![None]);
    assert!(matches!(builder.enter_array(), Err(DescriptorSetError::DescriptorIsEmpty)));
    let mut builder = start(vec![desc(DescriptorDescTy::StorageBuffer, 2, false), None]);
    assert!(builder.enter_array().is_ok());
    assert!(matches!(builder.add_empty(), Err(DescriptorSetError::AlreadyInArray)));
    let mut builder = start(vec![desc(DescriptorDescTy::StorageBuffer, 2, false)]);
    assert!(builder.enter_array().is_ok());
    assert!(matches!(builder.build(), Err(DescriptorSetError::AlreadyInArray)));
}

#[test]
fn buffer_needs_the_usage_of_its_descriptor() {
    let buffer = DescriptorResource::Buffer(uniform_buffer(0));
    assert!(check_resource(&DescriptorDescTy::UniformBuffer, &buffer).is_ok());
    assert!(check_resource(&DescriptorDescTy::UniformBufferDynamic, &buffer).is_ok());
    assert!(matches!(
        check_resource(&DescriptorDescTy::StorageBuffer, &buffer),
        Err(DescriptorSetError::MissingBufferUsage(MissingBufferUsage::StorageBuffer))
    ));
    assert!(matches!(
        check_resource(&DescriptorDescTy::StorageBufferDynamic, &buffer),
        Err(DescriptorSetError::MissingBufferUsage(MissingBufferUsage::StorageBuffer))
    ));
    assert!(matches!(
        check_resource(&DescriptorDescTy::UniformTexelBuffer { format: None }, &buffer),
        Err(DescriptorSetError::WrongDescriptorType)
    ));
    let storage = DescriptorResource::Buffer(storage_buffer(0));
    assert!(matches!(
        check_resource(&DescriptorDescTy::UniformBuffer, &storage),
        Err(DescriptorSetError::MissingBufferUsage(MissingBufferUsage::UniformBuffer))
    ));
}

#[test]
fn buffer_view_needs_the_usage_of_its_descriptor() {
    let view = DescriptorResource::BufferView(BufferViewInfo {
        handle: 1,
        device: DEVICE,
        usage: usage(true, false),
    });
    assert!(check_resource(&DescriptorDescTy::UniformTexelBuffer { format: None }, &view).is_ok());
    assert!(matches!(
        check_resource(&DescriptorDescTy::StorageTexelBuffer { format: None }, &view),
        Err(DescriptorSetError::MissingBufferUsage(MissingBufferUsage::StorageTexelBuffer))
    ));
    assert!(matches!(
        check_resource(&DescriptorDescTy::UniformBuffer, &view),
        Err(DescriptorSetError::WrongDescriptorType)
    ));
    let storage = DescriptorResource::BufferView(BufferViewInfo {
        handle: 1,
        device: DEVICE,
        usage: usage(false, true),
    });
    assert!(matches!(
        check_resource(&DescriptorDescTy::UniformTexelBuffer { format: None }, &storage),
        Err(DescriptorSetError::MissingBufferUsage(MissingBufferUsage::UniformTexelBuffer))
    ));
}

#[test]
fn image_view_is_held_against_the_description() {
    assert!(image_match_desc(&image_view(), &image_desc()).is_ok());
    let view = ImageViewInfo { view_type: ImageViewType::Dim3d, ..image_view() };
    assert!(matches!(
        image_match_desc(&view, &image_desc()),
        Err(DescriptorSetError::ImageViewTypeMismatch {
            expected: ImageViewType::Dim2d,
            obtained: ImageViewType::Dim3d
        })
    ));
    let view = ImageViewInfo { format: ash::vk::Format::D32_SFLOAT, ..image_view() };
    match image_match_desc(&view, &image_desc()) {
        Err(DescriptorSetError::ImageViewFormatMismatch { expected, obtained }) => {
            assert_eq!(expected, ash::vk::Format::R8G8B8A8_UNORM);
            assert_eq!(obtained, ash::vk::Format::D32_SFLOAT);
        }
        _ => panic!("expected a format mismatch"),
    }
    let any_format = DescriptorDescImage { format: None, ..image_desc() };
    assert!(image_match_desc(&view, &any_format).is_ok());
    let view = ImageViewInfo { samples: 4, ..image_view() };
    assert!(matches!(
        image_match_desc(&view, &image_desc()),
        Err(DescriptorSetError::UnexpectedMultisampled)
    ));
    let multisampled = DescriptorDescImage { multisampled: true, ..image_desc() };
    assert!(image_match_desc(&view, &multisampled).is_ok());
    assert!(matches!(
        image_match_desc(&image_view(), &multisampled),
        Err(DescriptorSetError::ExpectedMultisampled)
    ));
    let view = ImageViewInfo { array_layers: 6, ..image_view() };
    assert!(matches!(
        image_match_desc(&view, &image_desc()),
        Err(DescriptorSetError::ArrayLayersMismatch { expected: 1, obtained: 6 })
    ));
    let arrayed = DescriptorDescImage {
        array_layers: DescriptorDescImageArray::Arrayed { max_layers: Some(4) },
        ..image_desc()
    };
    assert!(matches!(
        image_match_desc(&view, &arrayed),
        Err(DescriptorSetError::ArrayLayersMismatch { expected: 4, obtained: 6 })
    ));
    let unbounded = DescriptorDescImage {
        array_layers: DescriptorDescImageArray::Arrayed { max_layers: None },
        ..image_desc()
    };
    assert!(image_match_desc(&view, &unbounded).is_ok());
    // The geometry type is looked at before the format.
    let view = ImageViewInfo {
        view_type: ImageViewType::Cubemap,
        format: ash::vk::Format::D32_SFLOAT,
        ..image_view()
    };
    assert!(matches!(
        image_match_desc(&view, &image_desc()),
        Err(DescriptorSetError::ImageViewTypeMismatch { .. })
    ));
}

#[test]
fn image_needs_the_usage_of_its_descriptor() {
    let sampled = DescriptorDescTy::SampledImage { image_desc: image_desc() };
    let storage = DescriptorDescTy::StorageImage { image_desc: image_desc() };
    let input = DescriptorDescTy::InputAttachment { multisampled: false };
    let no_usage = ImageViewInfo {
        usage: ImageUsage { sampled: false, storage: false, input_attachment: false },
        ..image_view()
    };
    let image = DescriptorResource::ImageView(image_view());
    let unusable = DescriptorResource::ImageView(no_usage);
    assert!(check_resource(&sampled, &image).is_ok());
    assert!(check_resource(&storage, &image).is_ok());
    assert!(check_resource(&input, &image).is_ok());
    assert!(matches!(
        check_resource(&sampled, &unusable),
        Err(DescriptorSetError::MissingImageUsage(MissingImageUsage::Sampled))
    ));
    assert!(matches!(
        check_resource(&storage, &unusable),
        Err(DescriptorSetError::MissingImageUsage(MissingImageUsage::Storage))
    ));
    assert!(matches!(
        check_resource(&input, &unusable),
        Err(DescriptorSetError::MissingImageUsage(MissingImageUsage::InputAttachment))
    ));
    assert!(matches!(
        check_resource(&DescriptorDescTy::UniformBuffer, &image),
        Err(DescriptorSetError::WrongDescriptorType)
    ));
    let swizzled = DescriptorResource::ImageView(ImageViewInfo {
        identity_swizzle: false,
        ..image_view()
    });
    assert!(check_resource(&sampled, &swizzled).is_ok());
    assert!(matches!(
        check_resource(&storage, &swizzled),
        Err(DescriptorSetError::NotIdentitySwizzled)
    ));
    assert!(matches!(
        check_resource(&input, &swizzled),
        Err(DescriptorSetError::NotIdentitySwizzled)
    ));
    let layered = DescriptorResource::ImageView(ImageViewInfo { array_layers: 2, ..image_view() });
    assert!(matches!(check_resource(&input, &layered), Err(DescriptorSetError::UnexpectedArrayed)));
    let multisampled = DescriptorResource::ImageView(ImageViewInfo { samples: 4, ..image_view() });
    assert!(matches!(
        check_resource(&input, &multisampled),
        Err(DescriptorSetError::UnexpectedMultisampled)
    ));
    assert!(matches!(
        check_resource(&DescriptorDescTy::InputAttachment { multisampled: true }, &image),
        Err(DescriptorSetError::ExpectedMultisampled)
    ));
}

#[test]
fn immutable_sampler_takes_no_sampler() {
    let immutable = DescriptorDescTy::Sampler { immutable_samplers: true };
    let mutable = DescriptorDescTy::Sampler { immutable_samplers: false };
    let resource = DescriptorResource::Sampler(sampler());
    assert!(check_resource(&mutable, &resource).is_ok());
    assert!(matches!(
        check_resource(&immutable, &resource),
        Err(DescriptorSetError::SamplerIsImmutable)
    ));
    assert!(matches!(
        check_resource(&DescriptorDescTy::UniformBuffer, &resource),
        Err(DescriptorSetError::WrongDescriptorType)
    ));
    let combined =
        DescriptorDescTy::CombinedImageSampler { image_desc: image_desc(), immutable_samplers: true };
    let separate =
        DescriptorDescTy::CombinedImageSampler { image_desc: image_desc(), immutable_samplers: false };
    let with_sampler = DescriptorResource::ImageViewSampler(image_view(), sampler());
    let without = DescriptorResource::ImageView(image_view());
    assert!(matches!(
        check_resource(&combined, &with_sampler),
        Err(DescriptorSetError::SamplerIsImmutable)
    ));
    assert!(check_resource(&combined, &without).is_ok());
    assert!(check_resource(&separate, &with_sampler).is_ok());
    assert!(matches!(
        check_resource(&separate, &without),
        Err(DescriptorSetError::WrongDescriptorType)
    ));
    assert!(matches!(
        check_resource(&DescriptorDescTy::SampledImage { image_desc: image_desc() }, &with_sampler),
        Err(DescriptorSetError::WrongDescriptorType)
    ));
}

#[test]
fn builder_takes_every_kind_of_resource() {
    let mut builder = start(vec![
        single(DescriptorDescTy::Sampler { immutable_samplers: false }),
        single(DescriptorDescTy::CombinedImageSampler {
            image_desc: image_desc(),
            immutable_samplers: false,
        }),
        single(DescriptorDescTy::SampledImage { image_desc: image_desc() }),
        single(DescriptorDescTy::UniformTexelBuffer { format: None }),
        single(DescriptorDescTy::StorageBufferDynamic),
    ]);
    assert!(builder.add_sampler(sampler()).is_ok());
    assert!(builder.add_sampled_image(image_view(), sampler()).is_ok());
    assert!(builder.add_image(image_view()).is_ok());
    assert!(builder
        .add_buffer_view(BufferViewInfo { handle: 9, device: DEVICE, usage: usage(true, false) })
        .is_ok());
    assert!(builder.add(DescriptorResource::Buffer(storage_buffer(4))).is_ok());
    assert_eq!(builder.layout().num_bindings(), 5);
    let output = builder.build().unwrap();
    let bindings: Vec<u32> = output.writes().iter().map(|w| w.binding).collect();
    assert_eq!(bindings, vec![0, 1, 2, 3, 4]);
    assert!(matches!(output.writes()[0].resource, DescriptorResource::Sampler(s) if s.handle == 50));
    assert!(matches!(
        output.writes()[1].resource,
        DescriptorResource::ImageViewSampler(view, s) if view.handle == 40 && s.handle == 50
    ));
    assert!(matches!(output.writes()[2].resource, DescriptorResource::ImageView(v) if v.handle == 40));
    assert!(matches!(output.writes()[3].resource, DescriptorResource::BufferView(v) if v.handle == 9));
}

#[test]
fn resource_belongs_to_its_device() {
    assert!(DescriptorResource::Buffer(uniform_buffer(0)).belongs_to(DEVICE));
    assert!(!DescriptorResource::Buffer(uniform_buffer(0)).belongs_to(DEVICE + 1));
    assert!(DescriptorResource::ImageViewSampler(image_view(), sampler()).belongs_to(DEVICE));
    let foreign = ImageViewInfo { device: 1, ..image_view() };
    assert!(!DescriptorResource::ImageViewSampler(foreign, sampler()).belongs_to(DEVICE));
    assert!(!DescriptorResource::ImageView(foreign).belongs_to(DEVICE));
    assert!(DescriptorResource::Sampler(sampler()).belongs_to(DEVICE));
}

#[test]
fn built_set_conforms_to_its_layout() {
    let bindings = vec![
        single(DescriptorDescTy::UniformBuffer),
        None,
        desc(DescriptorDescTy::StorageBuffer, 3, true),
        desc(DescriptorDescTy::StorageBuffer, 2, false),
        desc(DescriptorDescTy::UniformBuffer, 4, true),
    ];
    let mut builder = start(bindings.clone());
    assert!(builder.add_buffer(uniform_buffer(1)).is_ok());
    assert!(builder.add_empty().is_ok());
    assert!(builder.enter_array().is_ok());
    assert!(builder.add_buffer(storage_buffer(2)).is_ok());
    assert!(builder.add_buffer(storage_buffer(3)).is_ok());
    assert!(builder.leave_array().is_ok());
    assert!(builder.enter_array().is_ok());
    assert!(builder.add_buffer(storage_buffer(4)).is_ok());
    assert!(builder.add_buffer(storage_buffer(5)).is_ok());
    assert!(builder.leave_array().is_ok());
    assert!(builder.enter_array().is_ok());
    assert!(builder.leave_array().is_ok());
    let output = builder.build().unwrap();
    let counts = output.counts().clone();
    assert_eq!(counts, vec![1, 0, 2, 2, 0]);
    let places: Vec<(u32, u32)> =
        output.writes().iter().map(|w| (w.binding, w.array_element)).collect();
    assert_eq!(places, vec![(0, 0), (2, 0), (2, 1), (3, 0), (3, 1)]);
    // Every place below the count of its binding is taken exactly once, and none beyond.
    for (binding, count) in counts.iter().enumerate() {
        for element in 0..*count {
            let taken = places.iter().filter(|p| **p == (binding as u32, element)).count();
            assert_eq!(taken, 1);
        }
        assert!(places.iter().all(|p| p.0 != binding as u32 || p.1 < *count));
        match bindings[binding] {
            None => assert_eq!(*count, 0),
            Some(desc) => {
                if desc.variable_count {
                    assert!(*count <= desc.descriptor_count);
                } else {
                    assert_eq!(*count, desc.descriptor_count);
                }
            }
        }
    }
    for write in output.writes().iter() {
        let desc = bindings[write.binding as usize].unwrap();
        assert!(check_resource(&desc.ty, &write.resource).is_ok());
        assert!(write.resource.belongs_to(DEVICE));
    }
}
