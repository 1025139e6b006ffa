//! Building a descriptor set: resources are added binding by binding, and
//! each is held against what the layout declares for its binding.

use crate::descriptor_set::layout::DescriptorDesc;
use crate::descriptor_set::layout::DescriptorDescImage;
use crate::descriptor_set::layout::DescriptorDescImageArray;
use crate::descriptor_set::layout::DescriptorDescTy;
use crate::descriptor_set::layout::DescriptorSetLayout;
use crate::descriptor_set::layout::MAX_BINDINGS;
use crate::descriptor_set::DescriptorSetError;
use crate::descriptor_set::MissingBufferUsage;
use crate::descriptor_set::MissingImageUsage;
use crate::image::format_code;
use crate::image::same_format;
use crate::image::ImageViewInfo;
use std::sync::Arc;
use vstd::prelude::*;

verus! {

/// How a buffer can be used in a descriptor.
#[derive(Debug, Copy, Clone, PartialEq, Eq, Hash, Structural)]
pub struct BufferUsage {
    pub uniform_texel_buffer: bool,
    pub storage_texel_buffer: bool,
    pub uniform_buffer: bool,
    pub storage_buffer: bool,
}

/// What a descriptor set reads of a buffer that is bound to it.
#[derive(Debug, Copy, Clone, PartialEq, Eq, Hash, Structural)]
pub struct BufferInfo {
    /// The number that identifies the native buffer.
    pub handle: u64,
    /// The number that identifies the device of the buffer.
    pub device: u64,
    /// How the buffer can be used.
    pub usage: BufferUsage,
}

/// What a descriptor set reads of a buffer view that is bound to it.
#[derive(Debug, Copy, Clone, PartialEq, Eq, Hash, Structural)]
pub struct BufferViewInfo {
    /// The number that identifies the native buffer view.
    pub handle: u64,
    /// The number that identifies the device of the buffer.
    pub device: u64,
    /// How the buffer of the view can be used.
    pub usage: BufferUsage,
}

/// What a descriptor set reads of a sampler that is bound to it.
#[derive(Debug, Copy, Clone, PartialEq, Eq, Hash, Structural)]
pub struct SamplerInfo {
    /// The number that identifies the native sampler.
    pub handle: u64,
    /// The number that identifies the device of the sampler.
    pub device: u64,
}

/// A resource that can be bound to a descriptor.
#[derive(Debug, Copy, Clone)]
pub enum DescriptorResource {
    Buffer(BufferInfo),
    BufferView(BufferViewInfo),
    ImageView(ImageViewInfo),
    ImageViewSampler(ImageViewInfo, SamplerInfo),
    Sampler(SamplerInfo),
}

impl DescriptorResource {
    /// Whether every part of the resource belongs to the device that
    /// `device` identifies.
    pub open spec fn spec_belongs_to(self, device: u64) -> bool {
        match self {
            DescriptorResource::Buffer(buffer) => buffer.device == device,
            DescriptorResource::BufferView(view) => view.device == device,
            DescriptorResource::ImageView(view) => view.device == device,
            DescriptorResource::ImageViewSampler(view, sampler) => view.device == device
                && sampler.device == device,
            DescriptorResource::Sampler(sampler) => sampler.device == device,
        }
    }

    /// Tells whether every part of the resource belongs to the device that
    /// `device` identifies.
    pub fn belongs_to(&self, device: u64) -> (r: bool)
        ensures
            r == self.spec_belongs_to(device),
    {
        match self {
            DescriptorResource::Buffer(buffer) => buffer.device == device,
            DescriptorResource::BufferView(view) => view.device == device,
            DescriptorResource::ImageView(view) => view.device == device,
            DescriptorResource::ImageViewSampler(view, sampler) => view.device == device
                && sampler.device == device,
            DescriptorResource::Sampler(sampler) => sampler.device == device,
        }
    }
}

/// One resource in its place in a set: an array element of a binding.
#[derive(Debug, Copy, Clone)]
pub struct DescriptorWrite {
    /// The number of the binding.
    pub binding: u32,
    /// The position of the resource in the array of the binding.
    pub array_element: u32,
    /// The resource.
    pub resource: DescriptorResource,
}

/// What is wrong with the samples of an image, if anything: a multisampled
/// image is expected to have more than one sample for each texel, and
/// another image exactly one.
pub open spec fn samples_error(multisampled: bool, samples: u32) -> Option<DescriptorSetError> {
    if multisampled && samples == 1 {
        Some(DescriptorSetError::ExpectedMultisampled)
    } else if !multisampled && samples != 1 {
        Some(DescriptorSetError::UnexpectedMultisampled)
    } else {
        None
    }
}

/// What is wrong with the number of layers of an image view, if anything.
pub open spec fn array_layers_error(expected: DescriptorDescImageArray, layers: u32) -> Option<
    DescriptorSetError,
> {
    match expected {
        DescriptorDescImageArray::NonArrayed => if layers != 1 {
            Some(DescriptorSetError::ArrayLayersMismatch { expected: 1, obtained: layers })
        } else {
            None
        },
        DescriptorDescImageArray::Arrayed { max_layers: Some(max) } => if layers > max {
            Some(DescriptorSetError::ArrayLayersMismatch { expected: max, obtained: layers })
        } else {
            None
        },
        DescriptorDescImageArray::Arrayed { max_layers: None } => None,
    }
}

/// The first thing in which an image view differs from what a descriptor
/// declares of its image, if there is one: the geometry type, then the
/// format where the descriptor names one, then the samples, then the number
/// of array layers.
pub open spec fn image_mismatch(view: ImageViewInfo, desc: DescriptorDescImage) -> Option<
    DescriptorSetError,
> {
    if view.view_type != desc.view_type {
        Some(
            DescriptorSetError::ImageViewTypeMismatch {
                expected: desc.view_type,
                obtained: view.view_type,
            },
        )
    } else if desc.format matches Some(format) && format_code(view.format) != format_code(format) {
        Some(
            DescriptorSetError::ImageViewFormatMismatch {
                expected: desc.format->0,
                obtained: view.format,
            },
        )
    } else if samples_error(desc.multisampled, view.samples) is Some {
        samples_error(desc.multisampled, view.samples)
    } else {
        array_layers_error(desc.array_layers, view.array_layers)
    }
}

/// Holds an image view against what a descriptor declares of its image.
pub fn image_match_desc(view: &ImageViewInfo, desc: &DescriptorDescImage) -> (r: Result<
    (),
    DescriptorSetError,
>)
    ensures
        r is Ok <==> image_mismatch(*view, *desc) is None,
        r matches Err(error) ==> image_mismatch(*view, *desc) == Some(error),
{
    if view.view_type != desc.view_type {
        return Err(
            DescriptorSetError::ImageViewTypeMismatch {
                expected: desc.view_type,
                obtained: view.view_type,
            },
        );
    }
    if let Some(format) = desc.format {
        if !same_format(view.format, format) {
            return Err(
                DescriptorSetError::ImageViewFormatMismatch {
                    expected: format,
                    obtained: view.format,
                },
            );
        }
    }
    if desc.multisampled && view.samples == 1 {
        return Err(DescriptorSetError::ExpectedMultisampled);
    } else if !desc.multisampled && view.samples != 1 {
        return Err(DescriptorSetError::UnexpectedMultisampled);
    }
    match desc.array_layers {
        DescriptorDescImageArray::NonArrayed => {
            if view.array_layers != 1 {
                return Err(
                    DescriptorSetError::ArrayLayersMismatch {
                        expected: 1,
                        obtained: view.array_layers,
                    },
                );
            }
        },
        DescriptorDescImageArray::Arrayed { max_layers: Some(max) } => {
            if view.array_layers > max {
                return Err(
                    DescriptorSetError::ArrayLayersMismatch {
                        expected: max,
                        obtained: view.array_layers,
                    },
                );
            }
        },
        DescriptorDescImageArray::Arrayed { max_layers: None } => {},
    }
    Ok(())
}

/// Why a buffer cannot be bound to a descriptor of type `ty`, if it cannot:
/// the descriptor is not one for buffers, or the buffer lacks the usage
/// that the descriptor needs.
pub open spec fn buffer_mismatch(ty: DescriptorDescTy, usage: BufferUsage) -> Option<
    DescriptorSetError,
> {
    if ty is StorageBuffer || ty is StorageBufferDynamic {
        if usage.storage_buffer {
            None
        } else {
            Some(DescriptorSetError::MissingBufferUsage(MissingBufferUsage::StorageBuffer))
        }
    } else if ty is UniformBuffer || ty is UniformBufferDynamic {
        if usage.uniform_buffer {
            None
        } else {
            Some(DescriptorSetError::MissingBufferUsage(MissingBufferUsage::UniformBuffer))
        }
    } else {
        Some(DescriptorSetError::WrongDescriptorType)
    }
}

/// Why a buffer view cannot be bound to a descriptor of type `ty`, if it
/// cannot.
pub open spec fn buffer_view_mismatch(ty: DescriptorDescTy, usage: BufferUsage) -> Option<
    DescriptorSetError,
> {
    if ty is StorageTexelBuffer {
        if usage.storage_texel_buffer {
            None
        } else {
            Some(DescriptorSetError::MissingBufferUsage(MissingBufferUsage::StorageTexelBuffer))
        }
    } else if ty is UniformTexelBuffer {
        if usage.uniform_texel_buffer {
            None
        } else {
            Some(DescriptorSetError::MissingBufferUsage(MissingBufferUsage::UniformTexelBuffer))
        }
    } else {
        Some(DescriptorSetError::WrongDescriptorType)
    }
}

/// Why an image view without a sampler cannot be bound to a descriptor of
/// type `ty`, if it cannot. A descriptor that combines an image with a
/// sampler takes an image alone only if its samplers are part of the
/// layout.
pub open spec fn image_view_mismatch(ty: DescriptorDescTy, view: ImageViewInfo) -> Option<
    DescriptorSetError,
> {
    match ty {
        DescriptorDescTy::CombinedImageSampler { image_desc, immutable_samplers } => {
            if !immutable_samplers {
                Some(DescriptorSetError::WrongDescriptorType)
            } else if !view.usage.sampled {
                Some(DescriptorSetError::MissingImageUsage(MissingImageUsage::Sampled))
            } else {
                image_mismatch(view, image_desc)
            }
        },
        DescriptorDescTy::SampledImage { image_desc } => {
            if !view.usage.sampled {
                Some(DescriptorSetError::MissingImageUsage(MissingImageUsage::Sampled))
            } else {
                image_mismatch(view, image_desc)
            }
        },
        DescriptorDescTy::StorageImage { image_desc } => {
            if !view.usage.storage {
                Some(DescriptorSetError::MissingImageUsage(MissingImageUsage::Storage))
            } else if image_mismatch(view, image_desc) is Some {
                image_mismatch(view, image_desc)
            } else if !view.identity_swizzle {
                Some(DescriptorSetError::NotIdentitySwizzled)
            } else {
                None
            }
        },
        DescriptorDescTy::InputAttachment { multisampled } => {
            if !view.usage.input_attachment {
                Some(DescriptorSetError::MissingImageUsage(MissingImageUsage::InputAttachment))
            } else if !view.identity_swizzle {
                Some(DescriptorSetError::NotIdentitySwizzled)
            } else if samples_error(multisampled, view.samples) is Some {
                samples_error(multisampled, view.samples)
            } else if view.array_layers != 1 {
                Some(DescriptorSetError::UnexpectedArrayed)
            } else {
                None
            }
        },
        _ => Some(DescriptorSetError::WrongDescriptorType),
    }
}

/// Why an image view with a sampler cannot be bound to a descriptor of type
/// `ty`, if it cannot.
pub open spec fn image_view_sampler_mismatch(ty: DescriptorDescTy, view: ImageViewInfo) -> Option<
    DescriptorSetError,
> {
    match ty {
        DescriptorDescTy::CombinedImageSampler { image_desc, immutable_samplers } => {
            if immutable_samplers {
                Some(DescriptorSetError::SamplerIsImmutable)
            } else if !view.usage.sampled {
                Some(DescriptorSetError::MissingImageUsage(MissingImageUsage::Sampled))
            } else {
                image_mismatch(view, image_desc)
            }
        },
        _ => Some(DescriptorSetError::WrongDescriptorType),
    }
}

/// Why a sampler cannot be bound to a descriptor of type `ty`, if it
/// cannot.
pub open spec fn sampler_mismatch(ty: DescriptorDescTy) -> Option<DescriptorSetError> {
    match ty {
        DescriptorDescTy::Sampler { immutable_samplers } => {
            if immutable_samplers {
                Some(DescriptorSetError::SamplerIsImmutable)
            } else {
                None
            }
        },
        _ => Some(DescriptorSetError::WrongDescriptorType),
    }
}

/// Why a resource cannot be bound to a descriptor of type `ty`, if it
/// cannot.
pub open spec fn resource_mismatch(ty: DescriptorDescTy, resource: DescriptorResource) -> Option<
    DescriptorSetError,
> {
    match resource {
        DescriptorResource::Buffer(buffer) => buffer_mismatch(ty, buffer.usage),
        DescriptorResource::BufferView(view) => buffer_view_mismatch(ty, view.usage),
        DescriptorResource::ImageView(view) => image_view_mismatch(ty, view),
        DescriptorResource::ImageViewSampler(view, _) => image_view_sampler_mismatch(ty, view),
        DescriptorResource::Sampler(_) => sampler_mismatch(ty),
    }
}

/// Holds the number of samples of an image against what is expected.
fn check_samples(multisampled: bool, samples: u32) -> (r: Result<(), DescriptorSetError>)
    ensures
        r is Ok <==> samples_error(multisampled, samples) is None,
        r matches Err(error) ==> samples_error(multisampled, samples) == Some(error),
{
    if multisampled && samples == 1 {
        Err(DescriptorSetError::ExpectedMultisampled)
    } else if !multisampled && samples != 1 {
        Err(DescriptorSetError::UnexpectedMultisampled)
    } else {
        Ok(())
    }
}

/// Holds an image view without a sampler against the type of the descriptor
/// that it is to be bound to.
fn check_image_view(ty: &DescriptorDescTy, view: &ImageViewInfo) -> (r: Result<
    (),
    DescriptorSetError,
>)
    ensures
        r is Ok <==> image_view_mismatch(*ty, *view) is None,
        r matches Err(error) ==> image_view_mismatch(*ty, *view) == Some(error),
{
    match ty {
        DescriptorDescTy::CombinedImageSampler { image_desc, immutable_samplers } => {
            if !*immutable_samplers {
                return Err(DescriptorSetError::WrongDescriptorType);
            }
            if !view.usage.sampled {
                return Err(DescriptorSetError::MissingImageUsage(MissingImageUsage::Sampled));
            }
            image_match_desc(view, image_desc)
        },
        DescriptorDescTy::SampledImage { image_desc } => {
            if !view.usage.sampled {
                return Err(DescriptorSetError::MissingImageUsage(MissingImageUsage::Sampled));
            }
            image_match_desc(view, image_desc)
        },
        DescriptorDescTy::StorageImage { image_desc } => {
            if !view.usage.storage {
                return Err(DescriptorSetError::MissingImageUsage(MissingImageUsage::Storage));
            }
            image_match_desc(view, image_desc)?;
            if !view.identity_swizzle {
                return Err(DescriptorSetError::NotIdentitySwizzled);
            }
            Ok(())
        },
        DescriptorDescTy::InputAttachment { multisampled } => {
            if !view.usage.input_attachment {
                return Err(
                    DescriptorSetError::MissingImageUsage(MissingImageUsage::InputAttachment),
                );
            }
            if !view.identity_swizzle {
                return Err(DescriptorSetError::NotIdentitySwizzled);
            }
            check_samples(*multisampled, view.samples)?;
            if view.array_layers != 1 {
                return Err(DescriptorSetError::UnexpectedArrayed);
            }
            Ok(())
        },
        _ => Err(DescriptorSetError::WrongDescriptorType),
    }
}

/// Holds a resource against the type of the descriptor that it is to be
/// bound to.
pub fn check_resource(ty: &DescriptorDescTy, resource: &DescriptorResource) -> (r: Result<
    (),
    DescriptorSetError,
>)
    ensures
        r is Ok <==> resource_mismatch(*ty, *resource) is None,
        r matches Err(error) ==> resource_mismatch(*ty, *resource) == Some(error),
{
    match resource {
        DescriptorResource::Buffer(buffer) => match ty {
            DescriptorDescTy::StorageBuffer | DescriptorDescTy::StorageBufferDynamic => {
                if !buffer.usage.storage_buffer {
                    return Err(
                        DescriptorSetError::MissingBufferUsage(MissingBufferUsage::StorageBuffer),
                    );
                }
                Ok(())
            },
            DescriptorDescTy::UniformBuffer | DescriptorDescTy::UniformBufferDynamic => {
                if !buffer.usage.uniform_buffer {
                    return Err(
                        DescriptorSetError::MissingBufferUsage(MissingBufferUsage::UniformBuffer),
                    );
                }
                Ok(())
            },
            _ => Err(DescriptorSetError::WrongDescriptorType),
        },
        DescriptorResource::BufferView(view) => match ty {
            DescriptorDescTy::StorageTexelBuffer { .. } => {
                if !view.usage.storage_texel_buffer {
                    return Err(
                        DescriptorSetError::MissingBufferUsage(
                            MissingBufferUsage::StorageTexelBuffer,
                        ),
                    );
                }
                Ok(())
            },
            DescriptorDescTy::UniformTexelBuffer { .. } => {
                if !view.usage.uniform_texel_buffer {
                    return Err(
                        DescriptorSetError::MissingBufferUsage(
                            MissingBufferUsage::UniformTexelBuffer,
                        ),
                    );
                }
                Ok(())
            },
            _ => Err(DescriptorSetError::WrongDescriptorType),
        },
        DescriptorResource::ImageView(view) => check_image_view(ty, view),
        DescriptorResource::ImageViewSampler(view, _) => match ty {
            DescriptorDescTy::CombinedImageSampler { image_desc, immutable_samplers } => {
                if *immutable_samplers {
                    return Err(DescriptorSetError::SamplerIsImmutable);
                }
                if !view.usage.sampled {
                    return Err(DescriptorSetError::MissingImageUsage(MissingImageUsage::Sampled));
                }
                image_match_desc(view, image_desc)
            },
            _ => Err(DescriptorSetError::WrongDescriptorType),
        },
        DescriptorResource::Sampler(_) => match ty {
            DescriptorDescTy::Sampler { immutable_samplers } => {
                if *immutable_samplers {
                    return Err(DescriptorSetError::SamplerIsImmutable);
                }
                Ok(())
            },
            _ => Err(DescriptorSetError::WrongDescriptorType),
        },
    }
}

/// The state of a builder, as a value.
pub struct BuilderState {
    /// Whether resources are being added to the array of one binding.
    pub in_array: bool,
    /// The number of the binding that the next resource goes to. The
    /// bindings before it are done.
    pub cur_binding: nat,
    /// The number of resources in the array of that binding so far.
    pub array_element: u32,
    /// The number of resources at each binding that is done.
    pub counts: Seq<u32>,
    /// The resources that were added, each in its place, in the order in
    /// which they were added.
    pub writes: Seq<DescriptorWrite>,
    /// Whether an operation has failed. Every later operation fails too.
    pub poisoned: bool,
}

/// Whether `count` resources are what a binding takes: none for an empty
/// binding, and an array of a length that the descriptor accepts for any
/// other.
pub open spec fn binding_filled(binding: Option<DescriptorDesc>, count: u32) -> bool {
    match binding {
        None => count == 0,
        Some(desc) => array_length_error(desc, count) is None,
    }
}

/// Whether a resource is in a place that the layout has for it: its
/// binding is a binding of the layout that is not empty, the resource fits
/// the descriptor of the binding, and it belongs to the device of the
/// layout.
pub open spec fn write_fits(
    bindings: Seq<Option<DescriptorDesc>>,
    device: u64,
    write: DescriptorWrite,
) -> bool {
    &&& write.binding < bindings.len()
    &&& bindings[write.binding as int] matches Some(desc)
    &&& resource_mismatch(desc.ty, write.resource) is None
    &&& write.resource.spec_belongs_to(device)
}

/// Whether the place of the one resource comes before the place of the
/// other: it is at an earlier binding, or earlier in the array of the same
/// binding.
pub open spec fn place_before(first: DescriptorWrite, second: DescriptorWrite) -> bool {
    ||| first.binding < second.binding
    ||| first.binding == second.binding && first.array_element < second.array_element
}

/// Whether a resource was added at the given place.
pub open spec fn has_write(writes: Seq<DescriptorWrite>, binding: int, element: int) -> bool {
    exists|i: int|
        0 <= i < writes.len() && (#[trigger] writes[i]).binding == binding
            && writes[i].array_element == element
}

/// The number of resources that were added at a binding so far.
pub open spec fn filled(state: BuilderState, binding: int) -> int {
    if 0 <= binding < state.counts.len() {
        state.counts[binding] as int
    } else if state.in_array && binding == state.cur_binding {
        state.array_element as int
    } else {
        0
    }
}

/// Whether the resources of `state` are in order: every binding that is
/// done has as many resources as it takes, every resource fits its place,
/// the places come in ascending order, and the places that are taken at a
/// binding are the first ones of its array.
pub open spec fn writes_valid(
    bindings: Seq<Option<DescriptorDesc>>,
    device: u64,
    state: BuilderState,
) -> bool {
    &&& state.counts.len() == state.cur_binding
    &&& forall|b: int|
        0 <= b < state.counts.len() ==> binding_filled(bindings[b], #[trigger] state.counts[b])
    &&& forall|i: int|
        0 <= i < state.writes.len() ==> write_fits(bindings, device, #[trigger] state.writes[i])
            && state.writes[i].array_element < filled(state, state.writes[i].binding as int)
    &&& forall|i: int, j: int|
        0 <= i < j < state.writes.len() ==> place_before(
            #[trigger] state.writes[i],
            #[trigger] state.writes[j],
        )
    &&& forall|b: int, k: int|
        0 <= b <= state.cur_binding && 0 <= k < filled(state, b) ==> #[trigger] has_write(
            state.writes,
            b,
            k,
        )
}

/// Whether `state` can be the state of a builder for a layout with
/// `bindings` on the device that `device` identifies.
pub open spec fn state_valid(
    bindings: Seq<Option<DescriptorDesc>>,
    device: u64,
    state: BuilderState,
) -> bool {
    &&& bindings.len() <= MAX_BINDINGS
    &&& state.cur_binding <= bindings.len()
    &&& state.in_array ==> state.cur_binding < bindings.len()
        && bindings[state.cur_binding as int] is Some
    &&& !state.in_array ==> state.array_element == 0
    &&& writes_valid(bindings, device, state)
}

/// The state of a builder that has just been started.
pub open spec fn initial_state() -> BuilderState {
    BuilderState {
        in_array: false,
        cur_binding: 0,
        array_element: 0,
        counts: Seq::empty(),
        writes: Seq::empty(),
        poisoned: false,
    }
}

/// What becomes of `state` when the array of the current binding is
/// entered.
pub open spec fn entered(bindings: Seq<Option<DescriptorDesc>>, state: BuilderState) -> Result<
    BuilderState,
    DescriptorSetError,
> {
    if state.poisoned {
        Err(DescriptorSetError::BuilderPoisoned)
    } else if state.in_array {
        Err(DescriptorSetError::AlreadyInArray)
    } else if state.cur_binding >= bindings.len() {
        Err(DescriptorSetError::TooManyDescriptors)
    } else if bindings[state.cur_binding as int] is None {
        Err(DescriptorSetError::DescriptorIsEmpty)
    } else {
        Ok(BuilderState { in_array: true, ..state })
    }
}

/// What is wrong with an array of `obtained` resources for a descriptor, if
/// anything: an array of variable length holds at most as many resources as
/// the descriptor declares, and any other array exactly as many.
pub open spec fn array_length_error(desc: DescriptorDesc, obtained: u32) -> Option<
    DescriptorSetError,
> {
    if desc.variable_count {
        if obtained > desc.descriptor_count {
            Some(
                DescriptorSetError::ArrayTooManyDescriptors {
                    capacity: desc.descriptor_count,
                    obtained,
                },
            )
        } else {
            None
        }
    } else if obtained != desc.descriptor_count {
        Some(
            DescriptorSetError::ArrayLengthMismatch { expected: desc.descriptor_count, obtained },
        )
    } else {
        None
    }
}

/// What becomes of `state` when the array of the current binding is left:
/// the binding is done if the array has the right length.
pub open spec fn left(bindings: Seq<Option<DescriptorDesc>>, state: BuilderState) -> Result<
    BuilderState,
    DescriptorSetError,
> {
    if state.poisoned {
        Err(DescriptorSetError::BuilderPoisoned)
    } else if !state.in_array {
        Err(DescriptorSetError::NotInArray)
    } else {
        match array_length_error(bindings[state.cur_binding as int]->0, state.array_element) {
            Some(error) => Err(error),
            None => Ok(
                BuilderState {
                    in_array: false,
                    cur_binding: state.cur_binding + 1,
                    array_element: 0,
                    counts: state.counts.push(state.array_element),
                    ..state
                },
            ),
        }
    }
}

/// What becomes of `state` when the current binding is skipped. Only an
/// empty binding can be skipped.
pub open spec fn skipped(bindings: Seq<Option<DescriptorDesc>>, state: BuilderState) -> Result<
    BuilderState,
    DescriptorSetError,
> {
    if state.poisoned {
        Err(DescriptorSetError::BuilderPoisoned)
    } else if state.in_array {
        Err(DescriptorSetError::AlreadyInArray)
    } else if state.cur_binding >= bindings.len() {
        Err(DescriptorSetError::TooManyDescriptors)
    } else if bindings[state.cur_binding as int] is Some {
        Err(DescriptorSetError::WrongDescriptorType)
    } else {
        Ok(
            BuilderState {
                cur_binding: state.cur_binding + 1,
                counts: state.counts.push(0),
                ..state
            },
        )
    }
}

/// What becomes of a state inside an array when `resource` is added to the
/// array: the resource must fit the descriptor, and the array must not hold
/// more resources than can be counted.
pub open spec fn appended(
    bindings: Seq<Option<DescriptorDesc>>,
    state: BuilderState,
    resource: DescriptorResource,
) -> Result<BuilderState, DescriptorSetError> {
    let desc = bindings[state.cur_binding as int]->0;
    match resource_mismatch(desc.ty, resource) {
        Some(error) => Err(error),
        None => if state.array_element == u32::MAX {
            Err(
                DescriptorSetError::ArrayTooManyDescriptors {
                    capacity: desc.descriptor_count,
                    obtained: state.array_element,
                },
            )
        } else {
            Ok(
                BuilderState {
                    array_element: (state.array_element + 1) as u32,
                    writes: state.writes.push(
                        DescriptorWrite {
                            binding: state.cur_binding as u32,
                            array_element: state.array_element,
                            resource,
                        },
                    ),
                    ..state
                },
            )
        },
    }
}

/// What becomes of `state` when `resource` is added for a layout with
/// `bindings` on the device that `device` identifies.
///
/// Inside an array the resource is added to the array. Outside of one it
/// makes an array of its own: the array of the current binding is entered,
/// the resource is added, and the array is left.
pub open spec fn added(
    bindings: Seq<Option<DescriptorDesc>>,
    device: u64,
    state: BuilderState,
    resource: DescriptorResource,
) -> Result<BuilderState, DescriptorSetError> {
    if state.poisoned {
        Err(DescriptorSetError::BuilderPoisoned)
    } else if !resource.spec_belongs_to(device) {
        Err(DescriptorSetError::ResourceWrongDevice)
    } else if state.in_array {
        appended(bindings, state, resource)
    } else {
        match entered(bindings, state) {
            Err(error) => Err(error),
            Ok(inside) => match appended(bindings, inside, resource) {
                Err(error) => Err(error),
                Ok(after) => left(bindings, after),
            },
        }
    }
}

/// What a finished builder stands for: every binding must be done.
pub open spec fn finished(bindings: Seq<Option<DescriptorDesc>>, state: BuilderState) -> Result<
    BuilderState,
    DescriptorSetError,
> {
    if state.poisoned {
        Err(DescriptorSetError::BuilderPoisoned)
    } else if state.in_array {
        Err(DescriptorSetError::AlreadyInArray)
    } else if state.cur_binding != bindings.len() {
        Err(
            DescriptorSetError::DescriptorsMissing {
                expected: bindings.len() as u32,
                obtained: state.cur_binding as u32,
            },
        )
    } else {
        Ok(state)
    }
}

/// What an operation leaves behind when it changes the state from `before`:
/// the new state where it succeeds, and the old state with the mark of
/// failure where it does not.
pub open spec fn after_operation(
    before: BuilderState,
    outcome: Result<BuilderState, DescriptorSetError>,
) -> BuilderState {
    match outcome {
        Ok(state) => state,
        Err(_) => BuilderState { poisoned: true, ..before },
    }
}

/// What an operation reports of its outcome.
pub open spec fn report(outcome: Result<BuilderState, DescriptorSetError>) -> Result<
    (),
    DescriptorSetError,
> {
    match outcome {
        Ok(_) => Ok(()),
        Err(error) => Err(error),
    }
}

/// Whether the resources in `writes` make up a set of the layout with
/// `bindings`, with `counts[b]` resources at binding `b`: every binding has
/// as many resources as it takes, the resources at a binding fill the
/// first places of its array, each of them fits the descriptor of the
/// binding, and no place is taken twice.
pub open spec fn conforms(
    bindings: Seq<Option<DescriptorDesc>>,
    device: u64,
    counts: Seq<u32>,
    writes: Seq<DescriptorWrite>,
) -> bool {
    &&& counts.len() == bindings.len()
    &&& forall|b: int| 0 <= b < bindings.len() ==> binding_filled(bindings[b], #[trigger] counts[b])
    &&& forall|i: int|
        0 <= i < writes.len() ==> write_fits(bindings, device, #[trigger] writes[i])
            && writes[i].array_element < counts[writes[i].binding as int]
    &&& forall|i: int, j: int|
        0 <= i < j < writes.len() ==> place_before(#[trigger] writes[i], #[trigger] writes[j])
    &&& forall|b: int, k: int|
        0 <= b < bindings.len() && 0 <= k < counts[b] ==> #[trigger] has_write(writes, b, k)
}

/// A resource that was added stays where it is when another is added.
proof fn lemma_has_write_push(
    writes: Seq<DescriptorWrite>,
    write: DescriptorWrite,
    binding: int,
    element: int,
)
    requires
        has_write(writes, binding, element) || (write.binding == binding && write.array_element
            == element),
    ensures
        has_write(writes.push(write), binding, element),
{
    let after = writes.push(write);
    if has_write(writes, binding, element) {
        let i = choose|i: int|
            0 <= i < writes.len() && (#[trigger] writes[i]).binding == binding
                && writes[i].array_element == element;
        assert(after[i] == writes[i]);
    } else {
        assert(after[writes.len() as int] == write);
    }
}

/// Every operation that succeeds leaves a valid state behind: whatever is
/// entered, left, skipped or added, the resources of the builder stay in
/// order.
pub proof fn lemma_operations_keep_valid(
    bindings: Seq<Option<DescriptorDesc>>,
    device: u64,
    state: BuilderState,
    resource: DescriptorResource,
)
    requires
        state_valid(bindings, device, state),
    ensures
        entered(bindings, state) matches Ok(after) ==> state_valid(bindings, device, after),
        left(bindings, state) matches Ok(after) ==> state_valid(bindings, device, after),
        skipped(bindings, state) matches Ok(after) ==> state_valid(bindings, device, after),
        added(bindings, device, state, resource) matches Ok(after) ==> state_valid(
            bindings,
            device,
            after,
        ),
        state_valid(bindings, device, BuilderState { poisoned: true, ..state }),
{
    lemma_entered_keeps_valid(bindings, device, state);
    lemma_left_keeps_valid(bindings, device, state);
    lemma_skipped_keeps_valid(bindings, device, state);
    let poisoned = BuilderState { poisoned: true, ..state };
    assert(writes_valid(bindings, device, poisoned)) by {
        assert forall|b: int, k: int| 0 <= b <= poisoned.cur_binding && 0 <= k < filled(
            poisoned,
            b,
        ) implies #[trigger] has_write(poisoned.writes, b, k) by {
            assert(filled(poisoned, b) == filled(state, b));
        }
        assert forall|i: int| 0 <= i < poisoned.writes.len() implies write_fits(
            bindings,
            device,
            #[trigger] poisoned.writes[i],
        ) && poisoned.writes[i].array_element < filled(
            poisoned,
            poisoned.writes[i].binding as int,
        ) by {
            assert(filled(poisoned, state.writes[i].binding as int) == filled(
                state,
                state.writes[i].binding as int,
            ));
        }
    }
    if let Ok(after) = added(bindings, device, state, resource) {
        if state.in_array {
            lemma_appended_keeps_valid(bindings, device, state, resource);
        } else {
            let inside = entered(bindings, state)->Ok_0;
            lemma_appended_keeps_valid(bindings, device, inside, resource);
            let filled_up = appended(bindings, inside, resource)->Ok_0;
            lemma_left_keeps_valid(bindings, device, filled_up);
        }
    }
}

/// Entering an array leaves a valid state behind.
proof fn lemma_entered_keeps_valid(
    bindings: Seq<Option<DescriptorDesc>>,
    device: u64,
    state: BuilderState,
)
    requires
        state_valid(bindings, device, state),
    ensures
        entered(bindings, state) matches Ok(after) ==> state_valid(bindings, device, after),
{
    if let Ok(after) = entered(bindings, state) {
        assert forall|b: int| filled(after, b) == filled(state, b) by {}
        assert forall|b: int, k: int| 0 <= b <= after.cur_binding && 0 <= k < filled(
            after,
            b,
        ) implies #[trigger] has_write(after.writes, b, k) by {
            assert(filled(after, b) == filled(state, b));
        }
        assert forall|i: int| 0 <= i < after.writes.len() implies write_fits(
            bindings,
            device,
            #[trigger] after.writes[i],
        ) && after.writes[i].array_element < filled(after, after.writes[i].binding as int) by {
            assert(filled(after, state.writes[i].binding as int) == filled(
                state,
                state.writes[i].binding as int,
            ));
        }
    }
}

/// Leaving an array leaves a valid state behind.
proof fn lemma_left_keeps_valid(
    bindings: Seq<Option<DescriptorDesc>>,
    device: u64,
    state: BuilderState,
)
    requires
        state_valid(bindings, device, state),
    ensures
        left(bindings, state) matches Ok(after) ==> state_valid(bindings, device, after),
{
    if let Ok(after) = left(bindings, state) {
        assert forall|b: int| 0 <= b <= state.cur_binding implies filled(after, b) == filled(
            state,
            b,
        ) by {}
        assert forall|b: int| 0 <= b < after.counts.len() implies binding_filled(
            bindings[b],
            #[trigger] after.counts[b],
        ) by {
            if b < state.counts.len() {
                assert(after.counts[b] == state.counts[b]);
            }
        }
        assert forall|b: int, k: int| 0 <= b <= after.cur_binding && 0 <= k < filled(
            after,
            b,
        ) implies #[trigger] has_write(after.writes, b, k) by {
            if b <= state.cur_binding {
                assert(filled(after, b) == filled(state, b));
            }
        }
        assert forall|i: int| 0 <= i < after.writes.len() implies write_fits(
            bindings,
            device,
            #[trigger] after.writes[i],
        ) && after.writes[i].array_element < filled(after, after.writes[i].binding as int) by {
            let b = state.writes[i].binding as int;
            assert(state.writes[i].array_element < filled(state, b));
            assert(b <= state.cur_binding);
            assert(filled(after, b) == filled(state, b));
        }
    }
}

/// Skipping an empty binding leaves a valid state behind.
proof fn lemma_skipped_keeps_valid(
    bindings: Seq<Option<DescriptorDesc>>,
    device: u64,
    state: BuilderState,
)
    requires
        state_valid(bindings, device, state),
    ensures
        skipped(bindings, state) matches Ok(after) ==> state_valid(bindings, device, after),
{
    if let Ok(after) = skipped(bindings, state) {
        assert forall|b: int| 0 <= b <= state.cur_binding implies filled(after, b) == filled(
            state,
            b,
        ) by {}
        assert forall|b: int| 0 <= b < after.counts.len() implies binding_filled(
            bindings[b],
            #[trigger] after.counts[b],
        ) by {
            if b < state.counts.len() {
                assert(after.counts[b] == state.counts[b]);
            }
        }
        assert forall|b: int, k: int| 0 <= b <= after.cur_binding && 0 <= k < filled(
            after,
            b,
        ) implies #[trigger] has_write(after.writes, b, k) by {
            if b <= state.cur_binding {
                assert(filled(after, b) == filled(state, b));
            }
        }
        assert forall|i: int| 0 <= i < after.writes.len() implies write_fits(
            bindings,
            device,
            #[trigger] after.writes[i],
        ) && after.writes[i].array_element < filled(after, after.writes[i].binding as int) by {
            let b = state.writes[i].binding as int;
            assert(state.writes[i].array_element < filled(state, b));
            assert(b <= state.cur_binding);
            assert(filled(after, b) == filled(state, b));
        }
    }
}

/// Adding a resource of the right device to an array leaves a valid state
/// behind.
proof fn lemma_appended_keeps_valid(
    bindings: Seq<Option<DescriptorDesc>>,
    device: u64,
    state: BuilderState,
    resource: DescriptorResource,
)
    requires
        state_valid(bindings, device, state),
        state.in_array,
        resource.spec_belongs_to(device),
    ensures
        appended(bindings, state, resource) matches Ok(after) ==> state_valid(
            bindings,
            device,
            after,
        ),
{
    if let Ok(after) = appended(bindings, state, resource) {
        let write = DescriptorWrite {
            binding: state.cur_binding as u32,
            array_element: state.array_element,
            resource,
        };
        assert(after.writes == state.writes.push(write));
        assert forall|b: int| filled(after, b) >= filled(state, b) by {}
        assert(filled(after, state.cur_binding as int) == state.array_element + 1);
        assert forall|i: int| 0 <= i < state.writes.len() implies place_before(
            state.writes[i],
            write,
        ) by {
            let b = state.writes[i].binding as int;
            assert(state.writes[i].array_element < filled(state, b));
        }
        assert forall|i: int, j: int| 0 <= i < j < after.writes.len() implies place_before(
            #[trigger] after.writes[i],
            #[trigger] after.writes[j],
        ) by {
            if j < state.writes.len() {
                assert(after.writes[i] == state.writes[i] && after.writes[j] == state.writes[j]);
            } else {
                assert(after.writes[i] == state.writes[i]);
                assert(after.writes[j] == write);
            }
        }
        assert forall|i: int| 0 <= i < after.writes.len() implies write_fits(
            bindings,
            device,
            #[trigger] after.writes[i],
        ) && after.writes[i].array_element < filled(after, after.writes[i].binding as int) by {
            if i < state.writes.len() {
                assert(after.writes[i] == state.writes[i]);
                let b = state.writes[i].binding as int;
                assert(state.writes[i].array_element < filled(state, b));
                assert(filled(after, b) >= filled(state, b));
            } else {
                assert(after.writes[i] == write);
            }
        }
        assert forall|b: int, k: int| 0 <= b <= after.cur_binding && 0 <= k < filled(
            after,
            b,
        ) implies #[trigger] has_write(after.writes, b, k) by {
            if b == state.cur_binding && k == state.array_element {
                lemma_has_write_push(state.writes, write, b, k);
            } else {
                assert(k < filled(state, b));
                assert(has_write(state.writes, b, k));
                lemma_has_write_push(state.writes, write, b, k);
            }
        }
    }
}

/// A set that was built conforms to its layout: a builder that is valid and
/// can be finished holds exactly the resources of a set of the layout.
pub proof fn lemma_finished_set_conforms(
    bindings: Seq<Option<DescriptorDesc>>,
    device: u64,
    state: BuilderState,
)
    requires
        state_valid(bindings, device, state),
        finished(bindings, state) is Ok,
    ensures
        conforms(bindings, device, state.counts, state.writes),
{
    assert forall|i: int| 0 <= i < state.writes.len() implies write_fits(
        bindings,
        device,
        #[trigger] state.writes[i],
    ) && state.writes[i].array_element < state.counts[state.writes[i].binding as int] by {
        let b = state.writes[i].binding as int;
        assert(state.writes[i].array_element < filled(state, b));
    }
    assert forall|b: int, k: int| 0 <= b < bindings.len() && 0 <= k < state.counts[b] implies
        #[trigger] has_write(state.writes, b, k) by {
        assert(filled(state, b) == state.counts[b]);
    }
}

/// The resources of a set that was built, each in its place.
#[derive(Debug)]
pub struct DescriptorSetBuilderOutput {
    layout: Arc<DescriptorSetLayout>,
    counts: Vec<u32>,
    writes: Vec<DescriptorWrite>,
}

impl DescriptorSetBuilderOutput {
    /// The layout that the set was built for.
    pub closed spec fn spec_layout(self) -> Arc<DescriptorSetLayout> {
        self.layout
    }

    /// The number of resources at each binding of the set.
    pub closed spec fn spec_counts(self) -> Seq<u32> {
        self.counts@
    }

    /// The resources of the set, in the order in which they were added.
    pub closed spec fn spec_writes(self) -> Seq<DescriptorWrite> {
        self.writes@
    }

    /// Returns the layout that the set was built for.
    pub fn layout(&self) -> (r: &Arc<DescriptorSetLayout>)
        ensures
            *r == self.spec_layout(),
    {
        &self.layout
    }

    /// Returns the number of resources at each binding of the set.
    pub fn counts(&self) -> (r: &Vec<u32>)
        ensures
            r@ == self.spec_counts(),
    {
        &self.counts
    }

    /// Returns the resources of the set, in the order in which they were
    /// added.
    pub fn writes(&self) -> (r: &Vec<DescriptorWrite>)
        ensures
            r@ == self.spec_writes(),
    {
        &self.writes
    }
}

/// A builder for a descriptor set.
///
/// Resources are added in the order of the bindings of the layout. A
/// resource that is added outside of an array fills a binding of its own.
/// Once an operation has failed, the builder is poisoned, and every later
/// operation fails with `BuilderPoisoned`.
pub struct DescriptorSetBuilder {
    layout: Arc<DescriptorSetLayout>,
    in_array: bool,
    cur_binding: usize,
    array_element: u32,
    counts: Vec<u32>,
    writes: Vec<DescriptorWrite>,
    poisoned: bool,
}

impl DescriptorSetBuilder {
    /// The state of the builder.
    pub closed spec fn view(&self) -> BuilderState {
        BuilderState {
            in_array: self.in_array,
            cur_binding: self.cur_binding as nat,
            array_element: self.array_element,
            counts: self.counts@,
            writes: self.writes@,
            poisoned: self.poisoned,
        }
    }

    /// The layout that the set is built for.
    pub closed spec fn spec_layout(self) -> Arc<DescriptorSetLayout> {
        self.layout
    }

    /// The descriptors of the layout, by binding number.
    pub open spec fn spec_bindings(self) -> Seq<Option<DescriptorDesc>> {
        self.spec_layout().spec_bindings()
    }

    /// The number that identifies the device of the layout.
    pub open spec fn spec_device(self) -> u64 {
        self.spec_layout().spec_device().spec_handle()
    }

    /// Whether the builder is in order: its state is a valid state for its
    /// layout.
    pub open spec fn wf(&self) -> bool {
        state_valid(self.spec_bindings(), self.spec_device(), self@)
    }

    /// Starts the process of building a descriptor set for `layout`.
    pub fn start(layout: Arc<DescriptorSetLayout>) -> (r: DescriptorSetBuilder)
        ensures
            r.wf(),
            r.spec_layout() == layout,
            r@ == initial_state(),
    {
        let n = layout.num_bindings();
        DescriptorSetBuilder {
            layout,
            in_array: false,
            cur_binding: 0,
            array_element: 0,
            counts: Vec::new(),
            writes: Vec::new(),
            poisoned: false,
        }
    }

    /// Returns the layout that the set is built for.
    pub fn layout(&self) -> (r: &Arc<DescriptorSetLayout>)
        ensures
            *r == self.spec_layout(),
    {
        &self.layout
    }

    /// Finalizes the building process and returns the resources of the set.
    ///
    /// Fails with `DescriptorsMissing` if a binding of the layout is not
    /// done yet. A set that is returned conforms to the layout.
    pub fn build(self) -> (r: Result<DescriptorSetBuilderOutput, DescriptorSetError>)
        requires
            self.wf(),
        ensures
            match finished(self.spec_bindings(), self@) {
                Ok(state) => {
                    &&& r matches Ok(output)
                    &&& output.spec_writes() == state.writes
                    &&& output.spec_counts() == state.counts
                    &&& output.spec_layout() == self.spec_layout()
                    &&& conforms(
                        self.spec_bindings(),
                        self.spec_device(),
                        output.spec_counts(),
                        output.spec_writes(),
                    )
                },
                Err(error) => r matches Err(e) && e == error,
            },
    {
        if self.poisoned {
            return Err(DescriptorSetError::BuilderPoisoned);
        }
        if self.in_array {
            return Err(DescriptorSetError::AlreadyInArray);
        }
        let expected = self.layout.num_bindings();
        if self.cur_binding != expected {
            return Err(
                DescriptorSetError::DescriptorsMissing {
                    expected: expected as u32,
                    obtained: self.cur_binding as u32,
                },
            );
        }
        proof {
            lemma_finished_set_conforms(self.spec_bindings(), self.spec_device(), self@);
        }
        Ok(
            DescriptorSetBuilderOutput {
                layout: self.layout,
                counts: self.counts,
                writes: self.writes,
            },
        )
    }

    /// Call this function if the next element of the set is an array in
    /// order to set the value of each element.
    ///
    /// Fails if the builder is already in an array, if every binding is
    /// done, or if the current binding is empty.
    ///
    /// This function can be called even if the descriptor isn't an array,
    /// and it is valid to enter an "array", add one element, then leave.
    pub fn enter_array(&mut self) -> (r: Result<(), DescriptorSetError>)
        requires
            old(self).wf(),
        ensures
            final(self).wf(),
            final(self).spec_layout() == old(self).spec_layout(),
            final(self)@ == after_operation(old(self)@, entered(old(self).spec_bindings(), old(self)@)),
            r == report(entered(old(self).spec_bindings(), old(self)@)),
    {
        proof {
            lemma_operations_keep_valid(
                self.spec_bindings(),
                self.spec_device(),
                self@,
                DescriptorResource::Sampler(SamplerInfo { handle: 0, device: 0 }),
            );
        }
        if self.poisoned {
            return Err(DescriptorSetError::BuilderPoisoned);
        }
        if self.in_array {
            self.poisoned = true;
            return Err(DescriptorSetError::AlreadyInArray);
        }
        if self.cur_binding >= self.layout.num_bindings() {
            self.poisoned = true;
            return Err(DescriptorSetError::TooManyDescriptors);
        }
        if self.layout.desc().bindings()[self.cur_binding].is_none() {
            self.poisoned = true;
            return Err(DescriptorSetError::DescriptorIsEmpty);
        }
        self.in_array = true;
        Ok(())
    }

    /// Leaves the array. Call this once you added all the elements of the
    /// array.
    ///
    /// Fails if the builder is not in an array, or if the array does not
    /// have the length that the layout declares.
    pub fn leave_array(&mut self) -> (r: Result<(), DescriptorSetError>)
        requires
            old(self).wf(),
        ensures
            final(self).wf(),
            final(self).spec_layout() == old(self).spec_layout(),
            final(self)@ == after_operation(old(self)@, left(old(self).spec_bindings(), old(self)@)),
            r == report(left(old(self).spec_bindings(), old(self)@)),
    {
        proof {
            lemma_operations_keep_valid(
                self.spec_bindings(),
                self.spec_device(),
                self@,
                DescriptorResource::Sampler(SamplerInfo { handle: 0, device: 0 }),
            );
        }
        if self.poisoned {
            return Err(DescriptorSetError::BuilderPoisoned);
        }
        if !self.in_array {
            self.poisoned = true;
            return Err(DescriptorSetError::NotInArray);
        }
        let desc = self.layout.desc().bindings()[self.cur_binding].unwrap();
        match check_array_length(&desc, self.array_element) {
            Err(error) => {
                self.poisoned = true;
                Err(error)
            },
            Ok(()) => {
                self.counts.push(self.array_element);
                self.array_element = 0;
                self.in_array = false;
                self.cur_binding = self.cur_binding + 1;
                Ok(())
            },
        }
    }

    /// Skips the current binding, which must be an empty one.
    pub fn add_empty(&mut self) -> (r: Result<(), DescriptorSetError>)
        requires
            old(self).wf(),
        ensures
            final(self).wf(),
            final(self).spec_layout() == old(self).spec_layout(),
            final(self)@ == after_operation(old(self)@, skipped(old(self).spec_bindings(), old(self)@)),
            r == report(skipped(old(self).spec_bindings(), old(self)@)),
    {
        proof {
            lemma_operations_keep_valid(
                self.spec_bindings(),
                self.spec_device(),
                self@,
                DescriptorResource::Sampler(SamplerInfo { handle: 0, device: 0 }),
            );
        }
        if self.poisoned {
            return Err(DescriptorSetError::BuilderPoisoned);
        }
        if self.in_array {
            self.poisoned = true;
            return Err(DescriptorSetError::AlreadyInArray);
        }
        if self.cur_binding >= self.layout.num_bindings() {
            self.poisoned = true;
            return Err(DescriptorSetError::TooManyDescriptors);
        }
        if self.layout.desc().bindings()[self.cur_binding].is_some() {
            self.poisoned = true;
            return Err(DescriptorSetError::WrongDescriptorType);
        }
        self.counts.push(0);
        self.cur_binding = self.cur_binding + 1;
        Ok(())
    }

    /// Binds a resource as the next element of the set.
    ///
    /// The resource must belong to the device of the layout and fit the
    /// descriptor of the current binding. Outside of an array the resource
    /// fills the binding, which must then be declared with one element.
    pub fn add(&mut self, resource: DescriptorResource) -> (r: Result<(), DescriptorSetError>)
        requires
            old(self).wf(),
        ensures
            final(self).wf(),
            final(self).spec_layout() == old(self).spec_layout(),
            final(self)@ == after_operation(
                old(self)@,
                added(old(self).spec_bindings(), old(self).spec_device(), old(self)@, resource),
            ),
            r == report(
                added(old(self).spec_bindings(), old(self).spec_device(), old(self)@, resource),
            ),
    {
        proof {
            lemma_operations_keep_valid(
                self.spec_bindings(),
                self.spec_device(),
                self@,
                resource,
            );
        }
        if self.poisoned {
            return Err(DescriptorSetError::BuilderPoisoned);
        }
        if !resource.belongs_to(self.layout.device().handle()) {
            self.poisoned = true;
            return Err(DescriptorSetError::ResourceWrongDevice);
        }
        let leave_array = !self.in_array;
        if leave_array {
            if self.cur_binding >= self.layout.num_bindings() {
                self.poisoned = true;
                return Err(DescriptorSetError::TooManyDescriptors);
            }
            if self.layout.desc().bindings()[self.cur_binding].is_none() {
                self.poisoned = true;
                return Err(DescriptorSetError::DescriptorIsEmpty);
            }
        }
        let desc = self.layout.desc().bindings()[self.cur_binding].unwrap();
        match check_resource(&desc.ty, &resource) {
            Err(error) => {
                self.poisoned = true;
                return Err(error);
            },
            Ok(()) => {},
        }
        if self.array_element == u32::MAX {
            self.poisoned = true;
            return Err(
                DescriptorSetError::ArrayTooManyDescriptors {
                    capacity: desc.descriptor_count,
                    obtained: self.array_element,
                },
            );
        }
        let write = DescriptorWrite {
            binding: self.cur_binding as u32,
            array_element: self.array_element,
            resource,
        };
        if leave_array {
            match check_array_length(&desc, 1) {
                Err(error) => {
                    self.poisoned = true;
                    return Err(error);
                },
                Ok(()) => {},
            }
            self.writes.push(write);
            self.counts.push(1);
            self.cur_binding = self.cur_binding + 1;
        } else {
            self.writes.push(write);
            self.array_element = self.array_element + 1;
        }
        Ok(())
    }

    /// Binds a buffer as the next element of the set.
    #[inline]
    pub fn add_buffer(&mut self, buffer: BufferInfo) -> (r: Result<(), DescriptorSetError>)
        requires
            old(self).wf(),
        ensures
            final(self).wf(),
            final(self).spec_layout() == old(self).spec_layout(),
            final(self)@ == after_operation(
                old(self)@,
                added(
                    old(self).spec_bindings(),
                    old(self).spec_device(),
                    old(self)@,
                    DescriptorResource::Buffer(buffer),
                ),
            ),
            r == report(
                added(
                    old(self).spec_bindings(),
                    old(self).spec_device(),
                    old(self)@,
                    DescriptorResource::Buffer(buffer),
                ),
            ),
    {
        self.add(DescriptorResource::Buffer(buffer))
    }

    /// Binds a buffer view as the next element of the set.
    #[inline]
    pub fn add_buffer_view(&mut self, view: BufferViewInfo) -> (r: Result<(), DescriptorSetError>)
        requires
            old(self).wf(),
        ensures
            final(self).wf(),
            final(self).spec_layout() == old(self).spec_layout(),
            final(self)@ == after_operation(
                old(self)@,
                added(
                    old(self).spec_bindings(),
                    old(self).spec_device(),
                    old(self)@,
                    DescriptorResource::BufferView(view),
                ),
            ),
            r == report(
                added(
                    old(self).spec_bindings(),
                    old(self).spec_device(),
                    old(self)@,
                    DescriptorResource::BufferView(view),
                ),
            ),
    {
        self.add(DescriptorResource::BufferView(view))
    }

    /// Binds an image view as the next element of the set.
    #[inline]
    pub fn add_image(&mut self, image_view: ImageViewInfo) -> (r: Result<(), DescriptorSetError>)
        requires
            old(self).wf(),
        ensures
            final(self).wf(),
            final(self).spec_layout() == old(self).spec_layout(),
            final(self)@ == after_operation(
                old(self)@,
                added(
                    old(self).spec_bindings(),
                    old(self).spec_device(),
                    old(self)@,
                    DescriptorResource::ImageView(image_view),
                ),
            ),
            r == report(
                added(
                    old(self).spec_bindings(),
                    old(self).spec_device(),
                    old(self)@,
                    DescriptorResource::ImageView(image_view),
                ),
            ),
    {
        self.add(DescriptorResource::ImageView(image_view))
    }

    /// Binds an image view with a sampler as the next element of the set.
    ///
    /// If the descriptor set layout contains immutable samplers for this
    /// descriptor, use `add_image` instead.
    #[inline]
    pub fn add_sampled_image(&mut self, image_view: ImageViewInfo, sampler: SamplerInfo) -> (r:
        Result<(), DescriptorSetError>)
        requires
            old(self).wf(),
        ensures
            final(self).wf(),
            final(self).spec_layout() == old(self).spec_layout(),
            final(self)@ == after_operation(
                old(self)@,
                added(
                    old(self).spec_bindings(),
                    old(self).spec_device(),
                    old(self)@,
                    DescriptorResource::ImageViewSampler(image_view, sampler),
                ),
            ),
            r == report(
                added(
                    old(self).spec_bindings(),
                    old(self).spec_device(),
                    old(self)@,
                    DescriptorResource::ImageViewSampler(image_view, sampler),
                ),
            ),
    {
        self.add(DescriptorResource::ImageViewSampler(image_view, sampler))
    }

    /// Binds a sampler as the next element of the set.
    #[inline]
    pub fn add_sampler(&mut self, sampler: SamplerInfo) -> (r: Result<(), DescriptorSetError>)
        requires
            old(self).wf(),
        ensures
            final(self).wf(),
            final(self).spec_layout() == old(self).spec_layout(),
            final(self)@ == after_operation(
                old(self)@,
                added(
                    old(self).spec_bindings(),
                    old(self).spec_device(),
                    old(self)@,
                    DescriptorResource::Sampler(sampler),
                ),
            ),
            r == report(
                added(
                    old(self).spec_bindings(),
                    old(self).spec_device(),
                    old(self)@,
                    DescriptorResource::Sampler(sampler),
                ),
            ),
    {
        self.add(DescriptorResource::Sampler(sampler))
    }
}

/// Holds the length of an array against what the descriptor declares.
fn check_array_length(desc: &DescriptorDesc, obtained: u32) -> (r: Result<(), DescriptorSetError>)
    ensures
        r is Ok <==> array_length_error(*desc, obtained) is None,
        r matches Err(error) ==> array_length_error(*desc, obtained) == Some(error),
{
    if desc.variable_count {
        if obtained > desc.descriptor_count {
            return Err(
                DescriptorSetError::ArrayTooManyDescriptors {
                    capacity: desc.descriptor_count,
                    obtained,
                },
            );
        }
    } else if obtained != desc.descriptor_count {
        return Err(
            DescriptorSetError::ArrayLengthMismatch { expected: desc.descriptor_count, obtained },
        );
    }
    Ok(())
}

/// Once every binding of a layout is done, nothing more can be added: a
/// further resource, a further array and a further skipped binding are all
/// refused with `TooManyDescriptors`.
pub proof fn lemma_full_builder_takes_no_more(
    bindings: Seq<Option<DescriptorDesc>>,
    device: u64,
    state: BuilderState,
    resource: DescriptorResource,
)
    requires
        state_valid(bindings, device, state),
        !state.poisoned,
        state.cur_binding == bindings.len(),
        resource.spec_belongs_to(device),
    ensures
        added(bindings, device, state, resource) == Err::<BuilderState, DescriptorSetError>(
            DescriptorSetError::TooManyDescriptors,
        ),
        entered(bindings, state) == Err::<BuilderState, DescriptorSetError>(
            DescriptorSetError::TooManyDescriptors,
        ),
        skipped(bindings, state) == Err::<BuilderState, DescriptorSetError>(
            DescriptorSetError::TooManyDescriptors,
        ),
{
}

/// A builder cannot be finished before every binding is done: it is
/// refused with `DescriptorsMissing`, which carries the number of bindings
/// of the layout and the number of those that are done.
pub proof fn lemma_unfinished_builder_is_refused(
    bindings: Seq<Option<DescriptorDesc>>,
    device: u64,
    state: BuilderState,
)
    requires
        state_valid(bindings, device, state),
        !state.poisoned,
        !state.in_array,
        state.cur_binding < bindings.len(),
    ensures
        finished(bindings, state) == Err::<BuilderState, DescriptorSetError>(
            DescriptorSetError::DescriptorsMissing {
                expected: bindings.len() as u32,
                obtained: state.cur_binding as u32,
            },
        ),
{
}

/// A resource that is added outside of an array, and accepted, fills
/// exactly one binding: the next resource goes to the binding after it.
pub proof fn lemma_added_resource_fills_one_binding(
    bindings: Seq<Option<DescriptorDesc>>,
    device: u64,
    state: BuilderState,
    resource: DescriptorResource,
)
    requires
        state_valid(bindings, device, state),
        !state.in_array,
        added(bindings, device, state, resource) is Ok,
    ensures
        ({
            let after = added(bindings, device, state, resource)->Ok_0;
            &&& state_valid(bindings, device, after)
            &&& !after.in_array
            &&& !after.poisoned
            &&& after.cur_binding == state.cur_binding + 1
            &&& after.counts == state.counts.push(1)
            &&& after.writes.len() == state.writes.len() + 1
            &&& after.writes.last().binding == state.cur_binding
            &&& after.writes.last().array_element == 0
        }),
{
    lemma_operations_keep_valid(bindings, device, state, resource);
}

} // verus!
