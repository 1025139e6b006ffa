//! Description of the layout of a descriptor set: which kind of resource
//! each binding holds, and how many of them.

use crate::device::Device;
use crate::image::format_code;
use crate::image::same_format;
use crate::image::ImageViewType;
use ash::vk::Format;
use std::sync::Arc;
use vstd::prelude::*;

verus! {

/// Describes which shader stages have access to a descriptor.
#[derive(Debug, Copy, Clone, PartialEq, Eq, Hash, Structural)]
pub struct ShaderStages {
    pub vertex: bool,
    pub tessellation_control: bool,
    pub tessellation_evaluation: bool,
    pub geometry: bool,
    pub fragment: bool,
    pub compute: bool,
}

impl ShaderStages {
    /// Whether every stage that has access with `other` has access with
    /// `self` too.
    pub open spec fn spec_is_superset_of(self, other: ShaderStages) -> bool {
        &&& other.vertex ==> self.vertex
        &&& other.tessellation_control ==> self.tessellation_control
        &&& other.tessellation_evaluation ==> self.tessellation_evaluation
        &&& other.geometry ==> self.geometry
        &&& other.fragment ==> self.fragment
        &&& other.compute ==> self.compute
    }

    /// Checks whether we have more stages enabled than `other`.
    pub fn is_superset_of(&self, other: &ShaderStages) -> (r: bool)
        ensures
            r == self.spec_is_superset_of(*other),
    {
        (self.vertex || !other.vertex) && (self.tessellation_control
            || !other.tessellation_control) && (self.tessellation_evaluation
            || !other.tessellation_evaluation) && (self.geometry || !other.geometry) && (
        self.fragment || !other.fragment) && (self.compute || !other.compute)
    }
}

/// Whether the format of a descriptor is good for a shader that asks for
/// `required`: a shader that names a format gets that format, and a
/// shader that names none takes any.
pub open spec fn format_satisfies(format: Option<Format>, required: Option<Format>) -> bool {
    required matches Some(wanted) ==> format matches Some(given) && format_code(given)
        == format_code(wanted)
}

/// Tells whether the format of a descriptor is good for a shader that asks
/// for `required`.
pub fn check_format(format: Option<Format>, required: Option<Format>) -> (r: bool)
    ensures
        r == format_satisfies(format, required),
{
    match required {
        None => true,
        Some(wanted) => match format {
            None => false,
            Some(given) => same_format(given, wanted),
        },
    }
}

/// Whether the image of a descriptor is an array of layers.
#[derive(Debug, Copy, Clone, PartialEq, Eq, Hash, Structural)]
pub enum DescriptorDescImageArray {
    /// The image has exactly one layer.
    NonArrayed,
    /// The image has any number of layers, up to `max_layers` where that
    /// is set.
    Arrayed { max_layers: Option<u32> },
}

/// Additional description for descriptors that contain images.
#[derive(Debug, Copy, Clone)]
pub struct DescriptorDescImage {
    /// Whether the image is an array of layers, and of how many.
    pub array_layers: DescriptorDescImageArray,
    /// The format that the image view must have, if only one is accepted.
    pub format: Option<Format>,
    /// True if the image is multisampled.
    pub multisampled: bool,
    /// The geometry type that the image view must have.
    pub view_type: ImageViewType,
}

impl DescriptorDescImage {
    /// Whether a descriptor with this image is good for a shader that asks
    /// for the image `required`: the two agree in the geometry type, in
    /// whether the image is multisampled and in its layers, and the format
    /// is good for the shader.
    pub open spec fn spec_satisfies(self, required: DescriptorDescImage) -> bool {
        &&& self.multisampled == required.multisampled
        &&& self.view_type == required.view_type
        &&& self.array_layers == required.array_layers
        &&& format_satisfies(self.format, required.format)
    }

    /// Tells whether a descriptor with this image is good for a shader
    /// that asks for the image `required`.
    pub fn satisfies(&self, required: &DescriptorDescImage) -> (r: bool)
        ensures
            r == self.spec_satisfies(*required),
    {
        self.multisampled == required.multisampled && self.view_type == required.view_type
            && self.array_layers == required.array_layers && check_format(
            self.format,
            required.format,
        )
    }
}

/// Describes the content and layout of each array element of a descriptor.
#[derive(Debug, Copy, Clone)]
pub enum DescriptorDescTy {
    /// A sampler. With `immutable_samplers` the samplers are part of the
    /// layout and none can be bound.
    Sampler { immutable_samplers: bool },
    /// An image together with the sampler that reads it.
    CombinedImageSampler { image_desc: DescriptorDescImage, immutable_samplers: bool },
    SampledImage { image_desc: DescriptorDescImage },
    StorageImage { image_desc: DescriptorDescImage },
    UniformTexelBuffer { format: Option<Format> },
    StorageTexelBuffer { format: Option<Format> },
    UniformBuffer,
    StorageBuffer,
    UniformBufferDynamic,
    StorageBufferDynamic,
    InputAttachment { multisampled: bool },
}

impl DescriptorDescTy {
    /// Whether a descriptor of this type takes a dynamic offset each time
    /// the set is bound.
    pub open spec fn spec_is_dynamic(self) -> bool {
        self is UniformBufferDynamic || self is StorageBufferDynamic
    }

    /// Tells whether a descriptor of this type takes a dynamic offset each
    /// time the set is bound.
    pub fn is_dynamic(&self) -> (r: bool)
        ensures
            r == self.spec_is_dynamic(),
    {
        match self {
            DescriptorDescTy::UniformBufferDynamic => true,
            DescriptorDescTy::StorageBufferDynamic => true,
            _ => false,
        }
    }
}

impl DescriptorDescTy {
    /// Whether a descriptor of this type is good for a shader that asks for
    /// one of type `required`: the two are of the same kind, and what this
    /// one says of its image or of its format is good for the shader.
    pub open spec fn spec_satisfies(self, required: DescriptorDescTy) -> bool {
        match (self, required) {
            (DescriptorDescTy::Sampler { .. }, DescriptorDescTy::Sampler { .. }) => true,
            (
                DescriptorDescTy::CombinedImageSampler { image_desc: mine, .. },
                DescriptorDescTy::CombinedImageSampler { image_desc: theirs, .. },
            ) => mine.spec_satisfies(theirs),
            (
                DescriptorDescTy::SampledImage { image_desc: mine },
                DescriptorDescTy::SampledImage { image_desc: theirs },
            ) => mine.spec_satisfies(theirs),
            (
                DescriptorDescTy::StorageImage { image_desc: mine },
                DescriptorDescTy::StorageImage { image_desc: theirs },
            ) => mine.spec_satisfies(theirs),
            (
                DescriptorDescTy::UniformTexelBuffer { format: mine },
                DescriptorDescTy::UniformTexelBuffer { format: theirs },
            ) => format_satisfies(mine, theirs),
            (
                DescriptorDescTy::StorageTexelBuffer { format: mine },
                DescriptorDescTy::StorageTexelBuffer { format: theirs },
            ) => format_satisfies(mine, theirs),
            (DescriptorDescTy::UniformBuffer, DescriptorDescTy::UniformBuffer) => true,
            (DescriptorDescTy::StorageBuffer, DescriptorDescTy::StorageBuffer) => true,
            (DescriptorDescTy::UniformBufferDynamic, DescriptorDescTy::UniformBufferDynamic) => true,
            (DescriptorDescTy::StorageBufferDynamic, DescriptorDescTy::StorageBufferDynamic) => true,
            (
                DescriptorDescTy::InputAttachment { multisampled: mine },
                DescriptorDescTy::InputAttachment { multisampled: theirs },
            ) => mine == theirs,
            _ => false,
        }
    }

    /// Tells whether a descriptor of this type is good for a shader that
    /// asks for one of type `required`.
    pub fn satisfies(&self, required: &DescriptorDescTy) -> (r: bool)
        ensures
            r == self.spec_satisfies(*required),
    {
        match (self, required) {
            (DescriptorDescTy::Sampler { .. }, DescriptorDescTy::Sampler { .. }) => true,
            (
                DescriptorDescTy::CombinedImageSampler { image_desc: mine, .. },
                DescriptorDescTy::CombinedImageSampler { image_desc: theirs, .. },
            ) => mine.satisfies(theirs),
            (
                DescriptorDescTy::SampledImage { image_desc: mine },
                DescriptorDescTy::SampledImage { image_desc: theirs },
            ) => mine.satisfies(theirs),
            (
                DescriptorDescTy::StorageImage { image_desc: mine },
                DescriptorDescTy::StorageImage { image_desc: theirs },
            ) => mine.satisfies(theirs),
            (
                DescriptorDescTy::UniformTexelBuffer { format: mine },
                DescriptorDescTy::UniformTexelBuffer { format: theirs },
            ) => check_format(*mine, *theirs),
            (
                DescriptorDescTy::StorageTexelBuffer { format: mine },
                DescriptorDescTy::StorageTexelBuffer { format: theirs },
            ) => check_format(*mine, *theirs),
            (DescriptorDescTy::UniformBuffer, DescriptorDescTy::UniformBuffer) => true,
            (DescriptorDescTy::StorageBuffer, DescriptorDescTy::StorageBuffer) => true,
            (DescriptorDescTy::UniformBufferDynamic, DescriptorDescTy::UniformBufferDynamic) => true,
            (DescriptorDescTy::StorageBufferDynamic, DescriptorDescTy::StorageBufferDynamic) => true,
            (
                DescriptorDescTy::InputAttachment { multisampled: mine },
                DescriptorDescTy::InputAttachment { multisampled: theirs },
            ) => *mine == *theirs,
            _ => false,
        }
    }
}

/// Contains the exact description of a single descriptor.
#[derive(Debug, Copy, Clone)]
pub struct DescriptorDesc {
    /// Describes the content and layout of each array element of a descriptor.
    pub ty: DescriptorDescTy,
    /// How many array elements this descriptor is made of. The value 0 is
    /// invalid and may trigger a panic depending on the situation.
    pub descriptor_count: u32,
    /// True if the descriptor has a variable descriptor count: the number
    /// above is then the largest count that a set may have.
    pub variable_count: bool,
    /// Which shader stages are going to access this descriptor.
    pub stages: ShaderStages,
    /// True if the attachment can be written by the shader.
    pub mutable: bool,
}

impl DescriptorDesc {
    /// Whether this descriptor is good for a shader that asks for the
    /// descriptor `required`: the type is good for the shader, the array
    /// has at least as many elements and is of variable length exactly if
    /// the shader says so, every stage of the shader has access, and the
    /// descriptor can be written if the shader writes to it.
    pub open spec fn spec_satisfies(self, required: DescriptorDesc) -> bool {
        &&& self.ty.spec_satisfies(required.ty)
        &&& self.stages.spec_is_superset_of(required.stages)
        &&& self.descriptor_count >= required.descriptor_count
        &&& self.variable_count == required.variable_count
        &&& required.mutable ==> self.mutable
    }

    /// Checks whether this descriptor is good for a shader that asks for
    /// the descriptor `required`.
    pub fn satisfies(&self, required: &DescriptorDesc) -> (r: bool)
        ensures
            r == self.spec_satisfies(*required),
    {
        self.ty.satisfies(&required.ty) && self.stages.is_superset_of(&required.stages)
            && self.descriptor_count >= required.descriptor_count && self.variable_count
            == required.variable_count && (self.mutable || !required.mutable)
    }
}

/// The largest number of bindings that a set can have: a binding is
/// identified by a number of 32 bits.
pub const MAX_BINDINGS: usize = 0xffff_ffff;

/// The descriptors of a set, by binding number. A binding with `None` is
/// empty: no resource is bound there.
#[derive(Debug)]
pub struct DescriptorSetDesc {
    descriptors: Vec<Option<DescriptorDesc>>,
}

impl DescriptorSetDesc {
    #[verifier::type_invariant]
    spec fn well_formed(self) -> bool {
        self.descriptors@.len() <= MAX_BINDINGS
    }

    /// The descriptors, by binding number.
    pub closed spec fn spec_bindings(self) -> Seq<Option<DescriptorDesc>> {
        self.descriptors@
    }

    /// Builds a new `DescriptorSetDesc` with the given descriptors.
    ///
    /// The descriptors must be passed in the order of the bindings. In order
    /// to skip a binding, you can put `None`. Returns `None` if there are
    /// more than `MAX_BINDINGS` descriptors.
    pub fn new(descriptors: Vec<Option<DescriptorDesc>>) -> (r: Option<DescriptorSetDesc>)
        ensures
            r is Some <==> descriptors@.len() <= MAX_BINDINGS,
            r matches Some(desc) ==> desc.spec_bindings() == descriptors@,
    {
        if descriptors.len() > MAX_BINDINGS {
            None
        } else {
            Some(DescriptorSetDesc { descriptors })
        }
    }

    /// Returns the descriptors in the set.
    pub fn bindings(&self) -> (r: &Vec<Option<DescriptorDesc>>)
        ensures
            r@ == self.spec_bindings(),
            r@.len() <= MAX_BINDINGS,
    {
        proof {
            use_type_invariant(self);
        }
        &self.descriptors
    }
}

/// Describes to the device the layout of all descriptors within a
/// descriptor set.
#[derive(Debug)]
pub struct DescriptorSetLayout {
    handle: u64,
    device: Arc<Device>,
    desc: DescriptorSetDesc,
}

impl DescriptorSetLayout {
    /// The number that identifies the native layout object.
    pub closed spec fn spec_handle(self) -> u64 {
        self.handle
    }

    /// The device that the layout was created on.
    pub closed spec fn spec_device(self) -> Device {
        *self.device
    }

    /// The descriptors of the layout, by binding number.
    pub closed spec fn spec_bindings(self) -> Seq<Option<DescriptorDesc>> {
        self.desc.spec_bindings()
    }

    /// Describes the layout object `handle`, which was created on `device`
    /// with the descriptors of `desc`.
    pub fn new(handle: u64, device: Arc<Device>, desc: DescriptorSetDesc) -> (r:
        DescriptorSetLayout)
        ensures
            r.spec_handle() == handle,
            r.spec_device() == *device,
            r.spec_bindings() == desc.spec_bindings(),
    {
        DescriptorSetLayout { handle, device, desc }
    }

    /// Returns the number that identifies the native layout object.
    pub fn handle(&self) -> (r: u64)
        ensures
            r == self.spec_handle(),
    {
        self.handle
    }

    /// Returns the device that the layout was created on.
    pub fn device(&self) -> (r: &Arc<Device>)
        ensures
            **r == self.spec_device(),
    {
        &self.device
    }

    /// Returns the description of the descriptors of the layout.
    pub fn desc(&self) -> (r: &DescriptorSetDesc)
        ensures
            r.spec_bindings() == self.spec_bindings(),
            r.spec_bindings().len() <= MAX_BINDINGS,
    {
        proof {
            use_type_invariant(&self.desc);
        }
        &self.desc
    }

    /// Returns the number of binding slots in the set.
    pub fn num_bindings(&self) -> (r: usize)
        ensures
            r == self.spec_bindings().len(),
            r <= MAX_BINDINGS,
    {
        self.desc.bindings().len()
    }
}

} // verus!
