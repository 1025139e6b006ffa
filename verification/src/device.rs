//! The capabilities that a device reports, as the rest of the library reads
//! them.

use crate::DeviceSize;
use vstd::prelude::*;

verus! {

/// The largest number of memory types that a device can report.
pub const MAX_MEMORY_TYPES: usize = 32;

/// One of the kinds of memory that a device offers.
#[derive(Debug, Copy, Clone, PartialEq, Eq, Hash, Structural)]
pub struct MemoryType {
    /// Index of the type in the device's list.
    pub id: u32,
    /// Memory of this type can be mapped and accessed by the host.
    pub host_visible: bool,
    /// Memory of this type is the fastest for the device to access.
    pub device_local: bool,
}

impl MemoryType {
    /// Returns the identifier of this memory type within the device.
    #[inline]
    pub fn id(&self) -> (r: u32)
        ensures
            r == self.id,
    {
        self.id
    }

    /// Returns true if the memory type can be accessed by the host.
    #[inline]
    pub fn is_host_visible(&self) -> (r: bool)
        ensures
            r == self.host_visible,
    {
        self.host_visible
    }

    /// Returns true if the memory type is located on the device.
    #[inline]
    pub fn is_device_local(&self) -> (r: bool)
        ensures
            r == self.device_local,
    {
        self.device_local
    }
}

/// Whether `types` can be the list of memory types of a device: at most
/// `MAX_MEMORY_TYPES` entries, each identified by its position.
pub open spec fn memory_types_valid(types: Seq<MemoryType>) -> bool {
    &&& types.len() <= MAX_MEMORY_TYPES
    &&& forall|i: int| 0 <= i < types.len() ==> (#[trigger] types[i]).id == i
}

/// The device extensions that the library asks about.
#[derive(Debug, Copy, Clone, PartialEq, Eq, Hash, Structural)]
pub struct DeviceExtensions {
    pub khr_external_memory: bool,
    pub khr_external_memory_fd: bool,
}

/// The device features that the library asks about. A feature can only be
/// used if it was enabled when the device was created.
#[derive(Debug, Copy, Clone, PartialEq, Eq, Hash, Structural)]
pub struct Features {
    pub alpha_to_one: bool,
    pub depth_bias_clamp: bool,
    pub depth_bounds: bool,
    pub depth_clamp: bool,
    pub fill_mode_non_solid: bool,
    pub geometry_shader: bool,
    pub independent_blend: bool,
    pub logic_op: bool,
    pub multi_viewport: bool,
    pub multiview: bool,
    pub multiview_geometry_shader: bool,
    pub multiview_tessellation_shader: bool,
    pub sample_rate_shading: bool,
    pub tessellation_shader: bool,
    pub vertex_attribute_instance_rate_divisor: bool,
    pub vertex_attribute_instance_rate_zero_divisor: bool,
    pub wide_lines: bool,
}

/// The limits and alignments that a device reports.
#[derive(Debug, Copy, Clone, PartialEq, Eq, Hash, Structural)]
pub struct Properties {
    /// Granularity at which linear and optimal resources can share memory
    /// without aliasing.
    pub buffer_image_granularity: DeviceSize,
    /// Largest number of patch control points of a tessellation patch.
    pub max_tessellation_patch_size: u32,
    /// Largest instance rate divisor, where the device has such a limit.
    pub max_vertex_attrib_divisor: Option<u32>,
    /// Largest offset of a vertex attribute in its binding.
    pub max_vertex_input_attribute_offset: u32,
    /// Largest number of vertex attributes.
    pub max_vertex_input_attributes: u32,
    /// Largest stride of a vertex binding.
    pub max_vertex_input_binding_stride: u32,
    /// Largest number of vertex bindings.
    pub max_vertex_input_bindings: u32,
    /// Largest width of a viewport.
    pub max_viewport_width: u32,
    /// Largest height of a viewport.
    pub max_viewport_height: u32,
    /// Largest number of viewports.
    pub max_viewports: u32,
    /// Alignment that the dynamic offset of a storage buffer must have.
    pub min_storage_buffer_offset_alignment: DeviceSize,
    /// Alignment that the dynamic offset of a uniform buffer must have.
    pub min_uniform_buffer_offset_alignment: DeviceSize,
}

/// A snapshot of what a device reports about itself. It never changes
/// during the lifetime of the device.
#[derive(Debug)]
pub struct Device {
    handle: u64,
    memory_types: Vec<MemoryType>,
    properties: Properties,
    enabled_extensions: DeviceExtensions,
    enabled_features: Features,
}

impl Device {
    #[verifier::type_invariant]
    spec fn well_formed(self) -> bool {
        memory_types_valid(self.memory_types@)
    }

    /// The number that identifies the native device.
    pub closed spec fn spec_handle(self) -> u64 {
        self.handle
    }

    /// The memory types of the device, in ascending order of identifier.
    pub closed spec fn spec_memory_types(self) -> Seq<MemoryType> {
        self.memory_types@
    }

    /// The limits and alignments of the device.
    pub closed spec fn spec_properties(self) -> Properties {
        self.properties
    }

    /// The extensions that were enabled when the device was created.
    pub closed spec fn spec_enabled_extensions(self) -> DeviceExtensions {
        self.enabled_extensions
    }

    /// The features that were enabled when the device was created.
    pub closed spec fn spec_enabled_features(self) -> Features {
        self.enabled_features
    }

    /// Builds the snapshot of the device that `handle` identifies. Returns
    /// `None` if `memory_types` is not a valid list of memory types.
    pub fn new(
        handle: u64,
        memory_types: Vec<MemoryType>,
        properties: Properties,
        enabled_extensions: DeviceExtensions,
        enabled_features: Features,
    ) -> (r: Option<Device>)
        ensures
            r is Some <==> memory_types_valid(memory_types@),
            r matches Some(d) ==> {
                &&& d.spec_handle() == handle
                &&& d.spec_memory_types() == memory_types@
                &&& d.spec_properties() == properties
                &&& d.spec_enabled_extensions() == enabled_extensions
                &&& d.spec_enabled_features() == enabled_features
            },
    {
        if memory_types.len() > MAX_MEMORY_TYPES {
            return None;
        }
        let mut i: usize = 0;
        while i < memory_types.len()
            invariant
                i <= memory_types.len() <= MAX_MEMORY_TYPES,
                forall|j: int| 0 <= j < i ==> (#[trigger] memory_types@[j]).id == j,
            decreases memory_types.len() - i,
        {
            if memory_types[i].id as usize != i {
                return None;
            }
            i += 1;
        }
        Some(Device { handle, memory_types, properties, enabled_extensions, enabled_features })
    }

    /// Returns the number that identifies the native device. Two snapshots
    /// are of the same device exactly when their handles are equal.
    pub fn handle(&self) -> (r: u64)
        ensures
            r == self.spec_handle(),
    {
        self.handle
    }

    /// Returns the memory types of the device.
    pub fn memory_types(&self) -> (r: &Vec<MemoryType>)
        ensures
            r@ == self.spec_memory_types(),
            memory_types_valid(r@),
    {
        proof {
            use_type_invariant(self);
        }
        &self.memory_types
    }

    /// Returns the limits and alignments of the device.
    pub fn properties(&self) -> (r: &Properties)
        ensures
            *r == self.spec_properties(),
    {
        &self.properties
    }

    /// Returns the extensions that were enabled when the device was created.
    pub fn enabled_extensions(&self) -> (r: &DeviceExtensions)
        ensures
            *r == self.spec_enabled_extensions(),
    {
        &self.enabled_extensions
    }

    /// Returns the features that were enabled when the device was created.
    pub fn enabled_features(&self) -> (r: &Features)
        ensures
            *r == self.spec_enabled_features(),
    {
        &self.enabled_features
    }
}

} // verus!
