//! Device memory: what a resource asks for, and the objects that back it.

use crate::DeviceSize;
use crate::Error;
use crate::OomError;
use vstd::prelude::*;

pub mod pool;

verus! {

/// Native handle of a buffer.
#[verifier::external_type_specification]
#[verifier::external_body]
pub struct ExBufferHandle(ash::vk::Buffer);

/// Native handle of an image.
#[verifier::external_type_specification]
#[verifier::external_body]
pub struct ExImageHandle(ash::vk::Image);

/// Represents requirements expressed by the device about a resource to be
/// bound to memory.
#[derive(Debug, Copy, Clone, PartialEq, Eq, Hash, Structural)]
pub struct MemoryRequirements {
    /// Number of bytes of memory required.
    pub size: DeviceSize,
    /// Alignment of the requested memory. The memory must be bound at an
    /// offset that is a multiple of this value.
    pub alignment: DeviceSize,
    /// Indicates which memory types can be used. Each bit that is set to 1
    /// means that the memory type whose identifier is the same as the
    /// position of the bit can be used.
    pub memory_type_bits: u32,
    /// True if the device would prefer that the resource gets a memory
    /// object of its own.
    pub prefer_dedicated: bool,
}

/// Indicates whether we want to allocate memory for a specific resource, or
/// in a generic way.
///
/// Memory that is dedicated to a resource can only ever be bound to that
/// resource.
#[derive(Debug, Copy, Clone)]
pub enum DedicatedAlloc {
    /// Generic allocation.
    Generic,
    /// Allocation dedicated to a buffer.
    Buffer(ash::vk::Buffer),
    /// Allocation dedicated to an image.
    Image(ash::vk::Image),
}

/// Represents memory that has been allocated on the device as an object of
/// its own.
#[derive(Debug)]
pub struct DeviceMemory {
    /// The native memory object, by the number that identifies it.
    pub handle: u64,
    /// Size of the object in bytes.
    pub size: DeviceSize,
    /// Identifier of the memory type that the object was allocated from.
    pub memory_type_index: u32,
}

/// Represents memory that has been allocated and mapped in host-accessible
/// space.
#[derive(Debug)]
pub struct MappedDeviceMemory {
    /// The memory object that is mapped.
    pub memory: DeviceMemory,
    /// Host address of the first byte of the object.
    pub address: usize,
    /// True if host writes become visible to the device without a flush.
    pub coherent: bool,
}

impl MappedDeviceMemory {
    /// The memory object that is mapped.
    #[inline]
    pub fn as_ref(&self) -> (r: &DeviceMemory)
        ensures
            *r == self.memory,
    {
        &self.memory
    }
}

/// Error type returned by functions related to device memory allocation.
#[derive(Debug, Copy, Clone, PartialEq, Eq, Hash, Structural)]
pub enum DeviceMemoryAllocError {
    /// Not enough memory available.
    OomError(OomError),
    /// The maximum number of allocations has been exceeded.
    TooManyObjects,
    /// Memory map failed.
    MemoryMapFailed,
}

impl DeviceMemoryAllocError {
    /// What a native error means when memory is allocated or mapped, for
    /// the errors that the native layer is expected to give then: memory
    /// ran out, too many memory objects exist, or the mapping failed.
    pub open spec fn spec_from_error(err: Error) -> Option<DeviceMemoryAllocError> {
        match err {
            Error::OutOfHostMemory => Some(
                DeviceMemoryAllocError::OomError(OomError::OutOfHostMemory),
            ),
            Error::OutOfDeviceMemory => Some(
                DeviceMemoryAllocError::OomError(OomError::OutOfDeviceMemory),
            ),
            Error::TooManyObjects => Some(DeviceMemoryAllocError::TooManyObjects),
            Error::MemoryMapFailed => Some(DeviceMemoryAllocError::MemoryMapFailed),
            _ => None,
        }
    }

    /// Tells what a native error means when memory is allocated or mapped.
    /// Returns `None` for an error that the native layer is not expected to
    /// give then.
    pub fn from_error(err: Error) -> (r: Option<DeviceMemoryAllocError>)
        ensures
            r == Self::spec_from_error(err),
    {
        match err {
            Error::OutOfHostMemory => Some(
                DeviceMemoryAllocError::OomError(OomError::OutOfHostMemory),
            ),
            Error::OutOfDeviceMemory => Some(
                DeviceMemoryAllocError::OomError(OomError::OutOfDeviceMemory),
            ),
            Error::TooManyObjects => Some(DeviceMemoryAllocError::TooManyObjects),
            Error::MemoryMapFailed => Some(DeviceMemoryAllocError::MemoryMapFailed),
            _ => None,
        }
    }

    /// The text that describes the error to a reader.
    pub open spec fn spec_message(self) -> Seq<char> {
        match self {
            DeviceMemoryAllocError::OomError(_) => "not enough memory available"@,
            DeviceMemoryAllocError::TooManyObjects =>
                "the maximum number of allocations has been exceeded"@,
            DeviceMemoryAllocError::MemoryMapFailed => "memory map failed"@,
        }
    }

    /// Returns the text that describes the error to a reader.
    pub fn to_string(&self) -> (r: String)
        ensures
            r@ == self.spec_message(),
    {
        let message = match *self {
            DeviceMemoryAllocError::OomError(_) => "not enough memory available",
            DeviceMemoryAllocError::TooManyObjects =>
                "the maximum number of allocations has been exceeded",
            DeviceMemoryAllocError::MemoryMapFailed => "memory map failed",
        };
        message.to_owned()
    }
}

} // verus!
