//! Validity tracking for a low-level graphics and compute API: memory-type
//! selection and allocation policy, descriptor-set construction, graphics
//! pipeline validation, and pooled synchronization handles.

use vstd::prelude::*;

pub mod descriptor_set;
pub mod device;
pub mod image;
pub mod memory;
pub mod pipeline;
pub mod render_pass;
pub mod sync;

verus! {

/// A size or an offset in device memory, in bytes.
pub type DeviceSize = u64;

/// Error type returned by most operations when memory runs out.
#[derive(Debug, Copy, Clone, PartialEq, Eq, Hash, Structural)]
pub enum OomError {
    /// There is no memory available on the host (ie. the CPU, RAM, etc.).
    OutOfHostMemory,
    /// There is no memory available on the device (ie. video memory).
    OutOfDeviceMemory,
}

/// The native result of a command.
#[verifier::external_type_specification]
#[verifier::external_body]
pub struct ExNativeResult(ash::vk::Result);

/// The code that a native result holds.
pub uninterp spec fn result_code(result: ash::vk::Result) -> i32;

/// `ash::vk::Result::as_raw`: the code that the result holds.
pub assume_specification[ ash::vk::Result::as_raw ](result: ash::vk::Result) -> (code: i32)
    ensures
        code == result_code(result),
;

/// All possible success codes returned by the native layer.
#[derive(Debug, Copy, Clone, PartialEq, Eq, Hash, Structural)]
pub enum Success {
    Success,
    NotReady,
    Timeout,
    EventSet,
    EventReset,
    Incomplete,
    Suboptimal,
}

/// All possible errors returned by the native layer.
#[derive(Debug, Copy, Clone, PartialEq, Eq, Hash, Structural)]
pub enum Error {
    OutOfHostMemory,
    OutOfDeviceMemory,
    InitializationFailed,
    DeviceLost,
    MemoryMapFailed,
    LayerNotPresent,
    ExtensionNotPresent,
    FeatureNotPresent,
    IncompatibleDriver,
    TooManyObjects,
    FormatNotSupported,
    SurfaceLost,
    NativeWindowInUse,
    OutOfDate,
    IncompatibleDisplay,
    ValidationFailed,
    OutOfPoolMemory,
    FullscreenExclusiveLost,
}

impl Error {
    /// Whether the error says that memory ran out, on the host or on the
    /// device.
    pub open spec fn spec_is_out_of_memory(self) -> bool {
        self is OutOfHostMemory || self is OutOfDeviceMemory
    }

    /// Tells whether the error says that memory ran out, on the host or on
    /// the device.
    pub fn is_out_of_memory(&self) -> (r: bool)
        ensures
            r == self.spec_is_out_of_memory(),
    {
        match self {
            Error::OutOfHostMemory => true,
            Error::OutOfDeviceMemory => true,
            _ => false,
        }
    }
}

/// What a native result code means: a success, an error, or nothing for a
/// code that the library does not expect from any command.
pub open spec fn classify_result_code(code: i32) -> Option<Result<Success, Error>> {
    if code == 0 {
        Some(Ok(Success::Success))
    } else if code == 1 {
        Some(Ok(Success::NotReady))
    } else if code == 2 {
        Some(Ok(Success::Timeout))
    } else if code == 3 {
        Some(Ok(Success::EventSet))
    } else if code == 4 {
        Some(Ok(Success::EventReset))
    } else if code == 5 {
        Some(Ok(Success::Incomplete))
    } else if code == 1_000_001_003 {
        Some(Ok(Success::Suboptimal))
    } else if code == -1 {
        Some(Err(Error::OutOfHostMemory))
    } else if code == -2 {
        Some(Err(Error::OutOfDeviceMemory))
    } else if code == -3 {
        Some(Err(Error::InitializationFailed))
    } else if code == -4 {
        Some(Err(Error::DeviceLost))
    } else if code == -5 {
        Some(Err(Error::MemoryMapFailed))
    } else if code == -6 {
        Some(Err(Error::LayerNotPresent))
    } else if code == -7 {
        Some(Err(Error::ExtensionNotPresent))
    } else if code == -8 {
        Some(Err(Error::FeatureNotPresent))
    } else if code == -9 {
        Some(Err(Error::IncompatibleDriver))
    } else if code == -10 {
        Some(Err(Error::TooManyObjects))
    } else if code == -11 {
        Some(Err(Error::FormatNotSupported))
    } else if code == -1_000_000_000 {
        Some(Err(Error::SurfaceLost))
    } else if code == -1_000_000_001 {
        Some(Err(Error::NativeWindowInUse))
    } else if code == -1_000_001_004 {
        Some(Err(Error::OutOfDate))
    } else if code == -1_000_003_001 {
        Some(Err(Error::IncompatibleDisplay))
    } else if code == -1_000_011_001 {
        Some(Err(Error::ValidationFailed))
    } else if code == -1_000_069_000 {
        Some(Err(Error::OutOfPoolMemory))
    } else if code == -1_000_255_000 {
        Some(Err(Error::FullscreenExclusiveLost))
    } else {
        None
    }
}

/// Tells what a native result means: a success, an error, or `None` for a
/// result that the library does not expect from any command.
pub fn classify_result(result: ash::vk::Result) -> (r: Option<Result<Success, Error>>)
    ensures
        r == classify_result_code(result_code(result)),
{
    let code: i32 = result.as_raw();
    match code {
        0 => Some(Ok(Success::Success)),
        1 => Some(Ok(Success::NotReady)),
        2 => Some(Ok(Success::Timeout)),
        3 => Some(Ok(Success::EventSet)),
        4 => Some(Ok(Success::EventReset)),
        5 => Some(Ok(Success::Incomplete)),
        1_000_001_003 => Some(Ok(Success::Suboptimal)),
        -1 => Some(Err(Error::OutOfHostMemory)),
        -2 => Some(Err(Error::OutOfDeviceMemory)),
        -3 => Some(Err(Error::InitializationFailed)),
        -4 => Some(Err(Error::DeviceLost)),
        -5 => Some(Err(Error::MemoryMapFailed)),
        -6 => Some(Err(Error::LayerNotPresent)),
        -7 => Some(Err(Error::ExtensionNotPresent)),
        -8 => Some(Err(Error::FeatureNotPresent)),
        -9 => Some(Err(Error::IncompatibleDriver)),
        -10 => Some(Err(Error::TooManyObjects)),
        -11 => Some(Err(Error::FormatNotSupported)),
        -1_000_000_000 => Some(Err(Error::SurfaceLost)),
        -1_000_000_001 => Some(Err(Error::NativeWindowInUse)),
        -1_000_001_004 => Some(Err(Error::OutOfDate)),
        -1_000_003_001 => Some(Err(Error::IncompatibleDisplay)),
        -1_000_011_001 => Some(Err(Error::ValidationFailed)),
        -1_000_069_000 => Some(Err(Error::OutOfPoolMemory)),
        -1_000_255_000 => Some(Err(Error::FullscreenExclusiveLost)),
        _ => None,
    }
}

impl OomError {
    /// The out-of-memory error that a native error stands for.
    pub open spec fn spec_from_error(err: Error) -> OomError {
        if err is OutOfHostMemory {
            OomError::OutOfHostMemory
        } else {
            OomError::OutOfDeviceMemory
        }
    }

    /// Converts a native error that says that memory ran out. No other
    /// native error can be converted.
    pub fn from_error(err: Error) -> (r: OomError)
        requires
            err.spec_is_out_of_memory(),
        ensures
            r == Self::spec_from_error(err),
    {
        match err {
            Error::OutOfHostMemory => OomError::OutOfHostMemory,
            _ => OomError::OutOfDeviceMemory,
        }
    }

    /// The text that describes the error to a reader.
    pub open spec fn spec_message(self) -> Seq<char> {
        match self {
            OomError::OutOfHostMemory => "no memory available on the host"@,
            OomError::OutOfDeviceMemory => "no memory available on the graphical device"@,
        }
    }

    /// Returns the text that describes the error to a reader.
    pub fn to_string(&self) -> (r: String)
        ensures
            r@ == self.spec_message(),
    {
        let message = match *self {
            OomError::OutOfHostMemory => "no memory available on the host",
            OomError::OutOfDeviceMemory => "no memory available on the graphical device",
        };
        message.to_owned()
    }
}

} // verus!
