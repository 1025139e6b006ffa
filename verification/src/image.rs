//! What the library needs to know of images and of the views on them.

use vstd::prelude::*;

verus! {

/// The native description of how the texels of an image are laid out.
#[verifier::external_type_specification]
#[verifier::external_body]
pub struct ExFormat(ash::vk::Format);

/// The number that identifies a format among the formats of the native
/// layer.
pub uninterp spec fn format_code(format: ash::vk::Format) -> i32;

/// `ash::vk::Format::as_raw`: the number that identifies the format.
pub assume_specification[ ash::vk::Format::as_raw ](format: ash::vk::Format) -> (code: i32)
    ensures
        code == format_code(format),
;

/// Tells whether two formats are the same format.
pub fn same_format(a: ash::vk::Format, b: ash::vk::Format) -> (r: bool)
    ensures
        r == (format_code(a) == format_code(b)),
{
    a.as_raw() == b.as_raw()
}

/// The geometry type of an image view.
#[derive(Debug, Copy, Clone, PartialEq, Eq, Hash, Structural)]
pub enum ImageViewType {
    Dim1d,
    Dim1dArray,
    Dim2d,
    Dim2dArray,
    Dim3d,
    Cubemap,
    CubemapArray,
}

/// How an image can be used.
#[derive(Debug, Copy, Clone, PartialEq, Eq, Hash, Structural)]
pub struct ImageUsage {
    /// Can be sampled from a shader.
    pub sampled: bool,
    /// Can be used as an image storage in a shader.
    pub storage: bool,
    /// Can be used as an input attachment in a framebuffer.
    pub input_attachment: bool,
}

/// What a descriptor set reads of an image view that is bound to it.
#[derive(Debug, Copy, Clone)]
pub struct ImageViewInfo {
    /// The number that identifies the native image view.
    pub handle: u64,
    /// The number that identifies the device of the image.
    pub device: u64,
    /// The format of the view.
    pub format: ash::vk::Format,
    /// The geometry type of the view.
    pub view_type: ImageViewType,
    /// The number of samples of each texel of the image.
    pub samples: u32,
    /// The number of array layers that the view covers.
    pub array_layers: u32,
    /// How the image can be used.
    pub usage: ImageUsage,
    /// True if the view hands each component on as it is.
    pub identity_swizzle: bool,
}

} // verus!
