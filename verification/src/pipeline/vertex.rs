//! How the contents of vertex buffers reach the vertex shader.

use crate::pipeline::shader::check_elements;
use crate::pipeline::shader::elements_mismatch;
use crate::pipeline::shader::entry_mismatch;
use crate::pipeline::shader::ShaderInterface;
use crate::pipeline::shader::ShaderInterfaceEntry;
use crate::pipeline::shader::ShaderInterfaceMismatchError;
use ash::vk::Format;
use vstd::prelude::*;

verus! {

/// Error that can happen when the vertex definition doesn't match the input
/// of the vertex shader.
#[derive(Debug, Copy, Clone, PartialEq, Eq, Structural)]
pub enum IncompatibleVertexDefinitionError {
    /// An attribute of the vertex shader is missing in the vertex source.
    MissingAttribute {
        /// Location of the missing attribute.
        location: u32,
    },
    /// The format of an attribute does not match.
    FormatMismatch {
        /// Location of the attribute.
        location: u32,
    },
}

/// How the vertex input data is advanced while drawing.
#[derive(Debug, Copy, Clone, PartialEq, Eq, Hash, Structural)]
pub enum VertexInputRate {
    /// Each element of the source corresponds to a vertex.
    Vertex,
    /// Each element of the source corresponds to an instance.
    ///
    /// `divisor` indicates how many consecutive instances will use the same
    /// instance buffer data. The value must be 1, unless the
    /// `vertex_attribute_instance_rate_divisor` feature is enabled on the
    /// device, and it must not be 0 unless the
    /// `vertex_attribute_instance_rate_zero_divisor` feature is enabled too.
    Instance { divisor: u32 },
}

/// Describes a single vertex buffer binding in a graphics pipeline.
#[derive(Debug, Copy, Clone, PartialEq, Eq, Hash, Structural)]
pub struct VertexInputBinding {
    /// The number of the binding.
    pub binding: u32,
    /// The size of each element in the vertex buffer.
    pub stride: u32,
    /// How often the vertex input should advance to the next element.
    pub input_rate: VertexInputRate,
}

/// Describes a single vertex shader input attribute in a graphics pipeline.
#[derive(Debug, Copy, Clone)]
pub struct VertexInputAttribute {
    /// The location of the attribute in the input of the vertex shader.
    pub location: u32,
    /// The vertex buffer binding number that this attribute should take its
    /// data from.
    pub binding: u32,
    /// The size and type of the vertex data.
    pub format: Format,
    /// Number of bytes between the start of a vertex buffer element and the
    /// location of attribute.
    pub offset: u32,
}

impl VertexInputAttribute {
    /// The attribute as an element of an interface: an element that takes
    /// the location of the attribute and no other. The last location that
    /// there is cannot be part of an interface, and an attribute there
    /// takes no location.
    pub open spec fn spec_as_entry(self) -> ShaderInterfaceEntry {
        ShaderInterfaceEntry {
            location_start: self.location,
            location_end: if self.location == u32::MAX {
                u32::MAX
            } else {
                (self.location + 1) as u32
            },
            format: self.format,
        }
    }

    /// Returns the attribute as an element of an interface.
    pub fn as_entry(&self) -> (r: ShaderInterfaceEntry)
        ensures
            r == self.spec_as_entry(),
    {
        ShaderInterfaceEntry {
            location_start: self.location,
            location_end: if self.location == u32::MAX {
                u32::MAX
            } else {
                self.location + 1
            },
            format: self.format,
        }
    }
}

/// The attributes as the elements of an interface, in the same order.
pub open spec fn attribute_entries(attributes: Seq<VertexInputAttribute>) -> Seq<
    ShaderInterfaceEntry,
> {
    Seq::new(attributes.len(), |i: int| attributes[i].spec_as_entry())
}

/// The first thing in which vertex attributes fail the input interface of
/// a vertex shader, if they fail it: the first location of the shader, in
/// the order of its elements, for which there is no attribute, or for which
/// the first attribute has another format than the shader declares.
pub open spec fn vertex_definition_mismatch(
    attributes: Seq<VertexInputAttribute>,
    shader_input: Seq<ShaderInterfaceEntry>,
) -> Option<IncompatibleVertexDefinitionError> {
    match elements_mismatch(shader_input, attribute_entries(attributes)) {
        Some(ShaderInterfaceMismatchError::MissingElement { location }) => Some(
            IncompatibleVertexDefinitionError::MissingAttribute { location },
        ),
        Some(ShaderInterfaceMismatchError::TypeMismatch { location }) => Some(
            IncompatibleVertexDefinitionError::FormatMismatch { location },
        ),
        _ => None,
    }
}

/// What is found when locations are checked one by one is always about a
/// single location, never about the number of elements.
proof fn lemma_elements_mismatch_is_local(
    elements: Seq<ShaderInterfaceEntry>,
    other: Seq<ShaderInterfaceEntry>,
)
    ensures
        !(elements_mismatch(elements, other) matches Some(
            ShaderInterfaceMismatchError::ElementsCountMismatch { .. },
        )),
    decreases elements.len(),
{
    if elements.len() > 0 {
        lemma_elements_mismatch_is_local(elements.drop_last(), other);
        lemma_entry_mismatch_is_local(other, elements.last(), elements.last().span());
    }
}

/// What is found among the locations of one element is always about a
/// single location.
proof fn lemma_entry_mismatch_is_local(
    other: Seq<ShaderInterfaceEntry>,
    entry: ShaderInterfaceEntry,
    count: nat,
)
    ensures
        !(entry_mismatch(other, entry, count) matches Some(
            ShaderInterfaceMismatchError::ElementsCountMismatch { .. },
        )),
    decreases count,
{
    if count > 0 {
        lemma_entry_mismatch_is_local(other, entry, (count - 1) as nat);
    }
}

/// Describes, for each vertex buffer binding and for each attribute of the
/// vertex shader, where the vertex data comes from.
#[derive(Debug)]
pub struct VertexInput {
    bindings: Vec<VertexInputBinding>,
    attributes: Vec<VertexInputAttribute>,
}

impl VertexInput {
    /// The vertex buffer bindings, in the order in which they were
    /// declared.
    pub closed spec fn spec_bindings(self) -> Seq<VertexInputBinding> {
        self.bindings@
    }

    /// The vertex attributes, in the order in which they were declared.
    pub closed spec fn spec_attributes(self) -> Seq<VertexInputAttribute> {
        self.attributes@
    }

    /// Constructs a new `VertexInput` from the given bindings and
    /// attributes.
    pub fn new(bindings: Vec<VertexInputBinding>, attributes: Vec<VertexInputAttribute>) -> (r:
        VertexInput)
        ensures
            r.spec_bindings() == bindings@,
            r.spec_attributes() == attributes@,
    {
        VertexInput { bindings, attributes }
    }

    /// Constructs a new empty `VertexInput`.
    pub fn empty() -> (r: VertexInput)
        ensures
            r.spec_bindings() == Seq::<VertexInputBinding>::empty(),
            r.spec_attributes() == Seq::<VertexInputAttribute>::empty(),
    {
        VertexInput { bindings: Vec::new(), attributes: Vec::new() }
    }

    /// Returns the vertex buffer bindings.
    #[inline]
    pub fn bindings(&self) -> (r: &Vec<VertexInputBinding>)
        ensures
            r@ == self.spec_bindings(),
    {
        &self.bindings
    }

    /// Returns the vertex attributes.
    #[inline]
    pub fn attributes(&self) -> (r: &Vec<VertexInputAttribute>)
        ensures
            r@ == self.spec_attributes(),
    {
        &self.attributes
    }

    /// Holds the vertex attributes against the input interface of a vertex
    /// shader: for every location of the shader there must be an attribute
    /// of the format that the shader declares.
    pub fn check_shader_input(&self, shader_input: &ShaderInterface) -> (r: Result<
        (),
        IncompatibleVertexDefinitionError,
    >)
        ensures
            r == match vertex_definition_mismatch(self.spec_attributes(), shader_input@) {
                Some(error) => Err::<(), IncompatibleVertexDefinitionError>(error),
                None => Ok(()),
            },
    {
        let mut entries: Vec<ShaderInterfaceEntry> = Vec::new();
        let mut i: usize = 0;
        while i < self.attributes.len()
            invariant
                i <= self.attributes.len(),
                entries@.len() == i,
                forall|j: int|
                    0 <= j < i ==> entries@[j] == (#[trigger] self.attributes@[j]).spec_as_entry(),
            decreases self.attributes.len() - i,
        {
            entries.push(self.attributes[i].as_entry());
            i += 1;
        }
        assert(entries@ =~= attribute_entries(self.attributes@));
        proof {
            lemma_elements_mismatch_is_local(shader_input@, entries@);
        }
        match check_elements(shader_input.elements(), &entries) {
            Ok(()) => Ok(()),
            Err(ShaderInterfaceMismatchError::MissingElement { location }) => Err(
                IncompatibleVertexDefinitionError::MissingAttribute { location },
            ),
            Err(ShaderInterfaceMismatchError::TypeMismatch { location }) => Err(
                IncompatibleVertexDefinitionError::FormatMismatch { location },
            ),
            Err(ShaderInterfaceMismatchError::ElementsCountMismatch { .. }) => Ok(()),
        }
    }
}

} // verus!
