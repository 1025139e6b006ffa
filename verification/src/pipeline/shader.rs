//! What a shader stage takes in and gives out.

use crate::image::format_code;
use crate::image::same_format;
use crate::pipeline::input_assembly::PrimitiveTopology;
use ash::vk::Format;
use vstd::prelude::*;

verus! {

/// Error that can happen when the interface of one shader stage is held
/// against that of the next.
#[derive(Debug, Copy, Clone, PartialEq, Eq, Structural)]
pub enum ShaderInterfaceMismatchError {
    /// The number of elements is not the same between the two shader
    /// interfaces.
    ElementsCountMismatch {
        /// Number of elements in the first interface.
        self_elements: u32,
        /// Number of elements in the second interface.
        other_elements: u32,
    },
    /// An element is missing from one of the interfaces.
    MissingElement {
        /// Location of the missing element.
        location: u32,
    },
    /// The type of an element does not match.
    TypeMismatch {
        /// Location of the element that mismatches.
        location: u32,
    },
}

/// Entry of a shader interface definition.
#[derive(Debug, Copy, Clone)]
pub struct ShaderInterfaceEntry {
    /// The first location that the element takes.
    pub location_start: u32,
    /// The location after the last one that the element takes.
    pub location_end: u32,
    /// Format of a each location of the element.
    pub format: Format,
}

impl ShaderInterfaceEntry {
    /// Whether the element takes location `location`.
    pub open spec fn covers(self, location: u32) -> bool {
        self.location_start <= location < self.location_end
    }

    /// The number of locations that the element takes.
    pub open spec fn span(self) -> nat {
        if self.location_start <= self.location_end {
            (self.location_end - self.location_start) as nat
        } else {
            0
        }
    }
}

/// The index of the first of `elements` that takes `location`, if one does.
pub open spec fn first_covering(elements: Seq<ShaderInterfaceEntry>, location: u32) -> Option<int>
    decreases elements.len(),
{
    if elements.len() == 0 {
        None
    } else {
        match first_covering(elements.drop_last(), location) {
            Some(j) => Some(j),
            None => if elements.last().covers(location) {
                Some(elements.len() - 1)
            } else {
                None
            },
        }
    }
}

/// What is wrong at `location`, where the one interface has an element of
/// format `format`, when held against the elements of the other interface:
/// no element of the other takes the location, or the first that does has
/// another format.
pub open spec fn location_mismatch(
    other: Seq<ShaderInterfaceEntry>,
    location: u32,
    format: Format,
) -> Option<ShaderInterfaceMismatchError> {
    match first_covering(other, location) {
        None => Some(ShaderInterfaceMismatchError::MissingElement { location }),
        Some(j) => if format_code(other[j].format) != format_code(format) {
            Some(ShaderInterfaceMismatchError::TypeMismatch { location })
        } else {
            None
        },
    }
}

/// The first thing that is wrong among the first `count` locations of
/// `entry`, in ascending order, when held against the elements of the
/// other interface.
pub open spec fn entry_mismatch(
    other: Seq<ShaderInterfaceEntry>,
    entry: ShaderInterfaceEntry,
    count: nat,
) -> Option<ShaderInterfaceMismatchError>
    decreases count,
{
    if count == 0 {
        None
    } else {
        match entry_mismatch(other, entry, (count - 1) as nat) {
            Some(error) => Some(error),
            None => location_mismatch(
                other,
                (entry.location_start + count - 1) as u32,
                entry.format,
            ),
        }
    }
}

/// The first thing that is wrong among the locations of `elements`, taken
/// element by element, when held against the elements of the other
/// interface.
pub open spec fn elements_mismatch(
    elements: Seq<ShaderInterfaceEntry>,
    other: Seq<ShaderInterfaceEntry>,
) -> Option<ShaderInterfaceMismatchError>
    decreases elements.len(),
{
    if elements.len() == 0 {
        None
    } else {
        match elements_mismatch(elements.drop_last(), other) {
            Some(error) => Some(error),
            None => entry_mismatch(other, elements.last(), elements.last().span()),
        }
    }
}

/// The first thing in which the interface with `elements` differs from the
/// one with `other`, if they differ: the number of elements, or else the
/// first location of `elements` that `other` lacks or has in another
/// format.
pub open spec fn interface_mismatch(
    elements: Seq<ShaderInterfaceEntry>,
    other: Seq<ShaderInterfaceEntry>,
) -> Option<ShaderInterfaceMismatchError> {
    if elements.len() != other.len() {
        Some(
            ShaderInterfaceMismatchError::ElementsCountMismatch {
                self_elements: elements.len() as u32,
                other_elements: other.len() as u32,
            },
        )
    } else {
        elements_mismatch(elements, other)
    }
}

/// Type that contains the definition of an interface between two shader
/// stages, or between the outside and a shader stage.
#[derive(Debug)]
pub struct ShaderInterface {
    elements: Vec<ShaderInterfaceEntry>,
}

impl ShaderInterface {
    /// The elements of the interface.
    pub closed spec fn view(&self) -> Seq<ShaderInterfaceEntry> {
        self.elements@
    }

    /// Constructs a new `ShaderInterface`.
    pub fn new(elements: Vec<ShaderInterfaceEntry>) -> (r: ShaderInterface)
        ensures
            r@ == elements@,
    {
        ShaderInterface { elements }
    }

    /// Creates a description of an empty shader interface.
    pub fn empty() -> (r: ShaderInterface)
        ensures
            r@ == Seq::<ShaderInterfaceEntry>::empty(),
    {
        ShaderInterface { elements: Vec::new() }
    }

    /// Returns a slice containing the elements of the interface.
    #[inline]
    pub fn elements(&self) -> (r: &Vec<ShaderInterfaceEntry>)
        ensures
            r@ == self@,
    {
        &self.elements
    }

    /// Checks whether the interface is potentially compatible with another
    /// one: they have the same number of elements, and every location of
    /// this interface is a location of the other, in the same format.
    ///
    /// Returns `Ok` if the two interfaces are compatible, and the first
    /// difference if they are not.
    pub fn matches(&self, other: &ShaderInterface) -> (r: Result<(), ShaderInterfaceMismatchError>)
        ensures
            r == match interface_mismatch(self@, other@) {
                Some(error) => Err::<(), ShaderInterfaceMismatchError>(error),
                None => Ok(()),
            },
    {
        if self.elements.len() != other.elements.len() {
            return Err(
                ShaderInterfaceMismatchError::ElementsCountMismatch {
                    self_elements: truncate_count(self.elements.len()),
                    other_elements: truncate_count(other.elements.len()),
                },
            );
        }
        check_elements(&self.elements, &other.elements)
    }
}

/// Holds every location of `elements` against the elements of the other
/// interface, element by element.
pub(crate) fn check_elements(
    elements: &Vec<ShaderInterfaceEntry>,
    other: &Vec<ShaderInterfaceEntry>,
) -> (r: Result<(), ShaderInterfaceMismatchError>)
    ensures
        r == match elements_mismatch(elements@, other@) {
            Some(error) => Err::<(), ShaderInterfaceMismatchError>(error),
            None => Ok(()),
        },
{
    let mut i: usize = 0;
    while i < elements.len()
        invariant
            i <= elements.len(),
            elements_mismatch(elements@.take(i as int), other@) is None,
        decreases elements.len() - i,
    {
        let entry = elements[i];
        proof {
            assert(elements@.take(i as int + 1).drop_last() =~= elements@.take(i as int));
            assert(elements@.take(i as int + 1).last() == entry);
            assert(elements_mismatch(elements@.take(i as int + 1), other@) == entry_mismatch(
                other@,
                entry,
                entry.span(),
            ));
        }
        match check_entry(other, &entry) {
            Err(error) => {
                proof {
                    lemma_elements_mismatch_prefix(elements@, other@, i as int + 1);
                }
                return Err(error);
            },
            Ok(()) => {},
        }
        i += 1;
    }
    assert(elements@.take(i as int) =~= elements@);
    Ok(())
}

/// A number of elements as an error carries it: the low 32 bits of the
/// number.
pub(crate) fn truncate_count(count: usize) -> (r: u32)
    ensures
        r == count as u32,
{
    assert(count & 0xffff_ffff == count as u32) by (bit_vector);
    assert(count & 0xffff_ffff <= 0xffff_ffff) by (bit_vector);
    (count & 0xffff_ffff) as u32
}

/// A mismatch among the first elements of an interface is the mismatch of
/// the whole interface.
proof fn lemma_elements_mismatch_prefix(
    elements: Seq<ShaderInterfaceEntry>,
    other: Seq<ShaderInterfaceEntry>,
    n: int,
)
    requires
        0 <= n <= elements.len(),
        elements_mismatch(elements.take(n), other) is Some,
    ensures
        elements_mismatch(elements, other) == elements_mismatch(elements.take(n), other),
    decreases elements.len() - n,
{
    if n == elements.len() {
        assert(elements.take(n) =~= elements);
    } else {
        assert(elements.take(n + 1).drop_last() =~= elements.take(n));
        lemma_elements_mismatch_prefix(elements, other, n + 1);
    }
}

/// Looks for the first of `elements` that takes `location`.
fn find_covering(elements: &Vec<ShaderInterfaceEntry>, location: u32) -> (r: Option<usize>)
    ensures
        r matches Some(j) ==> first_covering(elements@, location) == Some(j as int) && j
            < elements@.len(),
        r is None ==> first_covering(elements@, location) is None,
{
    let mut j: usize = 0;
    while j < elements.len()
        invariant
            j <= elements.len(),
            first_covering(elements@.take(j as int), location) is None,
        decreases elements.len() - j,
    {
        let candidate = elements[j];
        proof {
            assert(elements@.take(j as int + 1).drop_last() =~= elements@.take(j as int));
        }
        if candidate.location_start <= location && location < candidate.location_end {
            proof {
                lemma_first_covering_prefix(elements@, location, j as int + 1);
            }
            return Some(j);
        }
        j += 1;
    }
    assert(elements@.take(j as int) =~= elements@);
    None
}

/// An element among the first of an interface that takes a location is the
/// first of the whole interface that does.
proof fn lemma_first_covering_prefix(elements: Seq<ShaderInterfaceEntry>, location: u32, n: int)
    requires
        0 <= n <= elements.len(),
        first_covering(elements.take(n), location) is Some,
    ensures
        first_covering(elements, location) == first_covering(elements.take(n), location),
    decreases elements.len() - n,
{
    if n == elements.len() {
        assert(elements.take(n) =~= elements);
    } else {
        assert(elements.take(n + 1).drop_last() =~= elements.take(n));
        lemma_first_covering_prefix(elements, location, n + 1);
    }
}

/// Holds every location of `entry` against the elements of the other
/// interface, in ascending order.
fn check_entry(other: &Vec<ShaderInterfaceEntry>, entry: &ShaderInterfaceEntry) -> (r: Result<
    (),
    ShaderInterfaceMismatchError,
>)
    ensures
        r == match entry_mismatch(other@, *entry, entry.span()) {
            Some(error) => Err::<(), ShaderInterfaceMismatchError>(error),
            None => Ok(()),
        },
{
    let mut location: u32 = entry.location_start;
    let ghost mut done: nat = 0;
    while location < entry.location_end
        invariant
            entry.location_start <= location,
            location <= entry.location_end || done == 0,
            done == location - entry.location_start,
            done <= entry.span(),
            entry_mismatch(other@, *entry, done) is None,
        decreases entry.location_end - location,
    {
        let found = find_covering(other, location);
        let wrong = match found {
            None => Some(ShaderInterfaceMismatchError::MissingElement { location }),
            Some(j) => if !same_format(other[j].format, entry.format) {
                Some(ShaderInterfaceMismatchError::TypeMismatch { location })
            } else {
                None
            },
        };
        assert(wrong == location_mismatch(other@, location, entry.format));
        assert(entry_mismatch(other@, *entry, done + 1) == wrong);
        match wrong {
            Some(error) => {
                proof {
                    lemma_entry_mismatch_prefix(other@, *entry, done + 1, entry.span());
                }
                return Err(error);
            },
            None => {},
        }
        location += 1;
        proof {
            done = done + 1;
        }
    }
    assert(done == entry.span());
    Ok(())
}

/// A mismatch among the first locations of an element is the mismatch of
/// the whole element.
proof fn lemma_entry_mismatch_prefix(
    other: Seq<ShaderInterfaceEntry>,
    entry: ShaderInterfaceEntry,
    n: nat,
    m: nat,
)
    requires
        n <= m,
        entry_mismatch(other, entry, n) is Some,
    ensures
        entry_mismatch(other, entry, m) == entry_mismatch(other, entry, n),
    decreases m - n,
{
    if n < m {
        lemma_entry_mismatch_prefix(other, entry, n, (m - 1) as nat);
    }
}

/// Declares which type of primitives are expected by the geometry shader.
#[derive(Debug, Copy, Clone, PartialEq, Eq, Structural)]
pub enum GeometryShaderExecutionMode {
    Points,
    Lines,
    LinesWithAdjacency,
    Triangles,
    TrianglesWithAdjacency,
}

impl GeometryShaderExecutionMode {
    /// Whether the primitives of topology `input` are of the type that the
    /// geometry shader expects.
    pub open spec fn spec_matches(self, input: PrimitiveTopology) -> bool {
        match self {
            GeometryShaderExecutionMode::Points => input is PointList,
            GeometryShaderExecutionMode::Lines => input is LineList || input is LineStrip,
            GeometryShaderExecutionMode::LinesWithAdjacency => input is LineListWithAdjacency
                || input is LineStripWithAdjacency,
            GeometryShaderExecutionMode::Triangles => input is TriangleList
                || input is TriangleStrip || input is TriangleFan,
            GeometryShaderExecutionMode::TrianglesWithAdjacency => input
                is TriangleListWithAdjacency || input is TriangleStripWithAdjacency,
        }
    }

    /// Returns true if the given primitive topology can be used with this
    /// execution mode.
    #[inline]
    pub fn matches(&self, input: PrimitiveTopology) -> (r: bool)
        ensures
            r == self.spec_matches(input),
    {
        match (*self, input) {
            (GeometryShaderExecutionMode::Points, PrimitiveTopology::PointList) => true,
            (GeometryShaderExecutionMode::Lines, PrimitiveTopology::LineList) => true,
            (GeometryShaderExecutionMode::Lines, PrimitiveTopology::LineStrip) => true,
            (
                GeometryShaderExecutionMode::LinesWithAdjacency,
                PrimitiveTopology::LineListWithAdjacency,
            ) => true,
            (
                GeometryShaderExecutionMode::LinesWithAdjacency,
                PrimitiveTopology::LineStripWithAdjacency,
            ) => true,
            (GeometryShaderExecutionMode::Triangles, PrimitiveTopology::TriangleList) => true,
            (GeometryShaderExecutionMode::Triangles, PrimitiveTopology::TriangleStrip) => true,
            (GeometryShaderExecutionMode::Triangles, PrimitiveTopology::TriangleFan) => true,
            (
                GeometryShaderExecutionMode::TrianglesWithAdjacency,
                PrimitiveTopology::TriangleListWithAdjacency,
            ) => true,
            (
                GeometryShaderExecutionMode::TrianglesWithAdjacency,
                PrimitiveTopology::TriangleStripWithAdjacency,
            ) => true,
            _ => false,
        }
    }
}

} // verus!
