//! Bindings between shaders and the resources they access.
//!
//! In order to access a buffer or an image from a shader, that buffer or
//! image must be put in a *descriptor*. Each descriptor contains one buffer
//! or one image alongside with the way that it can be accessed. A descriptor
//! can also be an array, in which case it contains multiple buffers or
//! images that all have the same layout.
//!
//! Descriptors are grouped in what is called *descriptor sets*. A set is
//! created for a layout, which says what each of its bindings holds, and is
//! then bound as a whole, together with one dynamic offset for each binding
//! that the layout declares as dynamic.

pub mod builder;
pub mod layout;

use self::builder::BufferInfo;
use self::layout::DescriptorDesc;
use self::layout::DescriptorDescTy;
use self::layout::DescriptorSetLayout;
use crate::image::ImageViewInfo;
use crate::image::ImageViewType;
use crate::DeviceSize;
use crate::OomError;
use ash::vk::Format;
use smallvec::SmallVec;
use std::sync::Arc;
use vstd::prelude::*;

verus! {

/// A native descriptor set, by the number that identifies it. Nothing keeps
/// track of the resources that are bound to it.
#[derive(Debug)]
pub struct UnsafeDescriptorSet {
    handle: u64,
}

impl UnsafeDescriptorSet {
    /// The number that identifies the native descriptor set.
    pub closed spec fn spec_internal_object(self) -> u64 {
        self.handle
    }

    /// Wraps the native descriptor set that `handle` identifies.
    pub fn new(handle: u64) -> (r: UnsafeDescriptorSet)
        ensures
            r.spec_internal_object() == handle,
    {
        UnsafeDescriptorSet { handle }
    }

    /// Returns the number that identifies the native descriptor set.
    pub fn internal_object(&self) -> (r: u64)
        ensures
            r == self.spec_internal_object(),
    {
        self.handle
    }
}

/// Trait for objects that contain a collection of resources that will be
/// accessible by shaders.
///
/// Objects of this type can be passed when submitting a draw command. The
/// implementor keeps the resources of the set alive and in the state that
/// the layout asks for as long as the set may be in use.
pub trait DescriptorSet: Send + Sync {
    /// Returns the inner `UnsafeDescriptorSet`.
    fn inner(&self) -> &UnsafeDescriptorSet;

    /// Returns the layout of this descriptor set.
    fn layout(&self) -> &Arc<DescriptorSetLayout>;

    /// Returns the number of buffers within this descriptor set.
    fn num_buffers(&self) -> usize;

    /// Returns the `index`th buffer of this descriptor set, or `None` if
    /// out of range. Also returns the index of the descriptor that uses
    /// this buffer.
    ///
    /// The valid range is between 0 and `num_buffers()`.
    fn buffer(&self, index: usize) -> Option<(BufferInfo, u32)>;

    /// Returns the number of images within this descriptor set.
    fn num_images(&self) -> usize;

    /// Returns the `index`th image of this descriptor set, or `None` if out
    /// of range. Also returns the index of the descriptor that uses this
    /// image.
    ///
    /// The valid range is between 0 and `num_images()`.
    fn image(&self, index: usize) -> Option<(ImageViewInfo, u32)>;
}

/// Whether `identity` is what identifies a descriptor set among all sets:
/// the number of its native set, which `inner` returns, and the number of
/// the device of its layout, which `layout` returns.
pub open spec fn identifies<S: DescriptorSet>(set: &S, identity: (u64, u64)) -> bool {
    exists|inner: &UnsafeDescriptorSet, layout: &Arc<DescriptorSetLayout>|
        {
            &&& #[trigger] call_ensures(S::inner, (set,), inner)
            &&& #[trigger] call_ensures(S::layout, (set,), layout)
            &&& identity.0 == inner.spec_internal_object()
            &&& identity.1 == layout.spec_device().spec_handle()
        }
}

/// Returns what identifies a descriptor set among all sets, and what a
/// hash of the set is made of: the number of its native set and the number
/// of its device. The contents of the set play no part.
pub fn descriptor_set_identity<S: DescriptorSet>(set: &S) -> (r: (u64, u64))
    ensures
        identifies(set, r),
{
    let inner = set.inner();
    let layout = set.layout();
    (inner.internal_object(), layout.device().handle())
}

/// Tells whether two descriptor sets are the same set: the same native set
/// on the same device. Two distinct sets are never equal, even if their
/// contents coincide.
pub fn descriptor_set_eq<A: DescriptorSet, B: DescriptorSet>(a: &A, b: &B) -> (r: bool)
    ensures
        exists|ia: (u64, u64), ib: (u64, u64)|
            #![trigger identifies(a, ia), identifies(b, ib)]
            identifies(a, ia) && identifies(b, ib) && r == (ia == ib),
{
    let ia = descriptor_set_identity(a);
    let ib = descriptor_set_identity(b);
    ia.0 == ib.0 && ia.1 == ib.1
}

/// A list of dynamic offsets, kept in a `SmallVec`: a vector that holds up
/// to four of them inline and moves to the heap when there are more.
#[verifier::external_body]
pub struct DynamicOffsets {
    inner: SmallVec<[u32; 4]>,
}

/// The offsets that a list holds, in order.
pub uninterp spec fn offsets_of(offsets: DynamicOffsets) -> Seq<u32>;

/// `SmallVec::from_vec`: a small vector that holds the items of `offsets`
/// in the same order.
#[verifier::external_body]
fn offsets_from_vec(offsets: Vec<u32>) -> (r: DynamicOffsets)
    ensures
        offsets_of(r) == offsets@,
{
    DynamicOffsets { inner: SmallVec::from_vec(offsets) }
}

/// `SmallVec::len`: the number of items.
#[verifier::external_body]
fn offsets_len(offsets: &DynamicOffsets) -> (r: usize)
    ensures
        r == offsets_of(*offsets).len(),
{
    offsets.inner.len()
}

/// `SmallVec::index`: the item at `index`, which must be in range.
#[verifier::external_body]
fn offsets_get(offsets: &DynamicOffsets, index: usize) -> (r: u32)
    requires
        index < offsets_of(*offsets).len(),
    ensures
        r == offsets_of(*offsets)[index as int],
{
    offsets.inner[index]
}

/// `SmallVec::as_slice`: a slice of all the items, in order.
#[verifier::external_body]
fn offsets_as_slice(offsets: &DynamicOffsets) -> (r: &[u32])
    ensures
        r@ == offsets_of(*offsets),
{
    offsets.inner.as_slice()
}

/// `SmallVec::into_vec`: a vector of all the items, in order.
#[verifier::external_body]
fn offsets_into_vec(offsets: DynamicOffsets) -> (r: Vec<u32>)
    ensures
        r@ == offsets_of(offsets),
{
    offsets.inner.into_vec()
}

/// The alignment that a device reports, as a dynamic offset is held to it:
/// the low 32 bits of the value.
pub open spec fn offset_alignment(alignment: DeviceSize) -> u32 {
    (alignment % 0x1_0000_0000) as u32
}

/// The types of the bindings that take a dynamic offset, in the order in
/// which the layout declares them. Empty bindings take none.
pub open spec fn dynamic_types(bindings: Seq<Option<DescriptorDesc>>) -> Seq<DescriptorDescTy>
    decreases bindings.len(),
{
    if bindings.len() == 0 {
        Seq::empty()
    } else {
        let before = dynamic_types(bindings.drop_last());
        match bindings.last() {
            Some(desc) => if desc.ty.spec_is_dynamic() {
                before.push(desc.ty)
            } else {
                before
            },
            None => before,
        }
    }
}

/// The alignment that the offset of a dynamic binding of type `ty` must
/// have: that of storage buffers or that of uniform buffers.
pub open spec fn alignment_for(ty: DescriptorDescTy, uniform: u32, storage: u32) -> u32 {
    if ty is StorageBufferDynamic {
        storage
    } else {
        uniform
    }
}

/// Whether `offset` is a multiple of `alignment`. Nothing is a multiple of
/// an alignment of zero.
pub open spec fn is_aligned(offset: u32, alignment: u32) -> bool {
    alignment != 0 && offset % alignment == 0
}

/// Whether offset number `k` goes with a dynamic binding and has the
/// alignment that this binding asks for.
pub open spec fn offset_fits(
    tys: Seq<DescriptorDescTy>,
    offsets: Seq<u32>,
    uniform: u32,
    storage: u32,
    k: int,
) -> bool {
    is_aligned(offsets[k], alignment_for(tys[k], uniform, storage))
}

/// Whether `offsets` can be bound with a set whose layout has `bindings`:
/// there is exactly one offset for each dynamic binding, in the order of
/// the bindings, and each is a multiple of the alignment of its binding.
pub open spec fn dynamic_offsets_valid(
    bindings: Seq<Option<DescriptorDesc>>,
    offsets: Seq<u32>,
    uniform: u32,
    storage: u32,
) -> bool {
    let tys = dynamic_types(bindings);
    &&& offsets.len() == tys.len()
    &&& forall|k: int| 0 <= k < tys.len() ==> offset_fits(tys, offsets, uniform, storage, k)
}

/// Whether `offsets` can be bound with a set of layout `layout`, on the
/// device that the layout was created on.
pub open spec fn layout_accepts_offsets(layout: DescriptorSetLayout, offsets: Seq<u32>) -> bool {
    dynamic_offsets_valid(
        layout.spec_bindings(),
        offsets,
        offset_alignment(layout.spec_device().spec_properties().min_uniform_buffer_offset_alignment),
        offset_alignment(layout.spec_device().spec_properties().min_storage_buffer_offset_alignment),
    )
}

/// What is wrong with a list of dynamic offsets.
#[derive(Debug, Copy, Clone, PartialEq, Eq, Structural)]
pub enum DynamicOffsetsError {
    /// The offset of a dynamic storage buffer is not a multiple of the
    /// alignment that the device asks for.
    StorageOffsetMisaligned { offset: u32, alignment: u32 },
    /// The offset of a dynamic uniform buffer is not a multiple of the
    /// alignment that the device asks for.
    UniformOffsetMisaligned { offset: u32, alignment: u32 },
    /// There are less offsets than dynamic bindings.
    TooFew { obtained: usize, expected: usize },
    /// There are more offsets than dynamic bindings.
    TooMany { obtained: usize, expected: usize },
}

/// Whether offset number `k` is the first one that goes with a dynamic
/// binding and does not have the alignment of that binding.
pub open spec fn first_misaligned(
    tys: Seq<DescriptorDescTy>,
    offsets: Seq<u32>,
    uniform: u32,
    storage: u32,
    k: int,
) -> bool {
    &&& 0 <= k < tys.len()
    &&& k < offsets.len()
    &&& !offset_fits(tys, offsets, uniform, storage, k)
    &&& forall|j: int| 0 <= j < k ==> offset_fits(tys, offsets, uniform, storage, j)
}

/// Whether every offset that goes with a dynamic binding has the alignment
/// of that binding.
pub open spec fn all_aligned(
    tys: Seq<DescriptorDescTy>,
    offsets: Seq<u32>,
    uniform: u32,
    storage: u32,
) -> bool {
    forall|j: int|
        0 <= j < tys.len() && j < offsets.len() ==> offset_fits(tys, offsets, uniform, storage, j)
}

/// Whether `error` is what is reported of `offsets`: the first misaligned
/// offset if there is one, and else the wrong number of offsets.
pub open spec fn reports(
    bindings: Seq<Option<DescriptorDesc>>,
    offsets: Seq<u32>,
    uniform: u32,
    storage: u32,
    error: DynamicOffsetsError,
) -> bool {
    let tys = dynamic_types(bindings);
    match error {
        DynamicOffsetsError::StorageOffsetMisaligned { .. }
        | DynamicOffsetsError::UniformOffsetMisaligned { .. } => exists|k: int|
            {
                &&& #[trigger] first_misaligned(tys, offsets, uniform, storage, k)
                &&& error_is_at(error, tys, offsets, uniform, storage, k)
            },
        DynamicOffsetsError::TooFew { obtained, expected } => {
            &&& all_aligned(tys, offsets, uniform, storage)
            &&& offsets.len() < tys.len()
            &&& obtained == offsets.len()
            &&& expected == tys.len()
        },
        DynamicOffsetsError::TooMany { obtained, expected } => {
            &&& all_aligned(tys, offsets, uniform, storage)
            &&& offsets.len() > tys.len()
            &&& obtained == offsets.len()
            &&& expected == tys.len()
        },
    }
}

/// What is reported of a list of offsets is decided by the list and the
/// layout: no two different errors fit the same list, and none fits a list
/// that the layout accepts.
pub proof fn lemma_report_is_unique(
    bindings: Seq<Option<DescriptorDesc>>,
    offsets: Seq<u32>,
    uniform: u32,
    storage: u32,
    error: DynamicOffsetsError,
    other: DynamicOffsetsError,
)
    requires
        reports(bindings, offsets, uniform, storage, error),
    ensures
        !dynamic_offsets_valid(bindings, offsets, uniform, storage),
        reports(bindings, offsets, uniform, storage, other) ==> other == error,
{
    let tys = dynamic_types(bindings);
    match error {
        DynamicOffsetsError::StorageOffsetMisaligned { .. }
        | DynamicOffsetsError::UniformOffsetMisaligned { .. } => {
            let k = choose|k: int|
                {
                    &&& #[trigger] first_misaligned(tys, offsets, uniform, storage, k)
                    &&& error_is_at(error, tys, offsets, uniform, storage, k)
                };
            assert(!offset_fits(tys, offsets, uniform, storage, k));
            if reports(bindings, offsets, uniform, storage, other) {
                match other {
                    DynamicOffsetsError::StorageOffsetMisaligned { .. }
                    | DynamicOffsetsError::UniformOffsetMisaligned { .. } => {
                        let m = choose|m: int|
                            {
                                &&& #[trigger] first_misaligned(tys, offsets, uniform, storage, m)
                                &&& error_is_at(other, tys, offsets, uniform, storage, m)
                            };
                        lemma_first_misaligned_is_unique(tys, offsets, uniform, storage, k, m);
                    },
                    _ => {},
                }
            }
        },
        _ => {
            if reports(bindings, offsets, uniform, storage, other) {
                match other {
                    DynamicOffsetsError::StorageOffsetMisaligned { .. }
                    | DynamicOffsetsError::UniformOffsetMisaligned { .. } => {
                        let m = choose|m: int| #[trigger]
                            first_misaligned(tys, offsets, uniform, storage, m);
                        assert(!offset_fits(tys, offsets, uniform, storage, m));
                    },
                    _ => {},
                }
            }
        },
    }
}

/// Whether `error` says that offset number `k` is misaligned, with the
/// offset and the alignment that belong to that place.
pub open spec fn error_is_at(
    error: DynamicOffsetsError,
    tys: Seq<DescriptorDescTy>,
    offsets: Seq<u32>,
    uniform: u32,
    storage: u32,
    k: int,
) -> bool {
    match error {
        DynamicOffsetsError::StorageOffsetMisaligned { offset, alignment } => {
            &&& tys[k] is StorageBufferDynamic
            &&& offset == offsets[k]
            &&& alignment == storage
        },
        DynamicOffsetsError::UniformOffsetMisaligned { offset, alignment } => {
            &&& tys[k] is UniformBufferDynamic
            &&& offset == offsets[k]
            &&& alignment == uniform
        },
        _ => false,
    }
}

/// Only one offset can be the first that is misaligned.
proof fn lemma_first_misaligned_is_unique(
    tys: Seq<DescriptorDescTy>,
    offsets: Seq<u32>,
    uniform: u32,
    storage: u32,
    k: int,
    m: int,
)
    requires
        first_misaligned(tys, offsets, uniform, storage, k),
        first_misaligned(tys, offsets, uniform, storage, m),
    ensures
        k == m,
{
    if k < m {
        assert(offset_fits(tys, offsets, uniform, storage, k));
    } else if m < k {
        assert(offset_fits(tys, offsets, uniform, storage, m));
    }
}

/// The types of the dynamic bindings among the first `n + 1` bindings are
/// those among the first `n`, followed by the type of binding `n` if that
/// one is dynamic.
proof fn lemma_dynamic_types_step(bindings: Seq<Option<DescriptorDesc>>, n: int)
    requires
        0 <= n < bindings.len(),
    ensures
        dynamic_types(bindings.take(n + 1)) == match bindings[n] {
            Some(desc) => if desc.ty.spec_is_dynamic() {
                dynamic_types(bindings.take(n)).push(desc.ty)
            } else {
                dynamic_types(bindings.take(n))
            },
            None => dynamic_types(bindings.take(n)),
        },
{
    assert(bindings.take(n + 1).drop_last() =~= bindings.take(n));
}

/// Truncates the alignment that a device reports to the 32 bits that a
/// dynamic offset has.
fn truncate_alignment(alignment: DeviceSize) -> (r: u32)
    ensures
        r == offset_alignment(alignment),
{
    assert(alignment & 0xffff_ffff == alignment % 0x1_0000_0000) by (bit_vector);
    assert(alignment & 0xffff_ffff <= 0xffff_ffff) by (bit_vector);
    (alignment & 0xffff_ffff) as u32
}

/// Walks the bindings of `layout` in the order in which they are declared
/// and holds the offsets in `offsets` against the dynamic ones.
fn check_offsets(layout: &DescriptorSetLayout, offsets: &DynamicOffsets) -> (r: Result<
    (),
    DynamicOffsetsError,
>)
    ensures
        r is Ok <==> layout_accepts_offsets(*layout, offsets_of(*offsets)),
        r matches Err(error) ==> reports(
            layout.spec_bindings(),
            offsets_of(*offsets),
            offset_alignment(
                layout.spec_device().spec_properties().min_uniform_buffer_offset_alignment,
            ),
            offset_alignment(
                layout.spec_device().spec_properties().min_storage_buffer_offset_alignment,
            ),
            error,
        ),
{
    let properties = layout.device().properties();
    let min_uniform_off_align = truncate_alignment(properties.min_uniform_buffer_offset_alignment);
    let min_storage_off_align = truncate_alignment(properties.min_storage_buffer_offset_alignment);
    let bindings = layout.desc().bindings();
    let len = offsets_len(offsets);
    let mut dynamic_offset_index: usize = 0;

    let ghost all = bindings@;
    let ghost given = offsets_of(*offsets);
    let mut i: usize = 0;
    while i < bindings.len()
        invariant
            i <= bindings.len(),
            all == bindings@,
            all == layout.spec_bindings(),
            given == offsets_of(*offsets),
            min_uniform_off_align == offset_alignment(
                layout.spec_device().spec_properties().min_uniform_buffer_offset_alignment,
            ),
            min_storage_off_align == offset_alignment(
                layout.spec_device().spec_properties().min_storage_buffer_offset_alignment,
            ),
            len == given.len(),
            dynamic_offset_index == dynamic_types(all.take(i as int)).len(),
            dynamic_offset_index <= i,
            forall|j: int|
                0 <= j < dynamic_offset_index && j < given.len() ==> offset_fits(
                    dynamic_types(all),
                    given,
                    min_uniform_off_align,
                    min_storage_off_align,
                    j,
                ),
            dynamic_types(all.take(i as int)) =~= dynamic_types(all).take(
                dynamic_offset_index as int,
            ),
            dynamic_offset_index <= dynamic_types(all).len(),
        decreases bindings.len() - i,
    {
        proof {
            lemma_dynamic_types_step(all, i as int);
            lemma_dynamic_types_prefix(all, i as int + 1);
            if let Some(desc) = all[i as int] {
                if desc.ty.spec_is_dynamic() {
                    let upto = dynamic_types(all.take(i as int + 1));
                    assert(upto[dynamic_offset_index as int] == desc.ty);
                    assert(dynamic_types(all).take(upto.len() as int)[dynamic_offset_index as int]
                        == dynamic_types(all)[dynamic_offset_index as int]);
                }
            }
        }
        match &bindings[i] {
            Some(desc) => match desc.ty {
                DescriptorDescTy::StorageBufferDynamic => {
                    // Don't check alignment if there are not enough offsets anyway
                    if len > dynamic_offset_index {
                        let offset = offsets_get(offsets, dynamic_offset_index);
                        if min_storage_off_align == 0 || offset % min_storage_off_align != 0 {
                            assert(first_misaligned(
                                dynamic_types(all),
                                given,
                                min_uniform_off_align,
                                min_storage_off_align,
                                dynamic_offset_index as int,
                            ));
                            return Err(
                                DynamicOffsetsError::StorageOffsetMisaligned {
                                    offset,
                                    alignment: min_storage_off_align,
                                },
                            );
                        }
                    }
                    dynamic_offset_index += 1;
                },
                DescriptorDescTy::UniformBufferDynamic => {
                    // Don't check alignment if there are not enough offsets anyway
                    if len > dynamic_offset_index {
                        let offset = offsets_get(offsets, dynamic_offset_index);
                        if min_uniform_off_align == 0 || offset % min_uniform_off_align != 0 {
                            assert(first_misaligned(
                                dynamic_types(all),
                                given,
                                min_uniform_off_align,
                                min_storage_off_align,
                                dynamic_offset_index as int,
                            ));
                            return Err(
                                DynamicOffsetsError::UniformOffsetMisaligned {
                                    offset,
                                    alignment: min_uniform_off_align,
                                },
                            );
                        }
                    }
                    dynamic_offset_index += 1;
                },
                _ => (),
            },
            None => (),
        }
        i += 1;
    }
    assert(all.take(i as int) =~= all);

    if len < dynamic_offset_index {
        return Err(DynamicOffsetsError::TooFew { obtained: len, expected: dynamic_offset_index });
    }
    if len > dynamic_offset_index {
        return Err(DynamicOffsetsError::TooMany { obtained: len, expected: dynamic_offset_index });
    }
    Ok(())
}

/// The dynamic bindings among the first `n` bindings are the first of all
/// the dynamic bindings.
proof fn lemma_dynamic_types_prefix(bindings: Seq<Option<DescriptorDesc>>, n: int)
    requires
        0 <= n <= bindings.len(),
    ensures
        dynamic_types(bindings.take(n)).len() <= dynamic_types(bindings).len(),
        dynamic_types(bindings.take(n)) =~= dynamic_types(bindings).take(
            dynamic_types(bindings.take(n)).len() as int,
        ),
    decreases bindings.len() - n,
{
    if n == bindings.len() {
        assert(bindings.take(n) =~= bindings);
    } else {
        lemma_dynamic_types_prefix(bindings, n + 1);
        lemma_dynamic_types_step(bindings, n);
    }
}

/// Holds a list of dynamic offsets against a layout.
///
/// Returns `Ok` if there is exactly one offset for each dynamic binding of
/// the layout, each a multiple of the alignment that the device of the
/// layout reports for the buffers of its binding. Otherwise returns the
/// first offset that is misaligned, or, where there is none among those
/// that go with a binding, the number of offsets and of dynamic bindings.
pub fn check_dynamic_offsets(layout: &DescriptorSetLayout, dynamic_offsets: Vec<u32>) -> (r:
    Result<(), DynamicOffsetsError>)
    ensures
        r is Ok <==> layout_accepts_offsets(*layout, dynamic_offsets@),
        r matches Err(error) ==> reports(
            layout.spec_bindings(),
            dynamic_offsets@,
            offset_alignment(
                layout.spec_device().spec_properties().min_uniform_buffer_offset_alignment,
            ),
            offset_alignment(
                layout.spec_device().spec_properties().min_storage_buffer_offset_alignment,
            ),
            error,
        ),
{
    let offsets = offsets_from_vec(dynamic_offsets);
    check_offsets(layout, &offsets)
}

/// A descriptor set together with the dynamic offsets to bind it with.
pub struct DescriptorSetWithOffsets {
    descriptor_set: Box<dyn DescriptorSet>,
    dynamic_offsets: DynamicOffsets,
}

impl DescriptorSetWithOffsets {
    /// The dynamic offsets, in the order of the dynamic bindings.
    pub closed spec fn spec_dynamic_offsets(self) -> Seq<u32> {
        offsets_of(self.dynamic_offsets)
    }

    /// Puts a descriptor set together with the dynamic offsets to bind it
    /// with.
    ///
    /// There must be exactly one offset for each dynamic binding of the
    /// layout of the set, in the order of the bindings, and each must be a
    /// multiple of the alignment that the device reports for uniform or for
    /// storage buffers, as its binding is the one or the other.
    #[inline]
    pub fn new<S>(descriptor_set: S, dynamic_offsets: Vec<u32>) -> (r: Self) where
        S: DescriptorSet + 'static,

        requires
            forall|layout: &Arc<DescriptorSetLayout>| #[trigger]
                call_ensures(S::layout, (&descriptor_set,), layout) ==> layout_accepts_offsets(
                    **layout,
                    dynamic_offsets@,
                ),
        ensures
            r.spec_dynamic_offsets() == dynamic_offsets@,
    {
        let dynamic_offsets = offsets_from_vec(dynamic_offsets);
        DescriptorSetWithOffsets { descriptor_set: Box::new(descriptor_set), dynamic_offsets }
    }

    /// Puts a descriptor set together with the dynamic offsets to bind it
    /// with, if the layout of the set accepts them, and says what is wrong
    /// with them if it does not.
    pub fn try_new<S>(descriptor_set: S, dynamic_offsets: Vec<u32>) -> (r: Result<
        Self,
        DynamicOffsetsError,
    >) where S: DescriptorSet + 'static
        ensures
            r matches Ok(set) ==> set.spec_dynamic_offsets() == dynamic_offsets@,
            exists|layout: &Arc<DescriptorSetLayout>|
                {
                    &&& #[trigger] call_ensures(S::layout, (&descriptor_set,), layout)
                    &&& r is Ok <==> layout_accepts_offsets(**layout, dynamic_offsets@)
                    &&& r matches Err(error) ==> reports(
                        layout.spec_bindings(),
                        dynamic_offsets@,
                        offset_alignment(
                            layout.spec_device().spec_properties().min_uniform_buffer_offset_alignment,
                        ),
                        offset_alignment(
                            layout.spec_device().spec_properties().min_storage_buffer_offset_alignment,
                        ),
                        error,
                    )
                },
    {
        let offsets = offsets_from_vec(dynamic_offsets);
        let checked = check_offsets(descriptor_set.layout(), &offsets);
        match checked {
            Ok(()) => Ok(
                DescriptorSetWithOffsets {
                    descriptor_set: Box::new(descriptor_set),
                    dynamic_offsets: offsets,
                },
            ),
            Err(error) => Err(error),
        }
    }

    /// Returns the descriptor set and the dynamic offsets.
    #[inline]
    pub fn as_ref(&self) -> (r: (&dyn DescriptorSet, &[u32]))
        ensures
            r.1@ == self.spec_dynamic_offsets(),
    {
        (&*self.descriptor_set, offsets_as_slice(&self.dynamic_offsets))
    }

    /// Takes the descriptor set and the dynamic offsets apart.
    #[inline]
    pub fn into_tuple(self) -> (r: (Box<dyn DescriptorSet>, Vec<u32>))
        ensures
            r.1@ == self.spec_dynamic_offsets(),
    {
        (self.descriptor_set, offsets_into_vec(self.dynamic_offsets))
    }
}

/// Error related to descriptor sets.
#[derive(Debug, Copy, Clone)]
#[allow(inconsistent_fields)]
pub enum DescriptorSetError {
    /// Builder is already within an array.
    AlreadyInArray,
    /// The builder has previously return an error and is an unknown state.
    BuilderPoisoned,
    /// The number of array layers of an image doesn't match what was expected.
    ArrayLayersMismatch {
        /// Number of expected array layers for the image.
        expected: u32,
        /// Number of array layers of the image that was added.
        obtained: u32,
    },
    /// Array doesn't contain the correct amount of descriptors
    ArrayLengthMismatch {
        /// Expected length
        expected: u32,
        /// Obtained length
        obtained: u32,
    },
    /// Runtime array contains too many descriptors
    ArrayTooManyDescriptors {
        /// Capacity of array
        capacity: u32,
        /// Obtained length
        obtained: u32,
    },
    /// Expected a multisampled image, but got a single-sampled image.
    ExpectedMultisampled,
    /// Operation can not be performed on an empty descriptor.
    DescriptorIsEmpty,
    /// Not all descriptors have been added.
    DescriptorsMissing {
        /// Expected bindings
        expected: u32,
        /// Obtained bindings
        obtained: u32,
    },
    /// The format of an image view doesn't match what was expected.
    ImageViewFormatMismatch {
        /// Expected format.
        expected: Format,
        /// Format of the image view that was passed.
        obtained: Format,
    },
    /// The type of an image view doesn't match what was expected.
    ImageViewTypeMismatch {
        /// Expected type.
        expected: ImageViewType,
        /// Type of the image view that was passed.
        obtained: ImageViewType,
    },
    /// The image view isn't compatible with the sampler.
    IncompatibleImageViewSampler,
    /// The buffer is missing the correct usage.
    MissingBufferUsage(MissingBufferUsage),
    /// The image is missing the correct usage.
    MissingImageUsage(MissingImageUsage),
    /// The image view has a component swizzle that is different from identity.
    NotIdentitySwizzled,
    /// Builder is not in an array.
    NotInArray,
    /// Out of memory
    OomError(OomError),
    /// Resource belongs to another device.
    ResourceWrongDevice,
    /// Provided a dynamically assigned sampler, but the descriptor has an
    /// immutable sampler.
    SamplerIsImmutable,
    /// Builder doesn't expect anymore descriptors
    TooManyDescriptors,
    /// Expected a non-arrayed image, but got an arrayed image.
    UnexpectedArrayed,
    /// Expected a single-sampled image, but got a multisampled image.
    UnexpectedMultisampled,
    /// Expected one type of resource but got another.
    WrongDescriptorType,
}

impl DescriptorSetError {
    /// The text that describes the error to a reader. It depends on the
    /// kind of the error only, not on the values that the error carries.
    pub open spec fn spec_message(self) -> Seq<char> {
        match self {
            DescriptorSetError::AlreadyInArray => "builder is already within an array"@,
            DescriptorSetError::BuilderPoisoned => "the builder has previously return an error and is an unknown state"@,
            DescriptorSetError::ArrayLayersMismatch { .. } => "the number of array layers of an image doesn't match what was expected"@,
            DescriptorSetError::ArrayLengthMismatch { .. } => "array doesn't contain the correct amount of descriptors"@,
            DescriptorSetError::ArrayTooManyDescriptors { .. } => "runtime array contains too many descriptors"@,
            DescriptorSetError::ExpectedMultisampled => "expected a multisampled image, but got a single-sampled image"@,
            DescriptorSetError::DescriptorIsEmpty => "operation can not be performed on an empty descriptor"@,
            DescriptorSetError::DescriptorsMissing { .. } => "not all descriptors have been added"@,
            DescriptorSetError::ImageViewFormatMismatch { .. } => "the format of an image view doesn't match what was expected"@,
            DescriptorSetError::ImageViewTypeMismatch { .. } => "the type of an image view doesn't match what was expected"@,
            DescriptorSetError::IncompatibleImageViewSampler => "the image view isn't compatible with the sampler"@,
            DescriptorSetError::MissingBufferUsage(_) => "the buffer is missing the correct usage"@,
            DescriptorSetError::MissingImageUsage(_) => "the image is missing the correct usage"@,
            DescriptorSetError::NotIdentitySwizzled => "the image view has a component swizzle that is different from identity"@,
            DescriptorSetError::NotInArray => "builder is not in an array"@,
            DescriptorSetError::OomError(_) => "out of memory"@,
            DescriptorSetError::ResourceWrongDevice => "resource belongs to another device"@,
            DescriptorSetError::SamplerIsImmutable => "provided a dynamically assigned sampler, but the descriptor has an immutable sampler"@,
            DescriptorSetError::TooManyDescriptors => "builder doesn't expect anymore descriptors"@,
            DescriptorSetError::UnexpectedArrayed => "expected a non-arrayed image, but got an arrayed image"@,
            DescriptorSetError::UnexpectedMultisampled => "expected a single-sampled image, but got a multisampled image"@,
            DescriptorSetError::WrongDescriptorType => "expected one type of resource but got another"@,
        }
    }

    /// Returns the text that describes the error to a reader.
    pub fn to_string(&self) -> (r: String)
        ensures
            r@ == self.spec_message(),
    {
        let message = match *self {
            DescriptorSetError::AlreadyInArray => "builder is already within an array",
            DescriptorSetError::BuilderPoisoned => "the builder has previously return an error and is an unknown state",
            DescriptorSetError::ArrayLayersMismatch { .. } => "the number of array layers of an image doesn't match what was expected",
            DescriptorSetError::ArrayLengthMismatch { .. } => "array doesn't contain the correct amount of descriptors",
            DescriptorSetError::ArrayTooManyDescriptors { .. } => "runtime array contains too many descriptors",
            DescriptorSetError::ExpectedMultisampled => "expected a multisampled image, but got a single-sampled image",
            DescriptorSetError::DescriptorIsEmpty => "operation can not be performed on an empty descriptor",
            DescriptorSetError::DescriptorsMissing { .. } => "not all descriptors have been added",
            DescriptorSetError::ImageViewFormatMismatch { .. } => "the format of an image view doesn't match what was expected",
            DescriptorSetError::ImageViewTypeMismatch { .. } => "the type of an image view doesn't match what was expected",
            DescriptorSetError::IncompatibleImageViewSampler => "the image view isn't compatible with the sampler",
            DescriptorSetError::MissingBufferUsage(_) => "the buffer is missing the correct usage",
            DescriptorSetError::MissingImageUsage(_) => "the image is missing the correct usage",
            DescriptorSetError::NotIdentitySwizzled => "the image view has a component swizzle that is different from identity",
            DescriptorSetError::NotInArray => "builder is not in an array",
            DescriptorSetError::OomError(_) => "out of memory",
            DescriptorSetError::ResourceWrongDevice => "resource belongs to another device",
            DescriptorSetError::SamplerIsImmutable => "provided a dynamically assigned sampler, but the descriptor has an immutable sampler",
            DescriptorSetError::TooManyDescriptors => "builder doesn't expect anymore descriptors",
            DescriptorSetError::UnexpectedArrayed => "expected a non-arrayed image, but got an arrayed image",
            DescriptorSetError::UnexpectedMultisampled => "expected a single-sampled image, but got a multisampled image",
            DescriptorSetError::WrongDescriptorType => "expected one type of resource but got another",
        };
        message.to_owned()
    }
}

impl From<OomError> for DescriptorSetError {
    fn from(error: OomError) -> (r: Self) {
        Self::OomError(error)
    }
}

impl vstd::std_specs::convert::FromSpecImpl<OomError> for DescriptorSetError {
    open spec fn obeys_from_spec() -> bool {
        true
    }

    open spec fn from_spec(error: OomError) -> Self {
        Self::OomError(error)
    }
}

/// Part of the `DescriptorSetError` for the case of missing usage on a
/// buffer.
#[derive(Debug, Copy, Clone, PartialEq, Eq, Structural)]
pub enum MissingBufferUsage {
    StorageBuffer,
    UniformBuffer,
    StorageTexelBuffer,
    UniformTexelBuffer,
}

/// Part of the `DescriptorSetError` for the case of missing usage on an
/// image.
#[derive(Debug, Copy, Clone, PartialEq, Eq, Structural)]
pub enum MissingImageUsage {
    InputAttachment,
    Sampled,
    Storage,
}

} // verus!
