use ash::vk::ExternalSemaphoreHandleTypeFlags;
use vstd::prelude::*;

verus! {

/// The native set of semaphore handle types, a plain mask of 32 bits.
#[verifier::external_type_specification]
#[verifier::external_body]
pub struct ExExternalSemaphoreHandleTypeFlags(ash::vk::ExternalSemaphoreHandleTypeFlags);

/// The mask that a native flag set holds: what `as_raw` returns of it.
pub uninterp spec fn flag_bits(flags: ExternalSemaphoreHandleTypeFlags) -> u32;

/// `ExternalSemaphoreHandleTypeFlags::empty`: the flag set whose mask is zero.
pub assume_specification[ ExternalSemaphoreHandleTypeFlags::empty ]() -> (r:
    ExternalSemaphoreHandleTypeFlags)
    ensures
        flag_bits(r) == 0,
;

/// `ExternalSemaphoreHandleTypeFlags::is_empty`: whether the mask is zero.
pub assume_specification[ ExternalSemaphoreHandleTypeFlags::is_empty ](
    flags: ExternalSemaphoreHandleTypeFlags,
) -> (r: bool)
    ensures
        r == (flag_bits(flags) == 0),
;

/// `ExternalSemaphoreHandleTypeFlags::bitor`, the `|` of two native flag
/// sets: the flag set whose mask is the bitwise or of the two masks.
#[verifier::external_body]
fn flags_or(a: ExternalSemaphoreHandleTypeFlags, b: ExternalSemaphoreHandleTypeFlags) -> (r:
    ExternalSemaphoreHandleTypeFlags)
    ensures
        flag_bits(r) == flag_bits(a) | flag_bits(b),
{
    a | b
}

/// `ExternalSemaphoreHandleTypeFlags::bitand`, the `&` of two native flag
/// sets: the flag set whose mask is the bitwise and of the two masks.
#[verifier::external_body]
fn flags_and(a: ExternalSemaphoreHandleTypeFlags, b: ExternalSemaphoreHandleTypeFlags) -> (r:
    ExternalSemaphoreHandleTypeFlags)
    ensures
        flag_bits(r) == flag_bits(a) & flag_bits(b),
{
    a & b
}

/// `ExternalSemaphoreHandleTypeFlags::OPAQUE_FD`, whose mask is bit 0.
#[verifier::external_body]
fn flag_opaque_fd() -> (r: ExternalSemaphoreHandleTypeFlags)
    ensures
        flag_bits(r) == OPAQUE_FD_BIT,
{
    ExternalSemaphoreHandleTypeFlags::OPAQUE_FD
}

/// `ExternalSemaphoreHandleTypeFlags::OPAQUE_WIN32`, whose mask is bit 1.
#[verifier::external_body]
fn flag_opaque_win32() -> (r: ExternalSemaphoreHandleTypeFlags)
    ensures
        flag_bits(r) == OPAQUE_WIN32_BIT,
{
    ExternalSemaphoreHandleTypeFlags::OPAQUE_WIN32
}

/// `ExternalSemaphoreHandleTypeFlags::OPAQUE_WIN32_KMT`, whose mask is bit 2.
#[verifier::external_body]
fn flag_opaque_win32_kmt() -> (r: ExternalSemaphoreHandleTypeFlags)
    ensures
        flag_bits(r) == OPAQUE_WIN32_KMT_BIT,
{
    ExternalSemaphoreHandleTypeFlags::OPAQUE_WIN32_KMT
}

/// `ExternalSemaphoreHandleTypeFlags::D3D12_FENCE`, whose mask is bit 3.
#[verifier::external_body]
fn flag_d3d12_fence() -> (r: ExternalSemaphoreHandleTypeFlags)
    ensures
        flag_bits(r) == D3D12_FENCE_BIT,
{
    ExternalSemaphoreHandleTypeFlags::D3D12_FENCE
}

/// `ExternalSemaphoreHandleTypeFlags::SYNC_FD`, whose mask is bit 4.
#[verifier::external_body]
fn flag_sync_fd() -> (r: ExternalSemaphoreHandleTypeFlags)
    ensures
        flag_bits(r) == SYNC_FD_BIT,
{
    ExternalSemaphoreHandleTypeFlags::SYNC_FD
}

/// Mask bit of an opaque posix file descriptor.
pub const OPAQUE_FD_BIT: u32 = 0b1;

/// Mask bit of an opaque Windows handle.
pub const OPAQUE_WIN32_BIT: u32 = 0b10;

/// Mask bit of an opaque Windows kernel-mode handle.
pub const OPAQUE_WIN32_KMT_BIT: u32 = 0b100;

/// Mask bit of a Direct3D 12 fence.
pub const D3D12_FENCE_BIT: u32 = 0b1000;

/// Mask bit of a sync file descriptor.
pub const SYNC_FD_BIT: u32 = 0b1_0000;

/// `mask` with `bit` added when `set` holds, and unchanged otherwise.
pub open spec fn with_bit(mask: u32, set: bool, bit: u32) -> u32 {
    if set {
        mask | bit
    } else {
        mask
    }
}

/// Describes the handle types through which a semaphore can be shared with
/// other APIs or processes. This is not a suggestion: a handle type that is
/// not supported on the platform in use must not be requested.
#[derive(Debug, Copy, Clone, PartialEq, Eq, Hash, Structural)]
pub struct ExternalSemaphoreHandleType {
    pub opaque_fd: bool,
    pub opaque_win32: bool,
    pub opaque_win32_kmt: bool,
    pub d3d12_fence: bool,
    pub sync_fd: bool,
}

impl ExternalSemaphoreHandleType {
    /// The value with every handle type unset.
    pub open spec fn spec_none() -> ExternalSemaphoreHandleType {
        ExternalSemaphoreHandleType {
            opaque_fd: false,
            opaque_win32: false,
            opaque_win32_kmt: false,
            d3d12_fence: false,
            sync_fd: false,
        }
    }

    /// The native mask that stands for this value: one bit per field that is set.
    pub open spec fn bits(self) -> u32 {
        with_bit(
            with_bit(
                with_bit(
                    with_bit(
                        with_bit(0, self.opaque_fd, OPAQUE_FD_BIT),
                        self.opaque_win32,
                        OPAQUE_WIN32_BIT,
                    ),
                    self.opaque_win32_kmt,
                    OPAQUE_WIN32_KMT_BIT,
                ),
                self.d3d12_fence,
                D3D12_FENCE_BIT,
            ),
            self.sync_fd,
            SYNC_FD_BIT,
        )
    }

    /// The value that a native mask stands for: a field is set exactly when
    /// its bit is. Bits that belong to no field are ignored.
    pub open spec fn from_bits(bits: u32) -> ExternalSemaphoreHandleType {
        ExternalSemaphoreHandleType {
            opaque_fd: bits & OPAQUE_FD_BIT != 0,
            opaque_win32: bits & OPAQUE_WIN32_BIT != 0,
            opaque_win32_kmt: bits & OPAQUE_WIN32_KMT_BIT != 0,
            d3d12_fence: bits & D3D12_FENCE_BIT != 0,
            sync_fd: bits & SYNC_FD_BIT != 0,
        }
    }

    /// The fieldwise union of two values.
    pub open spec fn union(self, rhs: ExternalSemaphoreHandleType) -> ExternalSemaphoreHandleType {
        ExternalSemaphoreHandleType {
            opaque_fd: self.opaque_fd || rhs.opaque_fd,
            opaque_win32: self.opaque_win32 || rhs.opaque_win32,
            opaque_win32_kmt: self.opaque_win32_kmt || rhs.opaque_win32_kmt,
            d3d12_fence: self.d3d12_fence || rhs.d3d12_fence,
            sync_fd: self.sync_fd || rhs.sync_fd,
        }
    }

    /// The value for a posix file descriptor: only `opaque_fd` is set.
    pub open spec fn spec_posix() -> ExternalSemaphoreHandleType {
        ExternalSemaphoreHandleType { opaque_fd: true, ..Self::spec_none() }
    }

    /// The value for a Windows handle: only `opaque_win32` is set.
    pub open spec fn spec_win32() -> ExternalSemaphoreHandleType {
        ExternalSemaphoreHandleType { opaque_win32: true, ..Self::spec_none() }
    }

    /// Builds an `ExternalSemaphoreHandleType` with all values set to false.
    /// Useful as a default value.
    #[inline]
    pub fn none() -> (r: ExternalSemaphoreHandleType)
        ensures
            r == Self::spec_none(),
    {
        ExternalSemaphoreHandleType {
            opaque_fd: false,
            opaque_win32: false,
            opaque_win32_kmt: false,
            d3d12_fence: false,
            sync_fd: false,
        }
    }

    /// Builds an `ExternalSemaphoreHandleType` for a posix file descriptor.
    #[inline]
    pub fn posix() -> (r: ExternalSemaphoreHandleType)
        ensures
            r == Self::spec_posix(),
    {
        ExternalSemaphoreHandleType { opaque_fd: true, ..ExternalSemaphoreHandleType::none() }
    }

    /// Builds an `ExternalSemaphoreHandleType` for a Windows handle.
    #[inline]
    pub fn win32() -> (r: ExternalSemaphoreHandleType)
        ensures
            r == Self::spec_win32(),
    {
        ExternalSemaphoreHandleType { opaque_win32: true, ..ExternalSemaphoreHandleType::none() }
    }

    /// Converting a value to its native mask and back gives the same value:
    /// exactly the fields that were set are set again.
    pub proof fn lemma_bits_round_trip(self)
        ensures
            Self::from_bits(self.bits()) == self,
            self.bits() & !0b1_1111u32 == 0,
    {
        lemma_mask_bits(
            self.opaque_fd,
            self.opaque_win32,
            self.opaque_win32_kmt,
            self.d3d12_fence,
            self.sync_fd,
        );
    }

    /// The masks of the three values that have a name: no bit, the bit of
    /// the posix file descriptor, and the bit of the Windows handle.
    pub proof fn lemma_named_bits()
        ensures
            Self::spec_none().bits() == 0,
            Self::spec_posix().bits() == OPAQUE_FD_BIT,
            Self::spec_win32().bits() == OPAQUE_WIN32_BIT,
    {
        assert(0u32 | 0b1u32 == 0b1u32) by (bit_vector);
        assert(0u32 | 0b10u32 == 0b10u32) by (bit_vector);
    }

    /// Converting a native mask to a value and back keeps the five bits that
    /// stand for a handle type, and drops every other bit.
    pub proof fn lemma_from_bits_round_trip(bits: u32)
        ensures
            Self::from_bits(bits).bits() == bits & 0b1_1111,
    {
        lemma_bits_mask(bits);
    }

    /// The mask of a union is the bitwise or of the two masks.
    pub proof fn lemma_union_bits(self, rhs: ExternalSemaphoreHandleType)
        ensures
            self.union(rhs).bits() == self.bits() | rhs.bits(),
    {
        lemma_mask_union(
            self.opaque_fd,
            self.opaque_win32,
            self.opaque_win32_kmt,
            self.d3d12_fence,
            self.sync_fd,
            rhs.opaque_fd,
            rhs.opaque_win32,
            rhs.opaque_win32_kmt,
            rhs.d3d12_fence,
            rhs.sync_fd,
        );
    }

    /// The union is commutative, associative and idempotent, and the value
    /// with nothing set is its neutral element.
    pub proof fn lemma_union_laws(
        self,
        b: ExternalSemaphoreHandleType,
        c: ExternalSemaphoreHandleType,
    )
        ensures
            Self::spec_none().union(Self::spec_none()) == Self::spec_none(),
            self.union(Self::spec_none()) == self,
            self.union(self) == self,
            self.union(b) == b.union(self),
            self.union(b).union(c) == self.union(b.union(c)),
    {
    }
}

/// Each bit of a mask is set exactly when the field that it stands for is,
/// and no other bit is set.
proof fn lemma_mask_bits(a: bool, b: bool, c: bool, d: bool, e: bool)
    by (bit_vector)
    ensures
        ({
            let m = with_bit(
                with_bit(with_bit(with_bit(with_bit(0, a, 0b1), b, 0b10), c, 0b100), d, 0b1000),
                e,
                0b1_0000,
            );
            &&& (m & 0b1 != 0) == a
            &&& (m & 0b10 != 0) == b
            &&& (m & 0b100 != 0) == c
            &&& (m & 0b1000 != 0) == d
            &&& (m & 0b1_0000 != 0) == e
            &&& m & !0b1_1111u32 == 0
        }),
{
}

/// The mask of the fields that a mask stands for is what the mask has in
/// its five lowest bits.
proof fn lemma_bits_mask(bits: u32)
    by (bit_vector)
    ensures
        with_bit(
            with_bit(
                with_bit(
                    with_bit(with_bit(0, bits & 0b1 != 0, 0b1), bits & 0b10 != 0, 0b10),
                    bits & 0b100 != 0,
                    0b100,
                ),
                bits & 0b1000 != 0,
                0b1000,
            ),
            bits & 0b1_0000 != 0,
            0b1_0000,
        ) == bits & 0b1_1111,
{
}

/// The mask of the fieldwise union of two values is the bitwise or of
/// their masks.
proof fn lemma_mask_union(
    a: bool,
    b: bool,
    c: bool,
    d: bool,
    e: bool,
    a2: bool,
    b2: bool,
    c2: bool,
    d2: bool,
    e2: bool,
)
    by (bit_vector)
    ensures
        with_bit(
            with_bit(
                with_bit(with_bit(with_bit(0, a || a2, 0b1), b || b2, 0b10), c || c2, 0b100),
                d || d2,
                0b1000,
            ),
            e || e2,
            0b1_0000,
        ) == with_bit(
            with_bit(with_bit(with_bit(with_bit(0, a, 0b1), b, 0b10), c, 0b100), d, 0b1000),
            e,
            0b1_0000,
        ) | with_bit(
            with_bit(with_bit(with_bit(with_bit(0, a2, 0b1), b2, 0b10), c2, 0b100), d2, 0b1000),
            e2,
            0b1_0000,
        ),
{
}

impl From<ExternalSemaphoreHandleType> for ExternalSemaphoreHandleTypeFlags {
    /// The native flag set whose mask has one bit for each field that is set.
    #[inline]
    fn from(val: ExternalSemaphoreHandleType) -> (result: Self)
        ensures
            flag_bits(result) == val.bits(),
    {
        let mut result = ExternalSemaphoreHandleTypeFlags::empty();
        if val.opaque_fd {
            result = flags_or(result, flag_opaque_fd());
        }
        if val.opaque_win32 {
            result = flags_or(result, flag_opaque_win32());
        }
        if val.opaque_win32_kmt {
            result = flags_or(result, flag_opaque_win32_kmt());
        }
        if val.d3d12_fence {
            result = flags_or(result, flag_d3d12_fence());
        }
        if val.sync_fd {
            result = flags_or(result, flag_sync_fd());
        }
        result
    }
}

impl vstd::std_specs::convert::FromSpecImpl<ExternalSemaphoreHandleType> for ExternalSemaphoreHandleTypeFlags {
    /// A native flag set cannot be written down in a specification, so the
    /// conversion is described by the `ensures` clause of `from` instead.
    open spec fn obeys_from_spec() -> bool {
        false
    }

    open spec fn from_spec(val: ExternalSemaphoreHandleType) -> Self {
        arbitrary()
    }
}

impl From<ExternalSemaphoreHandleTypeFlags> for ExternalSemaphoreHandleType {
    /// The value whose fields are set exactly where the native mask has
    /// their bit.
    fn from(val: ExternalSemaphoreHandleTypeFlags) -> (result: Self) {
        ExternalSemaphoreHandleType {
            opaque_fd: !flags_and(val, flag_opaque_fd()).is_empty(),
            opaque_win32: !flags_and(val, flag_opaque_win32()).is_empty(),
            opaque_win32_kmt: !flags_and(val, flag_opaque_win32_kmt()).is_empty(),
            d3d12_fence: !flags_and(val, flag_d3d12_fence()).is_empty(),
            sync_fd: !flags_and(val, flag_sync_fd()).is_empty(),
        }
    }
}

impl vstd::std_specs::convert::FromSpecImpl<ExternalSemaphoreHandleTypeFlags> for ExternalSemaphoreHandleType {
    open spec fn obeys_from_spec() -> bool {
        true
    }

    open spec fn from_spec(val: ExternalSemaphoreHandleTypeFlags) -> Self {
        ExternalSemaphoreHandleType::from_bits(flag_bits(val))
    }
}

impl std::ops::BitOr for ExternalSemaphoreHandleType {
    type Output = Self;

    #[inline]
    fn bitor(self, rhs: Self) -> (r: Self) {
        ExternalSemaphoreHandleType {
            opaque_fd: self.opaque_fd || rhs.opaque_fd,
            opaque_win32: self.opaque_win32 || rhs.opaque_win32,
            opaque_win32_kmt: self.opaque_win32_kmt || rhs.opaque_win32_kmt,
            d3d12_fence: self.d3d12_fence || rhs.d3d12_fence,
            sync_fd: self.sync_fd || rhs.sync_fd,
        }
    }
}

impl vstd::std_specs::ops::BitOrSpecImpl for ExternalSemaphoreHandleType {
    open spec fn obeys_bitor_spec() -> bool {
        true
    }

    open spec fn bitor_req(self, rhs: Self) -> bool {
        true
    }

    open spec fn bitor_spec(self, rhs: Self) -> Self {
        self.union(rhs)
    }
}

} // verus!
