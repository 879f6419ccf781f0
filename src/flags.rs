//! The flag sets and value enums of the bound library, as the enum
//! generator plans them: newtypes over `u32` with one constant per variant,
//! and bit operations for the flag sets.

use vstd::prelude::*;

verus! {

/// Facts of `u32` bit operations that the flag sets inherit.
proof fn lemma_bits_algebra(a: u32, b: u32)
    by (bit_vector)
    ensures
        (a | b) & a == a,
        a & a == a,
        !(!a) == a,
{
}

/// Flags for a created allocator.
#[derive(Debug, Clone, Copy, PartialEq, Eq, Structural, PartialOrd, Ord, Hash, Default)]
pub struct AllocatorCreateFlags(u32);

impl AllocatorCreateFlags {
    /// The allocator and its objects are not synchronized internally; the user synchronizes them.
    #[allow(non_snake_case)]
    pub fn EXTERNALLY_SYNCHRONIZED() -> (r: Self)
        ensures
            r == Self::of_bits(1),
    {
        Self(1)
    }

    /// Enables usage of VK_KHR_dedicated_allocation extension.
    #[allow(non_snake_case)]
    pub fn KHR_DEDICATED_ALLOCATION() -> (r: Self)
        ensures
            r == Self::of_bits(2),
    {
        Self(2)
    }

    /// Enables usage of VK_KHR_bind_memory2 extension.
    #[allow(non_snake_case)]
    pub fn KHR_BIND_MEMORY2() -> (r: Self)
        ensures
            r == Self::of_bits(4),
    {
        Self(4)
    }

    /// Enables usage of VK_EXT_memory_budget extension.
    #[allow(non_snake_case)]
    pub fn EXT_MEMORY_BUDGET() -> (r: Self)
        ensures
            r == Self::of_bits(8),
    {
        Self(8)
    }

    /// Enables usage of VK_AMD_device_coherent_memory extension.
    #[allow(non_snake_case)]
    pub fn AMD_DEVICE_COHERENT_MEMORY() -> (r: Self)
        ensures
            r == Self::of_bits(16),
    {
        Self(16)
    }

    /// Enables usage of the "buffer device address" feature.
    #[allow(non_snake_case)]
    pub fn BUFFER_DEVICE_ADDRESS() -> (r: Self)
        ensures
            r == Self::of_bits(32),
    {
        Self(32)
    }

    /// Enables usage of VK_EXT_memory_priority extension in the library.
    #[allow(non_snake_case)]
    pub fn EXT_MEMORY_PRIORITY() -> (r: Self)
        ensures
            r == Self::of_bits(64),
    {
        Self(64)
    }

    /// Enables usage of VK_KHR_maintenance4 extension in the library.
    #[allow(non_snake_case)]
    pub fn KHR_MAINTENANCE4() -> (r: Self)
        ensures
            r == Self::of_bits(128),
    {
        Self(128)
    }

    /// Enables usage of VK_KHR_maintenance5 extension in the library.
    #[allow(non_snake_case)]
    pub fn KHR_MAINTENANCE5() -> (r: Self)
        ensures
            r == Self::of_bits(256),
    {
        Self(256)
    }

    /// The raw integer of the value.
    pub closed spec fn bits(self) -> u32 {
        self.0
    }

    /// The value with the raw integer `v`.
    pub closed spec fn of_bits(v: u32) -> Self {
        Self(v)
    }

    /// The value with no bits set.
    pub fn empty() -> (r: Self)
        ensures
            r == Self::of_bits(0),
    {
        Self(0)
    }

    /// The raw integer of the value.
    pub fn into_raw(self) -> (r: u32)
        ensures
            r == self.bits(),
    {
        self.0
    }

    /// The value with the raw integer `v`.
    pub fn from_raw(v: u32) -> (r: Self)
        ensures
            r == Self::of_bits(v),
    {
        Self(v)
    }

    /// Decoding a value's raw integer gives the value back, and the raw
    /// integer of a decoded integer is that integer.
    pub proof fn lemma_raw_round_trip(c: Self, v: u32)
        ensures
            Self::of_bits(c.bits()) == c,
            Self::of_bits(v).bits() == v,
    {
    }

    /// The union of two flag sets.
    pub open spec fn union(self, o: Self) -> Self {
        Self::of_bits(self.bits() | o.bits())
    }

    /// The intersection of two flag sets.
    pub open spec fn intersection(self, o: Self) -> Self {
        Self::of_bits(self.bits() & o.bits())
    }

    /// The flags set in exactly one of two flag sets.
    pub open spec fn difference_sym(self, o: Self) -> Self {
        Self::of_bits(self.bits() ^ o.bits())
    }

    /// The complement of a flag set.
    pub open spec fn complement(self) -> Self {
        Self::of_bits(!self.bits())
    }

    /// `o` is a subset of `self`.
    pub open spec fn includes(self, o: Self) -> bool {
        self.bits() & o.bits() == o.bits()
    }

    /// `o` and `self` have bits in common.
    pub open spec fn overlaps(self, o: Self) -> bool {
        self.bits() & o.bits() != 0
    }

    /// Checks whether `other` is a subset of `self`.
    pub fn contains(self, other: Self) -> (r: bool)
        ensures
            r == self.includes(other),
    {
        (self.0 & other.0) == other.0
    }

    /// Checks whether `other` and `self` have bits in common.
    pub fn intersects(self, other: Self) -> (r: bool)
        ensures
            r == self.overlaps(other),
    {
        (self.0 & other.0) != 0
    }

    /// Masking the union of `a` and `b` with `a` gives `a`; every set
    /// contains itself; complementing twice gives the set back; and two sets
    /// intersect exactly when their intersection is not empty.
    pub proof fn lemma_flag_algebra(a: Self, b: Self)
        ensures
            a.union(b).intersection(a) == a,
            a.includes(a),
            a.complement().complement() == a,
            a.overlaps(b) == (a.intersection(b) != Self::of_bits(0)),
    {
        lemma_bits_algebra(a.0, b.0);
    }
}

impl core::ops::BitOr for AllocatorCreateFlags {
    type Output = Self;

    fn bitor(self, rhs: Self) -> (r: Self)
        ensures
            r == self.union(rhs),
    {
        Self(self.0 | rhs.0)
    }
}

impl vstd::std_specs::ops::BitOrSpecImpl for AllocatorCreateFlags {
    open spec fn obeys_bitor_spec() -> bool {
        true
    }

    open spec fn bitor_req(self, rhs: Self) -> bool {
        true
    }

    open spec fn bitor_spec(self, rhs: Self) -> Self {
        self.union(rhs)
    }
}

impl core::ops::BitOrAssign for AllocatorCreateFlags {
    fn bitor_assign(&mut self, rhs: Self)
        ensures
            *final(self) == old(self).union(rhs),
    {
        self.0 = self.0 | rhs.0;
    }
}

impl core::ops::BitAnd for AllocatorCreateFlags {
    type Output = Self;

    fn bitand(self, rhs: Self) -> (r: Self)
        ensures
            r == self.intersection(rhs),
    {
        Self(self.0 & rhs.0)
    }
}

impl vstd::std_specs::ops::BitAndSpecImpl for AllocatorCreateFlags {
    open spec fn obeys_bitand_spec() -> bool {
        true
    }

    open spec fn bitand_req(self, rhs: Self) -> bool {
        true
    }

    open spec fn bitand_spec(self, rhs: Self) -> Self {
        self.intersection(rhs)
    }
}

impl core::ops::BitAndAssign for AllocatorCreateFlags {
    fn bitand_assign(&mut self, rhs: Self)
        ensures
            *final(self) == old(self).intersection(rhs),
    {
        self.0 = self.0 & rhs.0;
    }
}

impl core::ops::BitXor for AllocatorCreateFlags {
    type Output = Self;

    fn bitxor(self, rhs: Self) -> (r: Self)
        ensures
            r == self.difference_sym(rhs),
    {
        Self(self.0 ^ rhs.0)
    }
}

impl vstd::std_specs::ops::BitXorSpecImpl for AllocatorCreateFlags {
    open spec fn obeys_bitxor_spec() -> bool {
        true
    }

    open spec fn bitxor_req(self, rhs: Self) -> bool {
        true
    }

    open spec fn bitxor_spec(self, rhs: Self) -> Self {
        self.difference_sym(rhs)
    }
}

impl core::ops::BitXorAssign for AllocatorCreateFlags {
    fn bitxor_assign(&mut self, rhs: Self)
        ensures
            *final(self) == old(self).difference_sym(rhs),
    {
        self.0 = self.0 ^ rhs.0;
    }
}

impl core::ops::Not for AllocatorCreateFlags {
    type Output = Self;

    fn not(self) -> (r: Self)
        ensures
            r == self.complement(),
    {
        Self(!self.0)
    }
}

impl vstd::std_specs::ops::NotSpecImpl for AllocatorCreateFlags {
    open spec fn obeys_not_spec() -> bool {
        true
    }

    open spec fn not_req(self) -> bool {
        true
    }

    open spec fn not_spec(self) -> Self {
        self.complement()
    }
}

/// Intended usage of the allocated memory.
#[derive(Debug, Clone, Copy, PartialEq, Eq, Structural, PartialOrd, Ord, Hash, Default)]
pub struct MemoryUsage(u32);

impl MemoryUsage {
    /// No intended memory usage specified.
    #[allow(non_snake_case)]
    pub fn UNKNOWN() -> (r: Self)
        ensures
            r == Self::of_bits(0),
    {
        Self(0)
    }

    /// Deprecated. Prefers device-local memory.
    #[allow(non_snake_case)]
    pub fn GPU_ONLY() -> (r: Self)
        ensures
            r == Self::of_bits(1),
    {
        Self(1)
    }

    /// Deprecated. Guarantees host-visible and host-coherent memory.
    #[allow(non_snake_case)]
    pub fn CPU_ONLY() -> (r: Self)
        ensures
            r == Self::of_bits(2),
    {
        Self(2)
    }

    /// Deprecated. Guarantees host-visible memory, prefers device-local memory.
    #[allow(non_snake_case)]
    pub fn CPU_TO_GPU() -> (r: Self)
        ensures
            r == Self::of_bits(3),
    {
        Self(3)
    }

    /// Deprecated. Guarantees host-visible memory, prefers host-cached memory.
    #[allow(non_snake_case)]
    pub fn GPU_TO_CPU() -> (r: Self)
        ensures
            r == Self::of_bits(4),
    {
        Self(4)
    }

    /// Deprecated. Prefers memory that is not device-local.
    #[allow(non_snake_case)]
    pub fn CPU_COPY() -> (r: Self)
        ensures
            r == Self::of_bits(5),
    {
        Self(5)
    }

    /// Lazily allocated GPU memory having `VK_MEMORY_PROPERTY_LAZILY_ALLOCATED_BIT`.
    #[allow(non_snake_case)]
    pub fn GPU_LAZILY_ALLOCATED() -> (r: Self)
        ensures
            r == Self::of_bits(6),
    {
        Self(6)
    }

    /// Selects best memory type automatically.
    #[allow(non_snake_case)]
    pub fn AUTO() -> (r: Self)
        ensures
            r == Self::of_bits(7),
    {
        Self(7)
    }

    /// Selects best memory type automatically with preference for GPU (device) memory.
    #[allow(non_snake_case)]
    pub fn AUTO_PREFER_DEVICE() -> (r: Self)
        ensures
            r == Self::of_bits(8),
    {
        Self(8)
    }

    /// Selects best memory type automatically with preference for CPU (host) memory.
    #[allow(non_snake_case)]
    pub fn AUTO_PREFER_HOST() -> (r: Self)
        ensures
            r == Self::of_bits(9),
    {
        Self(9)
    }

    /// The raw integer of the value.
    pub closed spec fn bits(self) -> u32 {
        self.0
    }

    /// The value with the raw integer `v`.
    pub closed spec fn of_bits(v: u32) -> Self {
        Self(v)
    }

    /// The value with no bits set.
    pub fn empty() -> (r: Self)
        ensures
            r == Self::of_bits(0),
    {
        Self(0)
    }

    /// The raw integer of the value.
    pub fn into_raw(self) -> (r: u32)
        ensures
            r == self.bits(),
    {
        self.0
    }

    /// The value with the raw integer `v`.
    pub fn from_raw(v: u32) -> (r: Self)
        ensures
            r == Self::of_bits(v),
    {
        Self(v)
    }

    /// Decoding a value's raw integer gives the value back, and the raw
    /// integer of a decoded integer is that integer.
    pub proof fn lemma_raw_round_trip(c: Self, v: u32)
        ensures
            Self::of_bits(c.bits()) == c,
            Self::of_bits(v).bits() == v,
    {
    }
}

/// Flags to be passed as `AllocationCreateInfo::flags`.
#[derive(Debug, Clone, Copy, PartialEq, Eq, Structural, PartialOrd, Ord, Hash, Default)]
pub struct AllocationCreateFlags(u32);

impl AllocationCreateFlags {
    /// Set this flag if the allocation should have its own memory block.
    #[allow(non_snake_case)]
    pub fn DEDICATED_MEMORY() -> (r: Self)
        ensures
            r == Self::of_bits(1),
    {
        Self(1)
    }

    /// Set this flag to only try to allocate from existing `VkDeviceMemory` blocks and never create new such block.
    #[allow(non_snake_case)]
    pub fn NEVER_ALLOCATE() -> (r: Self)
        ensures
            r == Self::of_bits(2),
    {
        Self(2)
    }

    /// Set this flag to use a memory that will be persistently mapped and retrieve pointer to it.
    #[allow(non_snake_case)]
    pub fn MAPPED() -> (r: Self)
        ensures
            r == Self::of_bits(4),
    {
        Self(4)
    }

    /// Deprecated. Preserved for backward compatibility. Consider using vmaSetAllocationName() instead.
    #[allow(non_snake_case)]
    pub fn USER_DATA_COPY_STRING() -> (r: Self)
        ensures
            r == Self::of_bits(32),
    {
        Self(32)
    }

    /// Allocation will be created from upper stack in a double stack pool.
    #[allow(non_snake_case)]
    pub fn UPPER_ADDRESS() -> (r: Self)
        ensures
            r == Self::of_bits(64),
    {
        Self(64)
    }

    /// Create both buffer/image and allocation, but don't bind them together.
    #[allow(non_snake_case)]
    pub fn DONT_BIND() -> (r: Self)
        ensures
            r == Self::of_bits(128),
    {
        Self(128)
    }

    /// Create the allocation only if the additional device memory stays within the memory budget.
    #[allow(non_snake_case)]
    pub fn WITHIN_BUDGET() -> (r: Self)
        ensures
            r == Self::of_bits(256),
    {
        Self(256)
    }

    /// Set this flag if the allocated memory will have aliasing resources.
    #[allow(non_snake_case)]
    pub fn CAN_ALIAS() -> (r: Self)
        ensures
            r == Self::of_bits(512),
    {
        Self(512)
    }

    /// Requests mappable memory that is only written sequentially.
    #[allow(non_snake_case)]
    pub fn HOST_ACCESS_SEQUENTIAL_WRITE() -> (r: Self)
        ensures
            r == Self::of_bits(1024),
    {
        Self(1024)
    }

    /// Requests mappable memory that may be read and written randomly.
    #[allow(non_snake_case)]
    pub fn HOST_ACCESS_RANDOM() -> (r: Self)
        ensures
            r == Self::of_bits(2048),
    {
        Self(2048)
    }

    /// Together with a host-access flag: allows non-mappable memory when that is preferable.
    #[allow(non_snake_case)]
    pub fn HOST_ACCESS_ALLOW_TRANSFER_INSTEAD() -> (r: Self)
        ensures
            r == Self::of_bits(4096),
    {
        Self(4096)
    }

    /// Allocation strategy that chooses the smallest possible free range.
    #[allow(non_snake_case)]
    pub fn STRATEGY_MIN_MEMORY() -> (r: Self)
        ensures
            r == Self::of_bits(65536),
    {
        Self(65536)
    }

    /// Allocation strategy that chooses the first suitable free range.
    #[allow(non_snake_case)]
    pub fn STRATEGY_MIN_TIME() -> (r: Self)
        ensures
            r == Self::of_bits(131072),
    {
        Self(131072)
    }

    /// Allocation strategy that chooses always the lowest offset in available space.
    #[allow(non_snake_case)]
    pub fn STRATEGY_MIN_OFFSET() -> (r: Self)
        ensures
            r == Self::of_bits(262144),
    {
        Self(262144)
    }

    /// Alias of `STRATEGY_MIN_MEMORY`.
    #[allow(non_snake_case)]
    pub fn STRATEGY_BEST_FIT() -> (r: Self)
        ensures
            r == Self::of_bits(65536),
    {
        Self(65536)
    }

    /// Alias of `STRATEGY_MIN_TIME`.
    #[allow(non_snake_case)]
    pub fn STRATEGY_FIRST_FIT() -> (r: Self)
        ensures
            r == Self::of_bits(131072),
    {
        Self(131072)
    }

    /// A bit mask to extract only `STRATEGY` bits from entire set of flags.
    #[allow(non_snake_case)]
    pub fn STRATEGY_MASK() -> (r: Self)
        ensures
            r == Self::of_bits(458752),
    {
        Self(458752)
    }

    /// The raw integer of the value.
    pub closed spec fn bits(self) -> u32 {
        self.0
    }

    /// The value with the raw integer `v`.
    pub closed spec fn of_bits(v: u32) -> Self {
        Self(v)
    }

    /// The value with no bits set.
    pub fn empty() -> (r: Self)
        ensures
            r == Self::of_bits(0),
    {
        Self(0)
    }

    /// The raw integer of the value.
    pub fn into_raw(self) -> (r: u32)
        ensures
            r == self.bits(),
    {
        self.0
    }

    /// The value with the raw integer `v`.
    pub fn from_raw(v: u32) -> (r: Self)
        ensures
            r == Self::of_bits(v),
    {
        Self(v)
    }

    /// Decoding a value's raw integer gives the value back, and the raw
    /// integer of a decoded integer is that integer.
    pub proof fn lemma_raw_round_trip(c: Self, v: u32)
        ensures
            Self::of_bits(c.bits()) == c,
            Self::of_bits(v).bits() == v,
    {
    }

    /// The union of two flag sets.
    pub open spec fn union(self, o: Self) -> Self {
        Self::of_bits(self.bits() | o.bits())
    }

    /// The intersection of two flag sets.
    pub open spec fn intersection(self, o: Self) -> Self {
        Self::of_bits(self.bits() & o.bits())
    }

    /// The flags set in exactly one of two flag sets.
    pub open spec fn difference_sym(self, o: Self) -> Self {
        Self::of_bits(self.bits() ^ o.bits())
    }

    /// The complement of a flag set.
    pub open spec fn complement(self) -> Self {
        Self::of_bits(!self.bits())
    }

    /// `o` is a subset of `self`.
    pub open spec fn includes(self, o: Self) -> bool {
        self.bits() & o.bits() == o.bits()
    }

    /// `o` and `self` have bits in common.
    pub open spec fn overlaps(self, o: Self) -> bool {
        self.bits() & o.bits() != 0
    }

    /// Checks whether `other` is a subset of `self`.
    pub fn contains(self, other: Self) -> (r: bool)
        ensures
            r == self.includes(other),
    {
        (self.0 & other.0) == other.0
    }

    /// Checks whether `other` and `self` have bits in common.
    pub fn intersects(self, other: Self) -> (r: bool)
        ensures
            r == self.overlaps(other),
    {
        (self.0 & other.0) != 0
    }

    /// Masking the union of `a` and `b` with `a` gives `a`; every set
    /// contains itself; complementing twice gives the set back; and two sets
    /// intersect exactly when their intersection is not empty.
    pub proof fn lemma_flag_algebra(a: Self, b: Self)
        ensures
            a.union(b).intersection(a) == a,
            a.includes(a),
            a.complement().complement() == a,
            a.overlaps(b) == (a.intersection(b) != Self::of_bits(0)),
    {
        lemma_bits_algebra(a.0, b.0);
    }
}

impl core::ops::BitOr for AllocationCreateFlags {
    type Output = Self;

    fn bitor(self, rhs: Self) -> (r: Self)
        ensures
            r == self.union(rhs),
    {
        Self(self.0 | rhs.0)
    }
}

impl vstd::std_specs::ops::BitOrSpecImpl for AllocationCreateFlags {
    open spec fn obeys_bitor_spec() -> bool {
        true
    }

    open spec fn bitor_req(self, rhs: Self) -> bool {
        true
    }

    open spec fn bitor_spec(self, rhs: Self) -> Self {
        self.union(rhs)
    }
}

impl core::ops::BitOrAssign for AllocationCreateFlags {
    fn bitor_assign(&mut self, rhs: Self)
        ensures
            *final(self) == old(self).union(rhs),
    {
        self.0 = self.0 | rhs.0;
    }
}

impl core::ops::BitAnd for AllocationCreateFlags {
    type Output = Self;

    fn bitand(self, rhs: Self) -> (r: Self)
        ensures
            r == self.intersection(rhs),
    {
        Self(self.0 & rhs.0)
    }
}

impl vstd::std_specs::ops::BitAndSpecImpl for AllocationCreateFlags {
    open spec fn obeys_bitand_spec() -> bool {
        true
    }

    open spec fn bitand_req(self, rhs: Self) -> bool {
        true
    }

    open spec fn bitand_spec(self, rhs: Self) -> Self {
        self.intersection(rhs)
    }
}

impl core::ops::BitAndAssign for AllocationCreateFlags {
    fn bitand_assign(&mut self, rhs: Self)
        ensures
            *final(self) == old(self).intersection(rhs),
    {
        self.0 = self.0 & rhs.0;
    }
}

impl core::ops::BitXor for AllocationCreateFlags {
    type Output = Self;

    fn bitxor(self, rhs: Self) -> (r: Self)
        ensures
            r == self.difference_sym(rhs),
    {
        Self(self.0 ^ rhs.0)
    }
}

impl vstd::std_specs::ops::BitXorSpecImpl for AllocationCreateFlags {
    open spec fn obeys_bitxor_spec() -> bool {
        true
    }

    open spec fn bitxor_req(self, rhs: Self) -> bool {
        true
    }

    open spec fn bitxor_spec(self, rhs: Self) -> Self {
        self.difference_sym(rhs)
    }
}

impl core::ops::BitXorAssign for AllocationCreateFlags {
    fn bitxor_assign(&mut self, rhs: Self)
        ensures
            *final(self) == old(self).difference_sym(rhs),
    {
        self.0 = self.0 ^ rhs.0;
    }
}

impl core::ops::Not for AllocationCreateFlags {
    type Output = Self;

    fn not(self) -> (r: Self)
        ensures
            r == self.complement(),
    {
        Self(!self.0)
    }
}

impl vstd::std_specs::ops::NotSpecImpl for AllocationCreateFlags {
    open spec fn obeys_not_spec() -> bool {
        true
    }

    open spec fn not_req(self) -> bool {
        true
    }

    open spec fn not_spec(self) -> Self {
        self.complement()
    }
}

/// Flags to be passed as `PoolCreateInfo::flags`.
#[derive(Debug, Clone, Copy, PartialEq, Eq, Structural, PartialOrd, Ord, Hash, Default)]
pub struct PoolCreateFlags(u32);

impl PoolCreateFlags {
    /// Buffer-image granularity can be ignored in this pool.
    #[allow(non_snake_case)]
    pub fn IGNORE_BUFFER_IMAGE_GRANULARITY() -> (r: Self)
        ensures
            r == Self::of_bits(2),
    {
        Self(2)
    }

    /// Enables alternative, linear allocation algorithm in this pool.
    #[allow(non_snake_case)]
    pub fn LINEAR_ALGORITHM() -> (r: Self)
        ensures
            r == Self::of_bits(4),
    {
        Self(4)
    }

    /// Bit mask to extract only `ALGORITHM` bits from entire set of flags.
    #[allow(non_snake_case)]
    pub fn ALGORITHM_MASK() -> (r: Self)
        ensures
            r == Self::of_bits(4),
    {
        Self(4)
    }

    /// The raw integer of the value.
    pub closed spec fn bits(self) -> u32 {
        self.0
    }

    /// The value with the raw integer `v`.
    pub closed spec fn of_bits(v: u32) -> Self {
        Self(v)
    }

    /// The value with no bits set.
    pub fn empty() -> (r: Self)
        ensures
            r == Self::of_bits(0),
    {
        Self(0)
    }

    /// The raw integer of the value.
    pub fn into_raw(self) -> (r: u32)
        ensures
            r == self.bits(),
    {
        self.0
    }

    /// The value with the raw integer `v`.
    pub fn from_raw(v: u32) -> (r: Self)
        ensures
            r == Self::of_bits(v),
    {
        Self(v)
    }

    /// Decoding a value's raw integer gives the value back, and the raw
    /// integer of a decoded integer is that integer.
    pub proof fn lemma_raw_round_trip(c: Self, v: u32)
        ensures
            Self::of_bits(c.bits()) == c,
            Self::of_bits(v).bits() == v,
    {
    }

    /// The union of two flag sets.
    pub open spec fn union(self, o: Self) -> Self {
        Self::of_bits(self.bits() | o.bits())
    }

    /// The intersection of two flag sets.
    pub open spec fn intersection(self, o: Self) -> Self {
        Self::of_bits(self.bits() & o.bits())
    }

    /// The flags set in exactly one of two flag sets.
    pub open spec fn difference_sym(self, o: Self) -> Self {
        Self::of_bits(self.bits() ^ o.bits())
    }

    /// The complement of a flag set.
    pub open spec fn complement(self) -> Self {
        Self::of_bits(!self.bits())
    }

    /// `o` is a subset of `self`.
    pub open spec fn includes(self, o: Self) -> bool {
        self.bits() & o.bits() == o.bits()
    }

    /// `o` and `self` have bits in common.
    pub open spec fn overlaps(self, o: Self) -> bool {
        self.bits() & o.bits() != 0
    }

    /// Checks whether `other` is a subset of `self`.
    pub fn contains(self, other: Self) -> (r: bool)
        ensures
            r == self.includes(other),
    {
        (self.0 & other.0) == other.0
    }

    /// Checks whether `other` and `self` have bits in common.
    pub fn intersects(self, other: Self) -> (r: bool)
        ensures
            r == self.overlaps(other),
    {
        (self.0 & other.0) != 0
    }

    /// Masking the union of `a` and `b` with `a` gives `a`; every set
    /// contains itself; complementing twice gives the set back; and two sets
    /// intersect exactly when their intersection is not empty.
    pub proof fn lemma_flag_algebra(a: Self, b: Self)
        ensures
            a.union(b).intersection(a) == a,
            a.includes(a),
            a.complement().complement() == a,
            a.overlaps(b) == (a.intersection(b) != Self::of_bits(0)),
    {
        lemma_bits_algebra(a.0, b.0);
    }
}

impl core::ops::BitOr for PoolCreateFlags {
    type Output = Self;

    fn bitor(self, rhs: Self) -> (r: Self)
        ensures
            r == self.union(rhs),
    {
        Self(self.0 | rhs.0)
    }
}

impl vstd::std_specs::ops::BitOrSpecImpl for PoolCreateFlags {
    open spec fn obeys_bitor_spec() -> bool {
        true
    }

    open spec fn bitor_req(self, rhs: Self) -> bool {
        true
    }

    open spec fn bitor_spec(self, rhs: Self) -> Self {
        self.union(rhs)
    }
}

impl core::ops::BitOrAssign for PoolCreateFlags {
    fn bitor_assign(&mut self, rhs: Self)
        ensures
            *final(self) == old(self).union(rhs),
    {
        self.0 = self.0 | rhs.0;
    }
}

impl core::ops::BitAnd for PoolCreateFlags {
    type Output = Self;

    fn bitand(self, rhs: Self) -> (r: Self)
        ensures
            r == self.intersection(rhs),
    {
        Self(self.0 & rhs.0)
    }
}

impl vstd::std_specs::ops::BitAndSpecImpl for PoolCreateFlags {
    open spec fn obeys_bitand_spec() -> bool {
        true
    }

    open spec fn bitand_req(self, rhs: Self) -> bool {
        true
    }

    open spec fn bitand_spec(self, rhs: Self) -> Self {
        self.intersection(rhs)
    }
}

impl core::ops::BitAndAssign for PoolCreateFlags {
    fn bitand_assign(&mut self, rhs: Self)
        ensures
            *final(self) == old(self).intersection(rhs),
    {
        self.0 = self.0 & rhs.0;
    }
}

impl core::ops::BitXor for PoolCreateFlags {
    type Output = Self;

    fn bitxor(self, rhs: Self) -> (r: Self)
        ensures
            r == self.difference_sym(rhs),
    {
        Self(self.0 ^ rhs.0)
    }
}

impl vstd::std_specs::ops::BitXorSpecImpl for PoolCreateFlags {
    open spec fn obeys_bitxor_spec() -> bool {
        true
    }

    open spec fn bitxor_req(self, rhs: Self) -> bool {
        true
    }

    open spec fn bitxor_spec(self, rhs: Self) -> Self {
        self.difference_sym(rhs)
    }
}

impl core::ops::BitXorAssign for PoolCreateFlags {
    fn bitxor_assign(&mut self, rhs: Self)
        ensures
            *final(self) == old(self).difference_sym(rhs),
    {
        self.0 = self.0 ^ rhs.0;
    }
}

impl core::ops::Not for PoolCreateFlags {
    type Output = Self;

    fn not(self) -> (r: Self)
        ensures
            r == self.complement(),
    {
        Self(!self.0)
    }
}

impl vstd::std_specs::ops::NotSpecImpl for PoolCreateFlags {
    open spec fn obeys_not_spec() -> bool {
        true
    }

    open spec fn not_req(self) -> bool {
        true
    }

    open spec fn not_spec(self) -> Self {
        self.complement()
    }
}

/// Flags to be passed as `DefragmentationInfo::flags`.
#[derive(Debug, Clone, Copy, PartialEq, Eq, Structural, PartialOrd, Ord, Hash, Default)]
pub struct DefragmentationFlags(u32);

impl DefragmentationFlags {
    /// The fastest defragmentation algorithm.
    #[allow(non_snake_case)]
    pub fn FLAG_ALGORITHM_FAST() -> (r: Self)
        ensures
            r == Self::of_bits(1),
    {
        Self(1)
    }

    /// A balance between the time spent and the defragmentation reached.
    #[allow(non_snake_case)]
    pub fn FLAG_ALGORITHM_BALANCED() -> (r: Self)
        ensures
            r == Self::of_bits(2),
    {
        Self(2)
    }

    /// Performs full defragmentation.
    #[allow(non_snake_case)]
    pub fn FLAG_ALGORITHM_FULL() -> (r: Self)
        ensures
            r == Self::of_bits(4),
    {
        Self(4)
    }

    /// The most robust algorithm, at the cost of time and copies.
    #[allow(non_snake_case)]
    pub fn FLAG_ALGORITHM_EXTENSIVE() -> (r: Self)
        ensures
            r == Self::of_bits(8),
    {
        Self(8)
    }

    /// A bit mask to extract only `ALGORITHM` bits from entire set of flags.
    #[allow(non_snake_case)]
    pub fn FLAG_ALGORITHM_MASK() -> (r: Self)
        ensures
            r == Self::of_bits(15),
    {
        Self(15)
    }

    /// The raw integer of the value.
    pub closed spec fn bits(self) -> u32 {
        self.0
    }

    /// The value with the raw integer `v`.
    pub closed spec fn of_bits(v: u32) -> Self {
        Self(v)
    }

    /// The value with no bits set.
    pub fn empty() -> (r: Self)
        ensures
            r == Self::of_bits(0),
    {
        Self(0)
    }

    /// The raw integer of the value.
    pub fn into_raw(self) -> (r: u32)
        ensures
            r == self.bits(),
    {
        self.0
    }

    /// The value with the raw integer `v`.
    pub fn from_raw(v: u32) -> (r: Self)
        ensures
            r == Self::of_bits(v),
    {
        Self(v)
    }

    /// Decoding a value's raw integer gives the value back, and the raw
    /// integer of a decoded integer is that integer.
    pub proof fn lemma_raw_round_trip(c: Self, v: u32)
        ensures
            Self::of_bits(c.bits()) == c,
            Self::of_bits(v).bits() == v,
    {
    }

    /// The union of two flag sets.
    pub open spec fn union(self, o: Self) -> Self {
        Self::of_bits(self.bits() | o.bits())
    }

    /// The intersection of two flag sets.
    pub open spec fn intersection(self, o: Self) -> Self {
        Self::of_bits(self.bits() & o.bits())
    }

    /// The flags set in exactly one of two flag sets.
    pub open spec fn difference_sym(self, o: Self) -> Self {
        Self::of_bits(self.bits() ^ o.bits())
    }

    /// The complement of a flag set.
    pub open spec fn complement(self) -> Self {
        Self::of_bits(!self.bits())
    }

    /// `o` is a subset of `self`.
    pub open spec fn includes(self, o: Self) -> bool {
        self.bits() & o.bits() == o.bits()
    }

    /// `o` and `self` have bits in common.
    pub open spec fn overlaps(self, o: Self) -> bool {
        self.bits() & o.bits() != 0
    }

    /// Checks whether `other` is a subset of `self`.
    pub fn contains(self, other: Self) -> (r: bool)
        ensures
            r == self.includes(other),
    {
        (self.0 & other.0) == other.0
    }

    /// Checks whether `other` and `self` have bits in common.
    pub fn intersects(self, other: Self) -> (r: bool)
        ensures
            r == self.overlaps(other),
    {
        (self.0 & other.0) != 0
    }

    /// Masking the union of `a` and `b` with `a` gives `a`; every set
    /// contains itself; complementing twice gives the set back; and two sets
    /// intersect exactly when their intersection is not empty.
    pub proof fn lemma_flag_algebra(a: Self, b: Self)
        ensures
            a.union(b).intersection(a) == a,
            a.includes(a),
            a.complement().complement() == a,
            a.overlaps(b) == (a.intersection(b) != Self::of_bits(0)),
    {
        lemma_bits_algebra(a.0, b.0);
    }
}

impl core::ops::BitOr for DefragmentationFlags {
    type Output = Self;

    fn bitor(self, rhs: Self) -> (r: Self)
        ensures
            r == self.union(rhs),
    {
        Self(self.0 | rhs.0)
    }
}

impl vstd::std_specs::ops::BitOrSpecImpl for DefragmentationFlags {
    open spec fn obeys_bitor_spec() -> bool {
        true
    }

    open spec fn bitor_req(self, rhs: Self) -> bool {
        true
    }

    open spec fn bitor_spec(self, rhs: Self) -> Self {
        self.union(rhs)
    }
}

impl core::ops::BitOrAssign for DefragmentationFlags {
    fn bitor_assign(&mut self, rhs: Self)
        ensures
            *final(self) == old(self).union(rhs),
    {
        self.0 = self.0 | rhs.0;
    }
}

impl core::ops::BitAnd for DefragmentationFlags {
    type Output = Self;

    fn bitand(self, rhs: Self) -> (r: Self)
        ensures
            r == self.intersection(rhs),
    {
        Self(self.0 & rhs.0)
    }
}

impl vstd::std_specs::ops::BitAndSpecImpl for DefragmentationFlags {
    open spec fn obeys_bitand_spec() -> bool {
        true
    }

    open spec fn bitand_req(self, rhs: Self) -> bool {
        true
    }

    open spec fn bitand_spec(self, rhs: Self) -> Self {
        self.intersection(rhs)
    }
}

impl core::ops::BitAndAssign for DefragmentationFlags {
    fn bitand_assign(&mut self, rhs: Self)
        ensures
            *final(self) == old(self).intersection(rhs),
    {
        self.0 = self.0 & rhs.0;
    }
}

impl core::ops::BitXor for DefragmentationFlags {
    type Output = Self;

    fn bitxor(self, rhs: Self) -> (r: Self)
        ensures
            r == self.difference_sym(rhs),
    {
        Self(self.0 ^ rhs.0)
    }
}

impl vstd::std_specs::ops::BitXorSpecImpl for DefragmentationFlags {
    open spec fn obeys_bitxor_spec() -> bool {
        true
    }

    open spec fn bitxor_req(self, rhs: Self) -> bool {
        true
    }

    open spec fn bitxor_spec(self, rhs: Self) -> Self {
        self.difference_sym(rhs)
    }
}

impl core::ops::BitXorAssign for DefragmentationFlags {
    fn bitxor_assign(&mut self, rhs: Self)
        ensures
            *final(self) == old(self).difference_sym(rhs),
    {
        self.0 = self.0 ^ rhs.0;
    }
}

impl core::ops::Not for DefragmentationFlags {
    type Output = Self;

    fn not(self) -> (r: Self)
        ensures
            r == self.complement(),
    {
        Self(!self.0)
    }
}

impl vstd::std_specs::ops::NotSpecImpl for DefragmentationFlags {
    open spec fn obeys_not_spec() -> bool {
        true
    }

    open spec fn not_req(self) -> bool {
        true
    }

    open spec fn not_spec(self) -> Self {
        self.complement()
    }
}

/// Operation performed on a single defragmentation move.
#[derive(Debug, Clone, Copy, PartialEq, Eq, Structural, PartialOrd, Ord, Hash, Default)]
pub struct DefragmentationMoveOperation(u32);

impl DefragmentationMoveOperation {
    /// The resource was recreated at the new place and its data copied.
    #[allow(non_snake_case)]
    pub fn COPY() -> (r: Self)
        ensures
            r == Self::of_bits(0),
    {
        Self(0)
    }

    /// The allocation cannot be moved; the new place is freed.
    #[allow(non_snake_case)]
    pub fn IGNORE() -> (r: Self)
        ensures
            r == Self::of_bits(1),
    {
        Self(1)
    }

    /// The allocation was abandoned; both places are freed.
    #[allow(non_snake_case)]
    pub fn DESTROY() -> (r: Self)
        ensures
            r == Self::of_bits(2),
    {
        Self(2)
    }

    /// The raw integer of the value.
    pub closed spec fn bits(self) -> u32 {
        self.0
    }

    /// The value with the raw integer `v`.
    pub closed spec fn of_bits(v: u32) -> Self {
        Self(v)
    }

    /// The value with no bits set.
    pub fn empty() -> (r: Self)
        ensures
            r == Self::of_bits(0),
    {
        Self(0)
    }

    /// The raw integer of the value.
    pub fn into_raw(self) -> (r: u32)
        ensures
            r == self.bits(),
    {
        self.0
    }

    /// The value with the raw integer `v`.
    pub fn from_raw(v: u32) -> (r: Self)
        ensures
            r == Self::of_bits(v),
    {
        Self(v)
    }

    /// Decoding a value's raw integer gives the value back, and the raw
    /// integer of a decoded integer is that integer.
    pub proof fn lemma_raw_round_trip(c: Self, v: u32)
        ensures
            Self::of_bits(c.bits()) == c,
            Self::of_bits(v).bits() == v,
    {
    }
}

/// Flags to be passed as `VirtualBlockCreateInfo::flags`.
#[derive(Debug, Clone, Copy, PartialEq, Eq, Structural, PartialOrd, Ord, Hash, Default)]
pub struct VirtualBlockCreateFlags(u32);

impl VirtualBlockCreateFlags {
    /// Enables alternative, linear allocation algorithm in this virtual block.
    #[allow(non_snake_case)]
    pub fn LINEAR_ALGORITHM() -> (r: Self)
        ensures
            r == Self::of_bits(1),
    {
        Self(1)
    }

    /// Bit mask to extract only `ALGORITHM` bits from entire set of flags.
    #[allow(non_snake_case)]
    pub fn ALGORITHM_MASK() -> (r: Self)
        ensures
            r == Self::of_bits(1),
    {
        Self(1)
    }

    /// The raw integer of the value.
    pub closed spec fn bits(self) -> u32 {
        self.0
    }

    /// The value with the raw integer `v`.
    pub closed spec fn of_bits(v: u32) -> Self {
        Self(v)
    }

    /// The value with no bits set.
    pub fn empty() -> (r: Self)
        ensures
            r == Self::of_bits(0),
    {
        Self(0)
    }

    /// The raw integer of the value.
    pub fn into_raw(self) -> (r: u32)
        ensures
            r == self.bits(),
    {
        self.0
    }

    /// The value with the raw integer `v`.
    pub fn from_raw(v: u32) -> (r: Self)
        ensures
            r == Self::of_bits(v),
    {
        Self(v)
    }

    /// Decoding a value's raw integer gives the value back, and the raw
    /// integer of a decoded integer is that integer.
    pub proof fn lemma_raw_round_trip(c: Self, v: u32)
        ensures
            Self::of_bits(c.bits()) == c,
            Self::of_bits(v).bits() == v,
    {
    }

    /// The union of two flag sets.
    pub open spec fn union(self, o: Self) -> Self {
        Self::of_bits(self.bits() | o.bits())
    }

    /// The intersection of two flag sets.
    pub open spec fn intersection(self, o: Self) -> Self {
        Self::of_bits(self.bits() & o.bits())
    }

    /// The flags set in exactly one of two flag sets.
    pub open spec fn difference_sym(self, o: Self) -> Self {
        Self::of_bits(self.bits() ^ o.bits())
    }

    /// The complement of a flag set.
    pub open spec fn complement(self) -> Self {
        Self::of_bits(!self.bits())
    }

    /// `o` is a subset of `self`.
    pub open spec fn includes(self, o: Self) -> bool {
        self.bits() & o.bits() == o.bits()
    }

    /// `o` and `self` have bits in common.
    pub open spec fn overlaps(self, o: Self) -> bool {
        self.bits() & o.bits() != 0
    }

    /// Checks whether `other` is a subset of `self`.
    pub fn contains(self, other: Self) -> (r: bool)
        ensures
            r == self.includes(other),
    {
        (self.0 & other.0) == other.0
    }

    /// Checks whether `other` and `self` have bits in common.
    pub fn intersects(self, other: Self) -> (r: bool)
        ensures
            r == self.overlaps(other),
    {
        (self.0 & other.0) != 0
    }

    /// Masking the union of `a` and `b` with `a` gives `a`; every set
    /// contains itself; complementing twice gives the set back; and two sets
    /// intersect exactly when their intersection is not empty.
    pub proof fn lemma_flag_algebra(a: Self, b: Self)
        ensures
            a.union(b).intersection(a) == a,
            a.includes(a),
            a.complement().complement() == a,
            a.overlaps(b) == (a.intersection(b) != Self::of_bits(0)),
    {
        lemma_bits_algebra(a.0, b.0);
    }
}

impl core::ops::BitOr for VirtualBlockCreateFlags {
    type Output = Self;

    fn bitor(self, rhs: Self) -> (r: Self)
        ensures
            r == self.union(rhs),
    {
        Self(self.0 | rhs.0)
    }
}

impl vstd::std_specs::ops::BitOrSpecImpl for VirtualBlockCreateFlags {
    open spec fn obeys_bitor_spec() -> bool {
        true
    }

    open spec fn bitor_req(self, rhs: Self) -> bool {
        true
    }

    open spec fn bitor_spec(self, rhs: Self) -> Self {
        self.union(rhs)
    }
}

impl core::ops::BitOrAssign for VirtualBlockCreateFlags {
    fn bitor_assign(&mut self, rhs: Self)
        ensures
            *final(self) == old(self).union(rhs),
    {
        self.0 = self.0 | rhs.0;
    }
}

impl core::ops::BitAnd for VirtualBlockCreateFlags {
    type Output = Self;

    fn bitand(self, rhs: Self) -> (r: Self)
        ensures
            r == self.intersection(rhs),
    {
        Self(self.0 & rhs.0)
    }
}

impl vstd::std_specs::ops::BitAndSpecImpl for VirtualBlockCreateFlags {
    open spec fn obeys_bitand_spec() -> bool {
        true
    }

    open spec fn bitand_req(self, rhs: Self) -> bool {
        true
    }

    open spec fn bitand_spec(self, rhs: Self) -> Self {
        self.intersection(rhs)
    }
}

impl core::ops::BitAndAssign for VirtualBlockCreateFlags {
    fn bitand_assign(&mut self, rhs: Self)
        ensures
            *final(self) == old(self).intersection(rhs),
    {
        self.0 = self.0 & rhs.0;
    }
}

impl core::ops::BitXor for VirtualBlockCreateFlags {
    type Output = Self;

    fn bitxor(self, rhs: Self) -> (r: Self)
        ensures
            r == self.difference_sym(rhs),
    {
        Self(self.0 ^ rhs.0)
    }
}

impl vstd::std_specs::ops::BitXorSpecImpl for VirtualBlockCreateFlags {
    open spec fn obeys_bitxor_spec() -> bool {
        true
    }

    open spec fn bitxor_req(self, rhs: Self) -> bool {
        true
    }

    open spec fn bitxor_spec(self, rhs: Self) -> Self {
        self.difference_sym(rhs)
    }
}

impl core::ops::BitXorAssign for VirtualBlockCreateFlags {
    fn bitxor_assign(&mut self, rhs: Self)
        ensures
            *final(self) == old(self).difference_sym(rhs),
    {
        self.0 = self.0 ^ rhs.0;
    }
}

impl core::ops::Not for VirtualBlockCreateFlags {
    type Output = Self;

    fn not(self) -> (r: Self)
        ensures
            r == self.complement(),
    {
        Self(!self.0)
    }
}

impl vstd::std_specs::ops::NotSpecImpl for VirtualBlockCreateFlags {
    open spec fn obeys_not_spec() -> bool {
        true
    }

    open spec fn not_req(self) -> bool {
        true
    }

    open spec fn not_spec(self) -> Self {
        self.complement()
    }
}

/// Flags to be passed as `VirtualAllocationCreateInfo::flags`.
#[derive(Debug, Clone, Copy, PartialEq, Eq, Structural, PartialOrd, Ord, Hash, Default)]
pub struct VirtualAllocationCreateFlags(u32);

impl VirtualAllocationCreateFlags {
    /// Allocation will be created from upper stack in a double stack pool.
    #[allow(non_snake_case)]
    pub fn UPPER_ADDRESS() -> (r: Self)
        ensures
            r == Self::of_bits(64),
    {
        Self(64)
    }

    /// Allocation strategy that tries to minimize memory usage.
    #[allow(non_snake_case)]
    pub fn STRATEGY_MIN_MEMORY() -> (r: Self)
        ensures
            r == Self::of_bits(65536),
    {
        Self(65536)
    }

    /// Allocation strategy that tries to minimize allocation time.
    #[allow(non_snake_case)]
    pub fn STRATEGY_MIN_TIME() -> (r: Self)
        ensures
            r == Self::of_bits(131072),
    {
        Self(131072)
    }

    /// Allocation strategy that chooses always the lowest offset in available space.
    #[allow(non_snake_case)]
    pub fn STRATEGY_MIN_OFFSET() -> (r: Self)
        ensures
            r == Self::of_bits(262144),
    {
        Self(262144)
    }

    /// A bit mask to extract only `STRATEGY` bits from entire set of flags.
    #[allow(non_snake_case)]
    pub fn STRATEGY_MASK() -> (r: Self)
        ensures
            r == Self::of_bits(458752),
    {
        Self(458752)
    }

    /// The raw integer of the value.
    pub closed spec fn bits(self) -> u32 {
        self.0
    }

    /// The value with the raw integer `v`.
    pub closed spec fn of_bits(v: u32) -> Self {
        Self(v)
    }

    /// The value with no bits set.
    pub fn empty() -> (r: Self)
        ensures
            r == Self::of_bits(0),
    {
        Self(0)
    }

    /// The raw integer of the value.
    pub fn into_raw(self) -> (r: u32)
        ensures
            r == self.bits(),
    {
        self.0
    }

    /// The value with the raw integer `v`.
    pub fn from_raw(v: u32) -> (r: Self)
        ensures
            r == Self::of_bits(v),
    {
        Self(v)
    }

    /// Decoding a value's raw integer gives the value back, and the raw
    /// integer of a decoded integer is that integer.
    pub proof fn lemma_raw_round_trip(c: Self, v: u32)
        ensures
            Self::of_bits(c.bits()) == c,
            Self::of_bits(v).bits() == v,
    {
    }

    /// The union of two flag sets.
    pub open spec fn union(self, o: Self) -> Self {
        Self::of_bits(self.bits() | o.bits())
    }

    /// The intersection of two flag sets.
    pub open spec fn intersection(self, o: Self) -> Self {
        Self::of_bits(self.bits() & o.bits())
    }

    /// The flags set in exactly one of two flag sets.
    pub open spec fn difference_sym(self, o: Self) -> Self {
        Self::of_bits(self.bits() ^ o.bits())
    }

    /// The complement of a flag set.
    pub open spec fn complement(self) -> Self {
        Self::of_bits(!self.bits())
    }

    /// `o` is a subset of `self`.
    pub open spec fn includes(self, o: Self) -> bool {
        self.bits() & o.bits() == o.bits()
    }

    /// `o` and `self` have bits in common.
    pub open spec fn overlaps(self, o: Self) -> bool {
        self.bits() & o.bits() != 0
    }

    /// Checks whether `other` is a subset of `self`.
    pub fn contains(self, other: Self) -> (r: bool)
        ensures
            r == self.includes(other),
    {
        (self.0 & other.0) == other.0
    }

    /// Checks whether `other` and `self` have bits in common.
    pub fn intersects(self, other: Self) -> (r: bool)
        ensures
            r == self.overlaps(other),
    {
        (self.0 & other.0) != 0
    }

    /// Masking the union of `a` and `b` with `a` gives `a`; every set
    /// contains itself; complementing twice gives the set back; and two sets
    /// intersect exactly when their intersection is not empty.
    pub proof fn lemma_flag_algebra(a: Self, b: Self)
        ensures
            a.union(b).intersection(a) == a,
            a.includes(a),
            a.complement().complement() == a,
            a.overlaps(b) == (a.intersection(b) != Self::of_bits(0)),
    {
        lemma_bits_algebra(a.0, b.0);
    }
}

impl core::ops::BitOr for VirtualAllocationCreateFlags {
    type Output = Self;

    fn bitor(self, rhs: Self) -> (r: Self)
        ensures
            r == self.union(rhs),
    {
        Self(self.0 | rhs.0)
    }
}

impl vstd::std_specs::ops::BitOrSpecImpl for VirtualAllocationCreateFlags {
    open spec fn obeys_bitor_spec() -> bool {
        true
    }

    open spec fn bitor_req(self, rhs: Self) -> bool {
        true
    }

    open spec fn bitor_spec(self, rhs: Self) -> Self {
        self.union(rhs)
    }
}

impl core::ops::BitOrAssign for VirtualAllocationCreateFlags {
    fn bitor_assign(&mut self, rhs: Self)
        ensures
            *final(self) == old(self).union(rhs),
    {
        self.0 = self.0 | rhs.0;
    }
}

impl core::ops::BitAnd for VirtualAllocationCreateFlags {
    type Output = Self;

    fn bitand(self, rhs: Self) -> (r: Self)
        ensures
            r == self.intersection(rhs),
    {
        Self(self.0 & rhs.0)
    }
}

impl vstd::std_specs::ops::BitAndSpecImpl for VirtualAllocationCreateFlags {
    open spec fn obeys_bitand_spec() -> bool {
        true
    }

    open spec fn bitand_req(self, rhs: Self) -> bool {
        true
    }

    open spec fn bitand_spec(self, rhs: Self) -> Self {
        self.intersection(rhs)
    }
}

impl core::ops::BitAndAssign for VirtualAllocationCreateFlags {
    fn bitand_assign(&mut self, rhs: Self)
        ensures
            *final(self) == old(self).intersection(rhs),
    {
        self.0 = self.0 & rhs.0;
    }
}

impl core::ops::BitXor for VirtualAllocationCreateFlags {
    type Output = Self;

    fn bitxor(self, rhs: Self) -> (r: Self)
        ensures
            r == self.difference_sym(rhs),
    {
        Self(self.0 ^ rhs.0)
    }
}

impl vstd::std_specs::ops::BitXorSpecImpl for VirtualAllocationCreateFlags {
    open spec fn obeys_bitxor_spec() -> bool {
        true
    }

    open spec fn bitxor_req(self, rhs: Self) -> bool {
        true
    }

    open spec fn bitxor_spec(self, rhs: Self) -> Self {
        self.difference_sym(rhs)
    }
}

impl core::ops::BitXorAssign for VirtualAllocationCreateFlags {
    fn bitxor_assign(&mut self, rhs: Self)
        ensures
            *final(self) == old(self).difference_sym(rhs),
    {
        self.0 = self.0 ^ rhs.0;
    }
}

impl core::ops::Not for VirtualAllocationCreateFlags {
    type Output = Self;

    fn not(self) -> (r: Self)
        ensures
            r == self.complement(),
    {
        Self(!self.0)
    }
}

impl vstd::std_specs::ops::NotSpecImpl for VirtualAllocationCreateFlags {
    open spec fn obeys_not_spec() -> bool {
        true
    }

    open spec fn not_req(self) -> bool {
        true
    }

    open spec fn not_spec(self) -> Self {
        self.complement()
    }
}

} // verus!
