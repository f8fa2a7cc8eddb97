//! Architecture-agnostic address and frame value types.
//!
//! A physical or virtual address is a plain 64-bit integer; a frame is a
//! 4096-byte aligned unit of physical memory.  All operations are total over
//! the inputs their contracts admit, and the alignment operations work on
//! power-of-two alignments only.

use vstd::prelude::*;

verus! {

/// True when `align` is a power of two.
pub open spec fn is_power_of_two(align: u64) -> bool {
    align != 0 && align & ((align - 1) as u64) == 0
}

/// The value of `x` rounded down to a multiple of `align`.
pub open spec fn align_down_spec(x: u64, align: u64) -> u64 {
    x & !((align - 1) as u64)
}

/// The value of `x` rounded up to a multiple of `align`.
pub open spec fn align_up_spec(x: u64, align: u64) -> u64 {
    ((x + align - 1) as u64) & !((align - 1) as u64)
}

/// A power of two (in the mask formulation above) is `pow2(n)` for some
/// exponent `n` below 64.
proof fn lemma_power_of_two_has_exponent(align: u64)
    requires
        is_power_of_two(align),
    ensures
        exists|n: nat|
            n < 64 && align == vstd::arithmetic::power2::pow2(n),
    decreases align,
{
    vstd::arithmetic::power2::lemma2_to64();
    if align == 1 {
        assert(1 == vstd::arithmetic::power2::pow2(0));
    } else {
        let half: u64 = (align / 2) as u64;
        assert(align % 2 == 0 && half != 0 && half & ((half - 1) as u64) == 0 && align == 2
            * half) by (bit_vector)
            requires
                align != 0 && align != 1 && align & ((align - 1) as u64) == 0 && half == align
                    / 2,
        ;
        lemma_power_of_two_has_exponent(half);
        let n = choose|n: nat|
            n < 64 && half == vstd::arithmetic::power2::pow2(n);
        if n + 1 >= 64 {
            vstd::arithmetic::power2::lemma2_to64_rest();
            vstd::arithmetic::power2::lemma_pow2_strictly_increases(63, n + 1);
            assert(false);
        }
        assert(align == vstd::arithmetic::power2::pow2(n + 1)) by {
            vstd::arithmetic::power2::lemma_pow2_unfold(n + 1);
        };
    }
}

/// Splitting a value by any mask is lossless: the masked and unmasked parts
/// sum back to the value.
proof fn lemma_mask_split(x: u64, m: u64)
    ensures
        (x & m) + (x & !m) == x,
{
    assert((x & m) + (x & !m) == x) by (bit_vector);
}

/// For a power of two `align`, `x & ((align - 1) as u64)` equals
/// `x % align`, so `align_down_spec(x, align) == x - x % align`.
proof fn lemma_mask_is_mod(x: u64, align: u64)
    requires
        is_power_of_two(align),
    ensures
        x & ((align - 1) as u64) == x % align,
        align_down_spec(x, align) == x - x % align,
{
    lemma_power_of_two_has_exponent(align);
    let n = choose|n: nat|
        n < 64 && align == vstd::arithmetic::power2::pow2(n);
    vstd::bits::lemma_u64_low_bits_mask_is_mod(x, n);
    assert((vstd::bits::low_bits_mask(n) as u64) == (align - 1) as u64);
    lemma_mask_split(x, (align - 1) as u64);
}

/// Rounding down to a power-of-two alignment yields the greatest multiple of
/// the alignment that does not exceed the argument:
/// `align_down(x, a) <= x < align_down(x, a) + a`, and the result is exactly
/// divisible by `a`.
pub proof fn lemma_align_down_bounds(x: u64, align: u64)
    requires
        is_power_of_two(align),
    ensures
        align_down_spec(x, align) <= x,
        x < align_down_spec(x, align) + align,
        align_down_spec(x, align) % align == 0,
{
    lemma_mask_is_mod(x, align);
    vstd::arithmetic::div_mod::lemma_mod_bound(x as int, align as int);
    vstd::arithmetic::div_mod::lemma_fundamental_div_mod(x as int, align as int);
    vstd::arithmetic::div_mod::lemma_mod_multiples_basic(x as int / align as int, align as int);
}

/// Rounding up to a power-of-two alignment yields the least multiple of the
/// alignment that is greater than or equal to the argument, whenever that
/// multiple still fits in 64 bits.
pub proof fn lemma_align_up_least(x: u64, align: u64)
    requires
        is_power_of_two(align),
        x + align - 1 <= u64::MAX,
    ensures
        x <= align_up_spec(x, align),
        align_up_spec(x, align) < x + align,
        align_up_spec(x, align) % align == 0,
{
    let y = (x + align - 1) as u64;
    lemma_mask_is_mod(y, align);
    vstd::arithmetic::div_mod::lemma_mod_bound(y as int, align as int);
    vstd::arithmetic::div_mod::lemma_fundamental_div_mod(y as int, align as int);
    vstd::arithmetic::div_mod::lemma_mod_multiples_basic(y as int / align as int, align as int);
}

/// For a power-of-two alignment, the bitwise test `x & ((align - 1) as u64) == 0`
/// agrees with divisibility, and an aligned value is its own rounding.
pub proof fn lemma_aligned_iff_mod_zero(x: u64, align: u64)
    requires
        is_power_of_two(align),
    ensures
        x % align == 0 <==> x & ((align - 1) as u64) == 0,
        x % align == 0 <==> align_down_spec(x, align) == x,
{
    lemma_mask_is_mod(x, align);
    vstd::arithmetic::div_mod::lemma_mod_bound(x as int, align as int);
}

/// The frame size is a power of two.
pub proof fn lemma_frame_size_power_of_two()
    ensures
        is_power_of_two(FRAME_SIZE),
{
    assert(4096u64 & 4095u64 == 0) by (bit_vector);
}

/// Physical memory address.
#[derive(Debug, Clone, Copy, PartialEq, Eq, Structural, PartialOrd, Ord, Hash)]
pub struct PhysAddr(pub u64);

impl PhysAddr {
    /// Create a new physical address.
    #[inline]
    pub fn new(addr: u64) -> (r: Self)
        ensures
            r.0 == addr,
    {
        Self(addr)
    }

    /// Get the address as `u64`.
    #[inline]
    pub fn as_u64(self) -> (r: u64)
        ensures
            r == self.0,
    {
        self.0
    }

    /// Check whether the address is a multiple of `align`.
    #[inline]
    pub fn is_aligned(self, align: u64) -> (r: bool)
        requires
            is_power_of_two(align),
        ensures
            r == (self.0 % align == 0),
    {
        self.0 % align == 0
    }

    /// Round the address down to a multiple of `align`.
    #[inline]
    pub fn align_down(self, align: u64) -> (r: Self)
        requires
            is_power_of_two(align),
        ensures
            r.0 == align_down_spec(self.0, align),
            r.0 <= self.0 < r.0 + align,
            r.0 % align == 0,
    {
        proof {
            lemma_align_down_bounds(self.0, align);
        }
        Self(self.0 & !(align - 1))
    }

    /// Round the address up to a multiple of `align`.
    #[inline]
    pub fn align_up(self, align: u64) -> (r: Self)
        requires
            is_power_of_two(align),
            self.0 + align - 1 <= u64::MAX,
        ensures
            r.0 == align_up_spec(self.0, align),
            self.0 <= r.0 < self.0 + align,
            r.0 % align == 0,
    {
        proof {
            lemma_align_up_least(self.0, align);
        }
        Self((self.0 + (align - 1)) & !(align - 1))
    }
}

/// Virtual memory address.
#[derive(Debug, Clone, Copy, PartialEq, Eq, Structural, PartialOrd, Ord, Hash)]
pub struct VirtAddr(pub u64);

impl VirtAddr {
    /// Create a new virtual address.
    #[inline]
    pub fn new(addr: u64) -> (r: Self)
        ensures
            r.0 == addr,
    {
        Self(addr)
    }

    /// Get the address as `u64`.
    #[inline]
    pub fn as_u64(self) -> (r: u64)
        ensures
            r == self.0,
    {
        self.0
    }

    /// Get the address as `usize`; exact on the 64-bit targets this kernel
    /// supports.
    #[inline]
    pub fn as_usize(self) -> (r: usize)
        requires
            self.0 <= usize::MAX as u64,
        ensures
            r as u64 == self.0,
    {
        self.0 as usize
    }

    /// Check whether the address is a multiple of `align`.
    #[inline]
    pub fn is_aligned(self, align: u64) -> (r: bool)
        requires
            is_power_of_two(align),
        ensures
            r == (self.0 % align == 0),
    {
        self.0 % align == 0
    }

    /// Round the address down to a multiple of `align`.
    #[inline]
    pub fn align_down(self, align: u64) -> (r: Self)
        requires
            is_power_of_two(align),
        ensures
            r.0 == align_down_spec(self.0, align),
            r.0 <= self.0 < r.0 + align,
            r.0 % align == 0,
    {
        proof {
            lemma_align_down_bounds(self.0, align);
        }
        Self(self.0 & !(align - 1))
    }

    /// Round the address up to a multiple of `align`.
    #[inline]
    pub fn align_up(self, align: u64) -> (r: Self)
        requires
            is_power_of_two(align),
            self.0 + align - 1 <= u64::MAX,
        ensures
            r.0 == align_up_spec(self.0, align),
            self.0 <= r.0 < self.0 + align,
            r.0 % align == 0,
    {
        proof {
            lemma_align_up_least(self.0, align);
        }
        Self((self.0 + (align - 1)) & !(align - 1))
    }
}

/// Size of a physical frame in bytes.
pub const FRAME_SIZE: u64 = 4096;

/// Physical memory frame: a 4096-byte aligned unit of physical memory.
#[derive(Debug, Clone, Copy, PartialEq, Eq, Structural, PartialOrd, Ord)]
pub struct PhysFrame {
    start_address: PhysAddr,
}

impl PhysFrame {
    /// The start address of the frame, always a multiple of the frame size.
    pub closed spec fn start_spec(self) -> u64 {
        self.start_address.0
    }

    /// Every frame starts on a frame boundary.
    #[verifier::type_invariant]
    spec fn inv(self) -> bool {
        self.start_address.0 % FRAME_SIZE == 0
    }

    /// Create the frame containing the given address.
    #[inline]
    pub fn containing_address(address: PhysAddr) -> (r: Self)
        ensures
            r.start_spec() == align_down_spec(address.0, FRAME_SIZE),
            r.start_spec() <= address.0 < r.start_spec() + FRAME_SIZE,
            r.start_spec() % FRAME_SIZE == 0,
    {
        proof {
            lemma_frame_size_power_of_two();
            lemma_align_down_bounds(address.0, FRAME_SIZE);
        }
        Self { start_address: PhysAddr(address.0 & !(FRAME_SIZE - 1)) }
    }

    /// Get the start address of the frame.
    #[inline]
    pub fn start_address(self) -> (r: PhysAddr)
        ensures
            r.0 == self.start_spec(),
            r.0 % FRAME_SIZE == 0,
    {
        proof {
            use_type_invariant(self);
        }
        self.start_address
    }

    /// Get the frame number.
    #[inline]
    pub fn number(self) -> (r: u64)
        ensures
            r == self.start_spec() / FRAME_SIZE,
    {
        self.start_address.0 / FRAME_SIZE
    }
}

/// A frame built by `containing_address` starts on a frame boundary, and
/// applying `containing_address` to that start address gives the same frame
/// back.
pub proof fn lemma_containing_address_idempotent(address: u64)
    ensures
        align_down_spec(address, FRAME_SIZE) % FRAME_SIZE == 0,
        align_down_spec(align_down_spec(address, FRAME_SIZE), FRAME_SIZE) == align_down_spec(
            address,
            FRAME_SIZE,
        ),
{
    lemma_frame_size_power_of_two();
    lemma_align_down_bounds(address, FRAME_SIZE);
    lemma_aligned_iff_mod_zero(align_down_spec(address, FRAME_SIZE), FRAME_SIZE);
}

/// Half-open range [start, end) of physical frames.
#[derive(Debug, Clone, Copy, PartialEq, Eq, Structural)]
pub struct PhysFrameRange {
    pub start: PhysFrame,
    pub end: PhysFrame,
}

impl PhysFrameRange {
    /// Create a new frame range.
    pub fn new(start: PhysFrame, end: PhysFrame) -> (r: Self)
        ensures
            r.start == start,
            r.end == end,
    {
        Self { start, end }
    }

    /// Check whether the range contains no frames.
    pub fn is_empty(&self) -> (r: bool)
        ensures
            r == (self.start.start_spec() >= self.end.start_spec()),
    {
        self.start.start_address.0 >= self.end.start_address.0
    }

    /// Get the number of frames in the range.
    pub fn count(&self) -> (r: u64)
        ensures
            r == 0 <==> self.start.start_spec() >= self.end.start_spec(),
            self.start.start_spec() < self.end.start_spec() ==> r == (self.end.start_spec()
                - self.start.start_spec()) / (FRAME_SIZE as int),
    {
        if self.is_empty() {
            0
        } else {
            proof {
                use_type_invariant(self.start);
                use_type_invariant(self.end);
                lemma_frame_distance_at_least_frame_size(
                    self.start.start_spec(),
                    self.end.start_spec(),
                );
                vstd::arithmetic::div_mod::lemma_div_non_zero(
                    self.end.start_spec() - self.start.start_spec(),
                    FRAME_SIZE as int,
                );
            }
            (self.end.start_address.0 - self.start.start_address.0) / FRAME_SIZE
        }
    }
}

/// Two distinct frame boundaries are at least one frame apart.
proof fn lemma_frame_distance_at_least_frame_size(start: u64, end: u64)
    requires
        start % FRAME_SIZE == 0,
        end % FRAME_SIZE == 0,
        start < end,
    ensures
        end - start >= FRAME_SIZE,
{
    let d = end - start;
    vstd::arithmetic::div_mod::lemma_sub_mod_noop(end as int, start as int, FRAME_SIZE as int);
    assert(d % (FRAME_SIZE as int) == 0);
    if d < FRAME_SIZE {
        vstd::arithmetic::div_mod::lemma_small_mod(d as nat, FRAME_SIZE as nat);
    }
}

/// A nonempty range of frames whose bounds both lie on frame boundaries
/// covers exactly `count * FRAME_SIZE` bytes:
/// `count * FRAME_SIZE == end.start - start.start`.
pub proof fn lemma_count_times_frame_size(start: u64, end: u64)
    requires
        start % FRAME_SIZE == 0,
        end % FRAME_SIZE == 0,
        start < end,
    ensures
        ((end - start) / (FRAME_SIZE as int)) * (FRAME_SIZE as int) == end - start,
{
    let d = end - start;
    vstd::arithmetic::div_mod::lemma_sub_mod_noop(end as int, start as int, FRAME_SIZE as int);
    assert(d % (FRAME_SIZE as int) == 0);
    vstd::arithmetic::div_mod::lemma_fundamental_div_mod(d, FRAME_SIZE as int);
}

} // verus!
