//! Patches: the arithmetic of each kind of relocation, and how a patch is
//! written into a page.
use vstd::prelude::*;
use vstd::arithmetic::div_mod::lemma_mod_multiples_vanish;
use crate::error::LoadError;
use crate::page::{overwrite, Page, PageView, Protection};

verus! {

/// The tag of a 64-bit absolute relocation.
pub const R_X86_64_64: u32 = 1;

/// The tag of a 32-bit relocation relative to the patch site.
pub const R_X86_64_PC32: u32 = 2;

/// The tag of a 32-bit relocation relative to the patch site, through a
/// linkage table. No such table exists here: it is applied as `R_X86_64_PC32`.
pub const R_X86_64_PLT32: u32 = 4;

/// The tag of a 32-bit absolute relocation that the processor zero-extends.
pub const R_X86_64_32: u32 = 10;

/// The tag of a 32-bit absolute relocation that the processor sign-extends.
/// It is applied as an absolute relocation whose target has to be the sign
/// extension of the four bytes written, never as one relative to the patch
/// site.
pub const R_X86_64_32S: u32 = 11;

/// The address `addend` bytes away from `input`, wrapping around the address
/// space.
pub open spec fn spec_apply_addend(input: u64, addend: i64) -> u64 {
    ((input + addend) % 0x1_0000_0000_0000_0000) as u64
}

/// Adds a signed addend to an address, wrapping around the address space.
pub fn apply_addend(input: u64, addend: i64) -> (target: u64)
    ensures
        target == spec_apply_addend(input, addend),
{
    input.wrapping_add_signed(addend)
}

/// The four bytes of `value`, least significant first.
pub open spec fn le_bytes_32(value: u32) -> Seq<u8> {
    seq![
        (value % 0x100) as u8,
        (value / 0x100 % 0x100) as u8,
        (value / 0x1_0000 % 0x100) as u8,
        (value / 0x100_0000 % 0x100) as u8,
    ]
}

/// The eight bytes of `value`, least significant first.
pub open spec fn le_bytes_64(value: u64) -> Seq<u8> {
    seq![
        (value % 0x100) as u8,
        (value / 0x100 % 0x100) as u8,
        (value / 0x1_0000 % 0x100) as u8,
        (value / 0x100_0000 % 0x100) as u8,
        (value / 0x1_0000_0000 % 0x100) as u8,
        (value / 0x100_0000_0000 % 0x100) as u8,
        (value / 0x1_0000_0000_0000 % 0x100) as u8,
        (value / 0x100_0000_0000_0000 % 0x100) as u8,
    ]
}

/// The half of `target` that a 32-bit patch discards.
pub open spec fn high_half(target: u64) -> u64 {
    target / 0x1_0000_0000
}

/// The half of `target` that a 32-bit patch keeps.
pub open spec fn low_half(target: u64) -> u32 {
    (target % 0x1_0000_0000) as u32
}

/// Bit 31 of `target`: the sign of its low half.
pub open spec fn bit_31(target: u64) -> bool {
    target / 0x8000_0000 % 2 == 1
}

/// Whether a 32-bit patch can stand for `target`: the discarded half is zero,
/// or, where the processor sign-extends and bit 31 is set, all ones.
pub open spec fn fits_32(target: u64, sign_extend: bool) -> bool {
    if sign_extend && bit_31(target) {
        high_half(target) == 0xffff_ffff
    } else {
        high_half(target) == 0
    }
}

/// What the processor makes of a 32-bit value when it widens it to 64 bits.
pub open spec fn extend_32(value: u32, sign_extend: bool) -> u64 {
    if sign_extend && value >= 0x8000_0000 {
        (value + 0xffff_ffff_0000_0000) as u64
    } else {
        value as u64
    }
}

/// `target` read as a signed number of 64 bits.
pub open spec fn as_signed(target: u64) -> i64 {
    if target >= 0x8000_0000_0000_0000 {
        (target - 0x1_0000_0000_0000_0000) as i64
    } else {
        target as i64
    }
}

/// The distance from `site` to `value`, kept to 32 bits.
pub open spec fn pc_relative(value: int, site: int) -> u32 {
    ((value - site) % 0x1_0000_0000) as u32
}

/// Adding a multiple of two to the power 64 leaves the low 32 bits alone.
pub proof fn lemma_low_half_wraps(x: int, k: int)
    ensures
        (x + k * 0x1_0000_0000_0000_0000) % 0x1_0000_0000 == x % 0x1_0000_0000,
{
    lemma_mod_multiples_vanish(k * 0x1_0000_0000, x, 0x1_0000_0000);
}

/// Writes `value` out in four bytes.
fn encode_32(value: u32) -> (bytes: Vec<u8>)
    ensures
        bytes@ == le_bytes_32(value),
{
    let bytes = vec![
        (value % 0x100) as u8,
        (value / 0x100 % 0x100) as u8,
        (value / 0x1_0000 % 0x100) as u8,
        (value / 0x100_0000 % 0x100) as u8,
    ];
    bytes
}

/// Writes `value` out in eight bytes.
fn encode_64(value: u64) -> (bytes: Vec<u8>)
    ensures
        bytes@ == le_bytes_64(value),
{
    let bytes = vec![
        (value % 0x100) as u8,
        (value / 0x100 % 0x100) as u8,
        (value / 0x1_0000 % 0x100) as u8,
        (value / 0x100_0000 % 0x100) as u8,
        (value / 0x1_0000_0000 % 0x100) as u8,
        (value / 0x100_0000_0000 % 0x100) as u8,
        (value / 0x1_0000_0000_0000 % 0x100) as u8,
        (value / 0x100_0000_0000_0000 % 0x100) as u8,
    ];
    bytes
}

/// The offset of a patch site as an index into the page that holds it.
fn site_index(r_offset: u64, dest: &Page) -> (index: usize)
    requires
        r_offset <= dest@.bytes.len(),
    ensures
        index == r_offset,
{
    // No page is larger than an index can say, so the cast keeps the offset.
    let size = dest.size();
    assert(r_offset <= size);
    r_offset as usize
}

/// A resolved relocation: a place in the code page and what to write there.
pub trait Applicator {
    /// The offset of the patch site within the page.
    spec fn site(&self) -> u64;

    /// The bytes that go to the patch site of a page that starts at `base`.
    spec fn patch(&self, base: u64) -> Seq<u8>;

    /// Writes the patch into `dest`. Nothing else of the page changes.
    fn apply_on_page(&self, dest: &mut Page)
        requires
            self.site() + self.patch(old(dest)@.base).len() <= old(dest)@.bytes.len(),
            old(dest)@.protection == Protection::ReadWrite,
        ensures
            final(dest)@ == (PageView {
                bytes: overwrite(
                    old(dest)@.bytes,
                    self.site() as int,
                    self.patch(old(dest)@.base),
                ),
                ..old(dest)@
            }),
    ;
}

/// A 32-bit absolute patch.
pub struct X6432Applicator {
    pub r_offset: u64,
    pub value: u32,
}

impl X6432Applicator {
    /// The patch for the symbol at `sym_val` and `addend`, at `r_offset`.
    /// The target has to fit: see `try_new` for one that may not.
    pub fn new(r_offset: u64, sym_val: u64, addend: i64, sign_extend: bool) -> (r: Self)
        requires
            fits_32(spec_apply_addend(sym_val, addend), sign_extend),
        ensures
            r.r_offset == r_offset,
            r.value == low_half(spec_apply_addend(sym_val, addend)),
            extend_32(r.value, sign_extend) == spec_apply_addend(sym_val, addend),
    {
        let target_value = apply_addend(sym_val, addend);
        Self { r_offset, value: (target_value % 0x1_0000_0000) as u32 }
    }

    /// The patch for the symbol at `sym_val` and `addend`, at `r_offset`, or
    /// `RelocationOverflow` where 32 bits cannot stand for the target.
    pub fn try_new(r_offset: u64, sym_val: u64, addend: i64, sign_extend: bool) -> (r: Result<
        Self,
        LoadError,
    >)
        ensures
            match r {
                Ok(a) => {
                    &&& fits_32(spec_apply_addend(sym_val, addend), sign_extend)
                    &&& a.r_offset == r_offset
                    &&& a.value == low_half(spec_apply_addend(sym_val, addend))
                    &&& extend_32(a.value, sign_extend) == spec_apply_addend(sym_val, addend)
                },
                Err(e) => {
                    &&& !fits_32(spec_apply_addend(sym_val, addend), sign_extend)
                    &&& e == LoadError::RelocationOverflow
                },
            },
    {
        let target_value = apply_addend(sym_val, addend);
        let sign32 = target_value & 0x8000_0000;
        let sign_extend_mask: u64 = if sign_extend && sign32 != 0 {
            0xffff_ffff_8000_0000
        } else {
            0
        };
        proof {
            assert((target_value & 0x8000_0000 != 0) == (target_value / 0x8000_0000 % 2 == 1))
                by (bit_vector);
            assert((target_value == (target_value & 0xffff_ffff) | 0) == (target_value
                / 0x1_0000_0000 == 0)) by (bit_vector);
            assert(target_value & 0x8000_0000 != 0 ==> (target_value == (target_value
                & 0xffff_ffff) | 0xffff_ffff_8000_0000) == (target_value / 0x1_0000_0000
                == 0xffff_ffff)) by (bit_vector);
        }
        // Nobody chooses where a page is mapped, so a target can be far away.
        if target_value != (target_value & 0xffff_ffff) | sign_extend_mask {
            return Err(LoadError::RelocationOverflow);
        }
        Ok(Self::new(r_offset, sym_val, addend, sign_extend))
    }
}

impl Applicator for X6432Applicator {
    open spec fn site(&self) -> u64 {
        self.r_offset
    }

    open spec fn patch(&self, base: u64) -> Seq<u8> {
        le_bytes_32(self.value)
    }

    fn apply_on_page(&self, dest: &mut Page) {
        let bytes = encode_32(self.value);
        dest.write(site_index(self.r_offset, dest), bytes.as_slice());
    }
}

/// A 32-bit patch relative to the address of the patch site.
pub struct X64PC32Applicator {
    pub r_offset: u64,
    pub value: i64,
}

impl X64PC32Applicator {
    /// The patch for the symbol at `sym_val` and `addend`, at `r_offset`.
    pub fn new(r_offset: u64, sym_val: u64, addend: i64) -> (r: Self)
        ensures
            r.r_offset == r_offset,
            r.value == as_signed(spec_apply_addend(sym_val, addend)),
    {
        let target_value = apply_addend(sym_val, addend);
        let value: i64 = if target_value >= 0x8000_0000_0000_0000 {
            (target_value - 0x8000_0000_0000_0000) as i64 + i64::MIN
        } else {
            target_value as i64
        };
        Self { r_offset, value }
    }
}

impl Applicator for X64PC32Applicator {
    open spec fn site(&self) -> u64 {
        self.r_offset
    }

    open spec fn patch(&self, base: u64) -> Seq<u8> {
        le_bytes_32(pc_relative(self.value as int, base + self.r_offset))
    }

    fn apply_on_page(&self, dest: &mut Page) {
        // The address of the patch site.
        let pc = dest.as_ptr().wrapping_add(self.r_offset);
        let target_value: u64 = if self.value < 0 {
            (self.value - i64::MIN) as u64 + 0x8000_0000_0000_0000
        } else {
            self.value as u64
        };
        let distance = target_value.wrapping_sub(pc);
        proof {
            let exact = self.value - (dest@.base + self.r_offset);
            let turns = (distance - exact) / 0x1_0000_0000_0000_0000;
            assert(distance == exact + turns * 0x1_0000_0000_0000_0000);
            lemma_low_half_wraps(exact, turns);
        }
        let bytes = encode_32((distance % 0x1_0000_0000) as u32);
        dest.write(site_index(self.r_offset, dest), bytes.as_slice());
    }
}

/// A 64-bit absolute patch.
pub struct X6464Applicator {
    pub r_offset: u64,
    pub value: u64,
}

impl X6464Applicator {
    /// The patch for the symbol at `sym_val` and `addend`, at `r_offset`.
    pub fn new(r_offset: u64, sym_val: u64, addend: i64) -> (r: Self)
        ensures
            r.r_offset == r_offset,
            r.value == spec_apply_addend(sym_val, addend),
    {
        let value = apply_addend(sym_val, addend);
        Self { r_offset, value }
    }
}

impl Applicator for X6464Applicator {
    open spec fn site(&self) -> u64 {
        self.r_offset
    }

    open spec fn patch(&self, base: u64) -> Seq<u8> {
        le_bytes_64(self.value)
    }

    fn apply_on_page(&self, dest: &mut Page) {
        let bytes = encode_64(self.value);
        dest.write(site_index(self.r_offset, dest), bytes.as_slice());
    }
}

/// The bytes of a 32-bit patch are the value in base 256, lowest digit
/// first: read back, they give the value.
pub proof fn lemma_le_bytes_32_read_back(value: u32)
    ensures
        le_bytes_32(value).len() == 4,
        le_bytes_32(value)[0] + 0x100 * le_bytes_32(value)[1] + 0x1_0000 * le_bytes_32(value)[2]
            + 0x100_0000 * le_bytes_32(value)[3] == value,
{
}

/// The bytes of a 64-bit patch are the value in base 256, lowest digit
/// first: read back, they give the value.
pub proof fn lemma_le_bytes_64_read_back(value: u64)
    ensures
        le_bytes_64(value).len() == 8,
        le_bytes_64(value)[0] + 0x100 * le_bytes_64(value)[1] + 0x1_0000 * le_bytes_64(value)[2]
            + 0x100_0000 * le_bytes_64(value)[3] + 0x1_0000_0000 * le_bytes_64(value)[4]
            + 0x100_0000_0000 * le_bytes_64(value)[5] + 0x1_0000_0000_0000 * le_bytes_64(
            value,
        )[6] + 0x100_0000_0000_0000 * le_bytes_64(value)[7] == value,
{
    assert(value == (value % 0x100) + 0x100 * (value / 0x100 % 0x100) + 0x1_0000 * (value
        / 0x1_0000 % 0x100) + 0x100_0000 * (value / 0x100_0000 % 0x100) + 0x1_0000_0000 * (value
        / 0x1_0000_0000 % 0x100) + 0x100_0000_0000 * (value / 0x100_0000_0000 % 0x100)
        + 0x1_0000_0000_0000 * (value / 0x1_0000_0000_0000 % 0x100) + 0x100_0000_0000_0000 * (value
        / 0x100_0000_0000_0000 % 0x100)) by (bit_vector);
}

/// A target that fits in 32 bits is what the processor makes of its low
/// half.
pub proof fn lemma_fitting_target_extends(target: u64, sign_extend: bool)
    requires
        fits_32(target, sign_extend),
    ensures
        extend_32(low_half(target), sign_extend) == target,
{
}

} // verus!
