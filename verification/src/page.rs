//! Pages: the memory regions that hold the sections of a module.
use vstd::prelude::*;
use vstd::slice::slice_to_vec;
use crate::error::LoadError;

verus! {

/// What a mapping request returns when the host could not map the page.
pub const MAP_FAILED: u64 = 0xffff_ffff_ffff_ffff;

/// The access that a page grants.
#[derive(Debug, Clone, Copy, PartialEq, Eq, Structural)]
pub enum Protection {
    /// The page can be read and written: a section is being put in place.
    ReadWrite,
    /// The page can only be read: it holds constants.
    ReadOnly,
    /// The page can be read and executed: it holds finished code.
    ReadExecute,
}

/// What the host is asked to provide for a section.
#[derive(Debug, Clone, Copy, PartialEq, Eq, Structural)]
pub enum PageRequest {
    /// A mapping of `size` bytes whose protection can change.
    Mapped { size: usize },
    /// A plain allocation of `size` bytes at a multiple of `align`.
    Allocated { size: usize, align: u64 },
}

/// The mathematical model of a page.
pub struct PageView {
    /// The address of the first byte.
    pub base: u64,
    /// Whether the protection of the page can change.
    pub paged: bool,
    /// The access that the page grants now.
    pub protection: Protection,
    /// The contents, one element per byte of the page.
    pub bytes: Seq<u8>,
}

/// A page of memory: a region of fixed size at a fixed address.
///
/// A paged page is a mapping whose protection can change; a page that is not
/// paged is a plain allocation that stays readable and writable. No operation
/// moves a page or changes its size: addresses inside a page are written
/// into code, and have to stay true.
///
/// A page is the loader's account of the region, not the region: it holds
/// the address that the host obtained and the bytes that belong there.
#[derive(Debug)]
pub struct Page {
    paged: bool,
    ptr: u64,
    prot: Protection,
    bytes: Vec<u8>,
}

impl View for Page {
    type V = PageView;

    closed spec fn view(&self) -> PageView {
        PageView { base: self.ptr, paged: self.paged, protection: self.prot, bytes: self.bytes@ }
    }
}

/// The address `offset` bytes past `base`, wrapping around the address space.
pub open spec fn address_at(base: u64, offset: int) -> u64 {
    ((base + offset) % 0x1_0000_0000_0000_0000) as u64
}

/// `image` with `data` written over the bytes that start at `at`.
pub open spec fn overwrite(image: Seq<u8>, at: int, data: Seq<u8>) -> Seq<u8> {
    Seq::new(
        image.len(),
        |i: int| if at <= i < at + data.len() { data[i - at] } else { image[i] },
    )
}

/// `len` bytes of zero.
pub open spec fn zeros(len: nat) -> Seq<u8> {
    Seq::new(len, |i: int| 0u8)
}

impl Page {
    /// Records the mapping that the host obtained at `ptr` for `size` bytes.
    /// A fresh mapping is readable, writable and filled with zeros.
    pub fn new(ptr: u64, size: usize) -> (r: Result<Page, LoadError>)
        ensures
            match r {
                Ok(page) => ptr != MAP_FAILED && page@ == (PageView {
                    base: ptr,
                    paged: true,
                    protection: Protection::ReadWrite,
                    bytes: zeros(size as nat),
                }),
                Err(e) => ptr == MAP_FAILED && e == LoadError::MappingFailed,
            },
    {
        if ptr == MAP_FAILED {
            return Err(LoadError::MappingFailed);
        }
        let bytes: Vec<u8> = vec![0u8; size];
        assert(bytes@ =~= zeros(size as nat));
        Ok(Page { paged: true, ptr, prot: Protection::ReadWrite, bytes })
    }

    /// Records the allocation of `size` bytes that the host obtained at
    /// `ptr`. Its protection is fixed: readable and writable.
    pub fn non_paged(ptr: u64, size: usize) -> (page: Page)
        ensures
            page@ == (PageView {
                base: ptr,
                paged: false,
                protection: Protection::ReadWrite,
                bytes: zeros(size as nat),
            }),
    {
        let bytes: Vec<u8> = vec![0u8; size];
        assert(bytes@ =~= zeros(size as nat));
        Page { paged: false, ptr, prot: Protection::ReadWrite, bytes }
    }

    /// Changes the protection of a paged page. A page of fixed protection
    /// refuses, and stays as it is.
    pub fn mprotect(&mut self, prot: Protection) -> (r: Result<(), LoadError>)
        ensures
            match r {
                Ok(()) => old(self)@.paged && final(self)@ == (PageView {
                    protection: prot,
                    ..old(self)@
                }),
                Err(e) => !old(self)@.paged && e == LoadError::FixedProtection && final(self)@
                    == old(self)@,
            },
    {
        if !self.paged {
            return Err(LoadError::FixedProtection);
        }
        self.prot = prot;
        Ok(())
    }

    /// The address `offset` bytes past the start of the page.
    pub fn byte_add(&self, offset: usize) -> (address: u64)
        ensures
            address == address_at(self@.base, offset as int),
    {
        self.ptr.wrapping_add(offset as u64)
    }

    /// The address of the first byte of the page.
    pub fn as_ptr(&self) -> (address: u64)
        ensures
            address == self@.base,
    {
        self.ptr
    }

    /// The size of the page in bytes.
    pub fn size(&self) -> (size: usize)
        ensures
            size == self@.bytes.len(),
    {
        self.bytes.len()
    }

    /// Whether the protection of the page can change.
    pub fn is_paged(&self) -> (paged: bool)
        ensures
            paged == self@.paged,
    {
        self.paged
    }

    /// The access that the page grants now.
    pub fn protection(&self) -> (prot: Protection)
        ensures
            prot == self@.protection,
    {
        self.prot
    }

    /// The contents of the page.
    pub fn bytes(&self) -> (bytes: &Vec<u8>)
        ensures
            bytes@ == self@.bytes,
    {
        &self.bytes
    }

    /// Copies `src` over the whole page.
    pub fn fill(&mut self, src: &[u8])
        requires
            src@.len() == old(self)@.bytes.len(),
            old(self)@.protection == Protection::ReadWrite,
        ensures
            final(self)@ == (PageView { bytes: src@, ..old(self)@ }),
    {
        self.bytes = slice_to_vec(src);
    }

    /// Writes `data` over the bytes that start `offset` bytes into the page.
    pub fn write(&mut self, offset: usize, data: &[u8])
        requires
            offset + data@.len() <= old(self)@.bytes.len(),
            old(self)@.protection == Protection::ReadWrite,
        ensures
            final(self)@ == (PageView {
                bytes: overwrite(old(self)@.bytes, offset as int, data@),
                ..old(self)@
            }),
    {
        let ghost before = self.bytes@;
        let n = data.len();
        let total = self.bytes.len();
        let mut i: usize = 0;
        while i < n
            invariant
                n == data@.len(),
                i <= n,
                offset + n <= total,
                total == before.len(),
                self.bytes@.len() == before.len(),
                self.paged == old(self).paged,
                self.ptr == old(self).ptr,
                self.prot == old(self).prot,
                forall|k: int|
                    0 <= k < before.len() ==> self.bytes@[k] == if offset <= k < offset + i {
                        data@[k - offset]
                    } else {
                        before[k]
                    },
            decreases n - i,
        {
            self.bytes.set(offset + i, data[i]);
            i = i + 1;
        }
        assert(self.bytes@ =~= overwrite(before, offset as int, data@));
    }
}

} // verus!
