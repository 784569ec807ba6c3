//! The relocation engine: it resolves the symbols that the relocations of
//! the code section refer to, and patches the code page.
use vstd::prelude::*;
use crate::applicator::{
    fits_32, le_bytes_32, le_bytes_64, lemma_fitting_target_extends, lemma_low_half_wraps,
    extend_32, low_half, pc_relative, spec_apply_addend, Applicator, X6432Applicator,
    X6464Applicator, X64PC32Applicator, R_X86_64_32, R_X86_64_32S, R_X86_64_64, R_X86_64_PC32,
    R_X86_64_PLT32,
};
use crate::error::LoadError;
use crate::namespace::{address_of, lookup, view_namespace, External, ExternalView};
use crate::object::{view_symbols, Object, Rel, Rela, Section, SectionHeader, SymbolView};
use crate::page::{address_at, overwrite, Page, PageView, Protection};

verus! {

/// A relocation of the code section: where to patch, against which symbol,
/// with which addend, and how.
#[derive(Debug, Clone, Copy, PartialEq, Eq, Structural)]
pub struct RelocRecord {
    pub r_offset: u64,
    pub r_addend: i64,
    pub r_sym: u32,
    pub r_type: u32,
}

/// The record of a relocation that carries its addend.
pub open spec fn record_of_rela(reloc: Rela) -> RelocRecord {
    RelocRecord {
        r_offset: reloc.r_offset,
        r_addend: reloc.r_addend,
        r_sym: reloc.r_sym,
        r_type: reloc.r_type,
    }
}

/// The record of a relocation without an addend: its addend is zero.
pub open spec fn record_of_rel(reloc: Rel) -> RelocRecord {
    RelocRecord { r_offset: reloc.r_offset, r_addend: 0, r_sym: reloc.r_sym, r_type: reloc.r_type }
}

impl From<Rela> for RelocRecord {
    fn from(reloc: Rela) -> (record: Self) {
        Self {
            r_offset: reloc.r_offset,
            r_addend: reloc.r_addend,
            r_sym: reloc.r_sym,
            r_type: reloc.r_type,
        }
    }
}

impl vstd::std_specs::convert::FromSpecImpl<Rela> for RelocRecord {
    open spec fn obeys_from_spec() -> bool {
        true
    }

    open spec fn from_spec(reloc: Rela) -> Self {
        record_of_rela(reloc)
    }
}

impl From<Rel> for RelocRecord {
    fn from(reloc: Rel) -> (record: Self) {
        Self { r_offset: reloc.r_offset, r_addend: 0, r_sym: reloc.r_sym, r_type: reloc.r_type }
    }
}

impl vstd::std_specs::convert::FromSpecImpl<Rel> for RelocRecord {
    open spec fn obeys_from_spec() -> bool {
        true
    }

    open spec fn from_spec(reloc: Rel) -> Self {
        record_of_rel(reloc)
    }
}

/// The relocations of a code section in the order in which they apply:
/// those that carry an addend, then the others with an addend of zero.
pub open spec fn records_of(relas: Seq<Rela>, rels: Seq<Rel>) -> Seq<RelocRecord> {
    Seq::new(
        relas.len() + rels.len(),
        |i: int|
            if i < relas.len() {
                record_of_rela(relas[i])
            } else {
                record_of_rel(rels[i - relas.len()])
            },
    )
}

/// A loaded section: its header and the address of the page that holds it.
#[derive(Debug, Clone, Copy, PartialEq, Eq, Structural)]
pub struct Loaded {
    pub header: SectionHeader,
    pub base: u64,
}

/// What relocation reads: the tables of the object, where its sections are
/// loaded, and the host's namespace.
pub struct Scope {
    pub sections: Seq<SectionHeader>,
    pub symbols: Seq<SymbolView>,
    pub text: Loaded,
    pub data: Option<Loaded>,
    pub rodata: Option<Loaded>,
    pub namespace: Seq<ExternalView>,
}

/// The address of a symbol defined at `offset` in the section `header`:
/// the section is the data section, the read-only data section or the code
/// section, tried in this order, and the symbol lies at its offset in the
/// page of that section.
pub open spec fn defined_address(scope: Scope, header: SectionHeader, offset: int) -> Result<
    u64,
    LoadError,
> {
    if scope.data is Some && scope.data->Some_0.header == header {
        Ok(address_at(scope.data->Some_0.base, offset))
    } else if scope.rodata is Some && scope.rodata->Some_0.header == header {
        Ok(address_at(scope.rodata->Some_0.base, offset))
    } else if scope.text.header == header {
        Ok(address_at(scope.text.base, offset))
    } else {
        Err(LoadError::UnsupportedSection)
    }
}

/// The address of an undefined symbol called `name`: the one that the
/// namespace gives for the name, which is not zero.
pub open spec fn external_address(namespace: Seq<ExternalView>, name: Seq<u8>) -> Result<
    u64,
    LoadError,
> {
    match address_of(namespace, name) {
        Some(address) if address != 0 => Ok(address),
        _ => Err(LoadError::UnresolvedSymbol),
    }
}

/// The address of the symbol with index `sym_idx`. The symbol, its section
/// and its name have to be in the tables of the object.
#[verifier::opaque]
pub open spec fn resolved(scope: Scope, sym_idx: u32) -> Result<u64, LoadError> {
    if sym_idx >= scope.symbols.len() {
        Err(LoadError::BadSymbol)
    } else {
        let symbol = scope.symbols[sym_idx as int];
        if symbol.entry.st_shndx >= scope.sections.len() || symbol.raw_name is None {
            Err(LoadError::BadSymbol)
        } else if symbol.is_undefined() {
            external_address(scope.namespace, symbol.raw_name->Some_0)
        } else {
            defined_address(
                scope,
                scope.sections[symbol.entry.st_shndx as int],
                symbol.entry.st_value as int,
            )
        }
    }
}

/// Whether the engine applies relocations with this tag.
pub open spec fn is_supported(r_type: u32) -> bool {
    ||| r_type == R_X86_64_64
    ||| r_type == R_X86_64_PC32
    ||| r_type == R_X86_64_PLT32
    ||| r_type == R_X86_64_32
    ||| r_type == R_X86_64_32S
}

/// The bytes that the relocation puts at its patch site.
///
/// With `target` for the address of the symbol plus the addend: a 64-bit
/// absolute relocation writes `target`; a relocation relative to the patch
/// site writes the low 32 bits of `target` minus the address of the site; a
/// 32-bit absolute relocation writes the low 32 bits of `target`, which
/// have to stand for all of it.
#[verifier::opaque]
pub open spec fn patch_of(scope: Scope, record: RelocRecord) -> Result<Seq<u8>, LoadError> {
    if !is_supported(record.r_type) {
        Err(LoadError::UnsupportedRelocation)
    } else {
        match resolved(scope, record.r_sym) {
            Err(e) => Err(e),
            Ok(address) => {
                let target = spec_apply_addend(address, record.r_addend);
                if record.r_type == R_X86_64_64 {
                    Ok(le_bytes_64(target))
                } else if record.r_type == R_X86_64_PC32 || record.r_type == R_X86_64_PLT32 {
                    Ok(le_bytes_32(pc_relative(target as int, scope.text.base + record.r_offset)))
                } else if fits_32(target, record.r_type == R_X86_64_32S) {
                    Ok(le_bytes_32(low_half(target)))
                } else {
                    Err(LoadError::RelocationOverflow)
                }
            },
        }
    }
}

/// The code image after the relocation is applied to `image`: its patch
/// written at its site, which has to lie within the image.
pub open spec fn applied(scope: Scope, image: Seq<u8>, record: RelocRecord) -> Result<
    Seq<u8>,
    LoadError,
> {
    match patch_of(scope, record) {
        Err(e) => Err(e),
        Ok(patch) => if record.r_offset + patch.len() <= image.len() {
            Ok(overwrite(image, record.r_offset as int, patch))
        } else {
            Err(LoadError::BadPatchSite)
        },
    }
}

/// The code image after the relocations are applied to `image`, one after
/// the other. The first one that fails ends it.
pub open spec fn relocated(scope: Scope, image: Seq<u8>, records: Seq<RelocRecord>) -> Result<
    Seq<u8>,
    LoadError,
>
    decreases records.len(),
{
    if records.len() == 0 {
        Ok(image)
    } else {
        match relocated(scope, image, records.drop_last()) {
            Err(e) => Err(e),
            Ok(earlier) => applied(scope, earlier, records.last()),
        }
    }
}

/// Whether relocation stopped at the relocation with index `n`: those
/// before it made `image` into `partial`, and it fails on `partial`.
pub open spec fn stopped_at(
    scope: Scope,
    image: Seq<u8>,
    records: Seq<RelocRecord>,
    n: int,
    partial: Seq<u8>,
) -> bool {
    &&& relocated(scope, image, records.take(n)) == Ok::<Seq<u8>, LoadError>(partial)
    &&& applied(scope, partial, records[n]) is Err
}

/// A section of the object with the page that is given for it, if there
/// are both.
pub open spec fn loaded_of(section: Option<Section>, page: Option<&Page>) -> Option<Loaded> {
    match (section, page) {
        (Some(section), Some(page)) => Some(Loaded { header: section.header, base: page@.base }),
        _ => None,
    }
}

/// Pairs a section of the object with the page that is given for it.
fn loaded(section: &Option<Section>, page: Option<&Page>) -> (r: Option<Loaded>)
    ensures
        r == loaded_of(*section, page),
{
    match (section, page) {
        (Some(section), Some(page)) => Some(
            Loaded { header: section.header, base: page.as_ptr() },
        ),
        _ => None,
    }
}

/// Looks an undefined symbol up in the namespace.
fn resolve_external(namespace: &Vec<External>, name: &[u8]) -> (r: Result<u64, LoadError>)
    ensures
        r == external_address(view_namespace(namespace@), name@),
{
    match lookup(namespace, name) {
        Some(address) => if address != 0 {
            Ok(address)
        } else {
            Err(LoadError::UnresolvedSymbol)
        },
        None => Err(LoadError::UnresolvedSymbol),
    }
}

/// The relocation of one module: the object, the pages that its sections
/// are loaded in, and the host's namespace. The code page is patched in
/// place.
pub struct ComputeRelocation<'a> {
    pub object: &'a Object,
    pub data: Option<&'a Page>,
    pub rodata: Option<&'a Page>,
    pub text_page: Page,
    pub namespace: &'a Vec<External>,
}

impl<'a> ComputeRelocation<'a> {
    /// What relocation reads here. A section counts as loaded where the
    /// object has it and a page is given for it.
    pub open spec fn scope(&self) -> Scope {
        Scope {
            sections: self.object.sections@,
            symbols: view_symbols(self.object.symbols@),
            text: Loaded { header: self.object.text.header, base: self.text_page@.base },
            data: loaded_of(self.object.data, self.data),
            rodata: loaded_of(self.object.rodata, self.rodata),
            namespace: view_namespace(self.namespace@),
        }
    }

    /// The relocations of the code section, in the order in which they
    /// apply.
    pub open spec fn records(&self) -> Seq<RelocRecord> {
        records_of(self.object.relas@, self.object.rels@)
    }

    /// The address of a symbol defined at `offset` in the section
    /// `header`.
    fn resolve_defined(&self, header: SectionHeader, offset: u64) -> (r: Result<u64, LoadError>)
        ensures
            r == defined_address(self.scope(), header, offset as int),
    {
        let data = loaded(&self.object.data, self.data);
        let rodata = loaded(&self.object.rodata, self.rodata);
        if data.is_some() && data.unwrap().header == header {
            Ok(data.unwrap().base.wrapping_add(offset))
        } else if rodata.is_some() && rodata.unwrap().header == header {
            Ok(rodata.unwrap().base.wrapping_add(offset))
        } else if self.object.text.header == header {
            Ok(self.text_page.as_ptr().wrapping_add(offset))
        } else {
            Err(LoadError::UnsupportedSection)
        }
    }

    /// The address of the symbol with index `sym_idx`.
    pub fn resolve_one_symbol(&self, sym_idx: u32) -> (r: Result<u64, LoadError>)
        ensures
            r == resolved(self.scope(), sym_idx),
    {
        reveal(resolved);
        if sym_idx as usize >= self.object.symbols.len() {
            return Err(LoadError::BadSymbol);
        }
        let target_sym = &self.object.symbols[sym_idx as usize];
        let target_sym_section_idx = target_sym.entry.st_shndx as usize;
        if target_sym_section_idx >= self.object.sections.len() {
            return Err(LoadError::BadSymbol);
        }
        let target_sym_section_hdr = self.object.sections[target_sym_section_idx];
        let Some(sym_name) = &target_sym.raw_name else {
            return Err(LoadError::BadSymbol);
        };
        if !target_sym.is_undefined() {
            self.resolve_defined(target_sym_section_hdr, target_sym.entry.st_value)
        } else {
            resolve_external(self.namespace, sym_name.as_slice())
        }
    }

    /// The relocations of the code section, in the order in which they
    /// apply.
    fn collect_records(&self) -> (records: Vec<RelocRecord>)
        ensures
            records@ == self.records(),
    {
        let mut records: Vec<RelocRecord> = Vec::new();
        let mut i: usize = 0;
        while i < self.object.relas.len()
            invariant
                i <= self.object.relas@.len(),
                records@.len() == i,
                forall|k: int| 0 <= k < i ==> records@[k] == record_of_rela(self.object.relas@[k]),
            decreases self.object.relas@.len() - i,
        {
            records.push(RelocRecord::from(self.object.relas[i]));
            i = i + 1;
        }
        let mut j: usize = 0;
        while j < self.object.rels.len()
            invariant
                j <= self.object.rels@.len(),
                records@.len() == self.object.relas@.len() + j,
                forall|k: int|
                    0 <= k < self.object.relas@.len() ==> records@[k] == record_of_rela(
                        self.object.relas@[k],
                    ),
                forall|k: int|
                    0 <= k < j ==> records@[self.object.relas@.len() + k] == record_of_rel(
                        self.object.rels@[k],
                    ),
            decreases self.object.rels@.len() - j,
        {
            records.push(RelocRecord::from(self.object.rels[j]));
            j = j + 1;
        }
        records
    }

    /// Whether a patch of `width` bytes at `r_offset` lies within the code
    /// page.
    fn site_in_page(&self, r_offset: u64, width: usize) -> (inside: bool)
        ensures
            inside == (r_offset + width <= self.text_page@.bytes.len()),
    {
        let size = self.text_page.size();
        width <= size && r_offset <= (size - width) as u64
    }

    /// Resolves one relocation and patches the code page with it. A
    /// relocation that fails leaves the page as it was.
    pub fn apply_one(&mut self, record: RelocRecord) -> (r: Result<(), LoadError>)
        requires
            old(self).text_page@.protection == Protection::ReadWrite,
        ensures
            final(self).object == old(self).object,
            final(self).data == old(self).data,
            final(self).rodata == old(self).rodata,
            final(self).namespace == old(self).namespace,
            match applied(old(self).scope(), old(self).text_page@.bytes, record) {
                Ok(image) => r is Ok && final(self).text_page@ == (PageView {
                    bytes: image,
                    ..old(self).text_page@
                }),
                Err(e) => r == Err::<(), LoadError>(e) && final(self).text_page@ == old(
                    self,
                ).text_page@,
            },
    {
        reveal(patch_of);
        if record.r_type == R_X86_64_64 {
            let address = self.resolve_one_symbol(record.r_sym)?;
            let applicator = X6464Applicator::new(record.r_offset, address, record.r_addend);
            if !self.site_in_page(record.r_offset, 8) {
                return Err(LoadError::BadPatchSite);
            }
            applicator.apply_on_page(&mut self.text_page);
            Ok(())
        } else if record.r_type == R_X86_64_PC32 || record.r_type == R_X86_64_PLT32 {
            let address = self.resolve_one_symbol(record.r_sym)?;
            let applicator = X64PC32Applicator::new(record.r_offset, address, record.r_addend);
            if !self.site_in_page(record.r_offset, 4) {
                return Err(LoadError::BadPatchSite);
            }
            proof {
                let target = spec_apply_addend(address, record.r_addend);
                let site = self.text_page@.base + record.r_offset;
                lemma_low_half_wraps(target - site, -1);
            }
            applicator.apply_on_page(&mut self.text_page);
            Ok(())
        } else if record.r_type == R_X86_64_32 || record.r_type == R_X86_64_32S {
            let address = self.resolve_one_symbol(record.r_sym)?;
            let applicator = X6432Applicator::try_new(
                record.r_offset,
                address,
                record.r_addend,
                record.r_type == R_X86_64_32S,
            )?;
            if !self.site_in_page(record.r_offset, 4) {
                return Err(LoadError::BadPatchSite);
            }
            applicator.apply_on_page(&mut self.text_page);
            Ok(())
        } else {
            Err(LoadError::UnsupportedRelocation)
        }
    }

    /// Applies the relocations of the code section to the code page, in
    /// their order. The first one that fails ends it; the page then holds
    /// the patches of those before it, and is of no use.
    pub fn apply_all_relocations(&mut self) -> (r: Result<(), LoadError>)
        requires
            old(self).text_page@.protection == Protection::ReadWrite,
        ensures
            final(self).object == old(self).object,
            final(self).data == old(self).data,
            final(self).rodata == old(self).rodata,
            final(self).namespace == old(self).namespace,
            final(self).text_page@.base == old(self).text_page@.base,
            final(self).text_page@.paged == old(self).text_page@.paged,
            final(self).text_page@.protection == old(self).text_page@.protection,
            final(self).text_page@.bytes.len() == old(self).text_page@.bytes.len(),
            match relocated(old(self).scope(), old(self).text_page@.bytes, old(self).records()) {
                Ok(image) => r is Ok && final(self).text_page@.bytes == image,
                Err(e) => r == Err::<(), LoadError>(e) && exists|n: int|
                    0 <= n < old(self).records().len() && stopped_at(
                        old(self).scope(),
                        old(self).text_page@.bytes,
                        old(self).records(),
                        n,
                        final(self).text_page@.bytes,
                    ),
            },
    {
        let records = self.collect_records();
        let ghost scope = self.scope();
        let ghost image = self.text_page@.bytes;
        let mut i: usize = 0;
        while i < records.len()
            invariant
                i <= records@.len(),
                records@ == old(self).records(),
                scope == old(self).scope(),
                scope == self.scope(),
                image == old(self).text_page@.bytes,
                old(self).text_page@.protection == Protection::ReadWrite,
                self.object == old(self).object,
                self.data == old(self).data,
                self.rodata == old(self).rodata,
                self.namespace == old(self).namespace,
                self.text_page@.base == old(self).text_page@.base,
                self.text_page@.paged == old(self).text_page@.paged,
                self.text_page@.protection == Protection::ReadWrite,
                self.text_page@.bytes.len() == image.len(),
                relocated(scope, image, records@.take(i as int)) == Ok::<Seq<u8>, LoadError>(
                    self.text_page@.bytes,
                ),
            decreases records@.len() - i,
        {
            let outcome = self.apply_one(records[i]);
            proof {
                assert(records@.take(i + 1).drop_last() =~= records@.take(i as int));
            }
            match outcome {
                Ok(()) => {},
                Err(e) => {
                    proof {
                        lemma_failure_stays(scope, image, records@, i + 1);
                        assert(stopped_at(scope, image, records@, i as int, self.text_page@.bytes));
                    }
                    return Err(e);
                },
            }
            i = i + 1;
        }
        assert(records@.take(i as int) =~= records@);
        Ok(())
    }
}

/// Once the first `n` relocations have failed, all of them have.
pub proof fn lemma_failure_stays(scope: Scope, image: Seq<u8>, records: Seq<RelocRecord>, n: int)
    requires
        0 <= n <= records.len(),
        relocated(scope, image, records.take(n)) is Err,
    ensures
        relocated(scope, image, records) == relocated(scope, image, records.take(n)),
    decreases records.len() - n,
{
    if n < records.len() {
        assert(records.take(n + 1).drop_last() =~= records.take(n));
        lemma_failure_stays(scope, image, records, n + 1);
    } else {
        assert(records.take(n) =~= records);
    }
}

/// What each kind of relocation writes, for a symbol at `address`. With
/// `address + r_addend` taken in the address space of 64 bits:
/// the 64-bit absolute kind writes that sum in eight bytes; the two kinds
/// relative to the patch site write, in four bytes, the low 32 bits of the
/// sum minus the address of the site; the zero-extended 32-bit kind writes
/// the sum in four bytes and fails unless the sum is below two to the power
/// 32; the sign-extended 32-bit kind writes the low 32 bits of the sum and
/// fails unless the sum, read as a signed number, lies within 32 bits.
pub proof fn lemma_patch_formula(scope: Scope, record: RelocRecord, address: u64)
    requires
        resolved(scope, record.r_sym) == Ok::<u64, LoadError>(address),
    ensures
        record.r_type == R_X86_64_64 ==> patch_of(scope, record) == Ok::<Seq<u8>, LoadError>(
            le_bytes_64(((address + record.r_addend) % 0x1_0000_0000_0000_0000) as u64),
        ),
        record.r_type == R_X86_64_PC32 || record.r_type == R_X86_64_PLT32 ==> patch_of(
            scope,
            record,
        ) == Ok::<Seq<u8>, LoadError>(
            le_bytes_32(
                ((address + record.r_addend - (scope.text.base + record.r_offset))
                    % 0x1_0000_0000) as u32,
            ),
        ),
        record.r_type == R_X86_64_32 ==> patch_of(scope, record) == if (address + record.r_addend)
            % 0x1_0000_0000_0000_0000 < 0x1_0000_0000 {
            Ok::<Seq<u8>, LoadError>(
                le_bytes_32(((address + record.r_addend) % 0x1_0000_0000_0000_0000) as u32),
            )
        } else {
            Err::<Seq<u8>, LoadError>(LoadError::RelocationOverflow)
        },
        record.r_type == R_X86_64_32S ==> patch_of(scope, record) == if (address + record.r_addend)
            % 0x1_0000_0000_0000_0000 < 0x8000_0000 || (address + record.r_addend)
            % 0x1_0000_0000_0000_0000 >= 0xffff_ffff_8000_0000 {
            Ok::<Seq<u8>, LoadError>(
                le_bytes_32(((address + record.r_addend) % 0x1_0000_0000) as u32),
            )
        } else {
            Err::<Seq<u8>, LoadError>(LoadError::RelocationOverflow)
        },
{
    reveal(patch_of);
    let sum = address + record.r_addend;
    let target = spec_apply_addend(address, record.r_addend);
    let turns = -(sum / 0x1_0000_0000_0000_0000);
    assert(target == sum + turns * 0x1_0000_0000_0000_0000);
    lemma_low_half_wraps(sum, turns);
    lemma_low_half_wraps(sum - (scope.text.base + record.r_offset), turns);
}

/// Where the relocations of a code section all apply, each of them has a
/// patch.
pub proof fn lemma_every_patch_applies(
    scope: Scope,
    image: Seq<u8>,
    records: Seq<RelocRecord>,
    i: int,
)
    requires
        relocated(scope, image, records) is Ok,
        0 <= i < records.len(),
    ensures
        patch_of(scope, records[i]) is Ok,
    decreases records.len(),
{
    if i < records.len() - 1 {
        lemma_every_patch_applies(scope, image, records.drop_last(), i);
    }
}

/// No 32-bit absolute relocation is cut short in silence: where the
/// relocations of a code section all apply, the target of each 32-bit
/// absolute one is what the processor makes of the four bytes written.
pub proof fn lemma_no_silent_truncation(
    scope: Scope,
    image: Seq<u8>,
    records: Seq<RelocRecord>,
    i: int,
)
    requires
        relocated(scope, image, records) is Ok,
        0 <= i < records.len(),
        records[i].r_type == R_X86_64_32 || records[i].r_type == R_X86_64_32S,
    ensures
        resolved(scope, records[i].r_sym) is Ok,
        fits_32(
            spec_apply_addend(resolved(scope, records[i].r_sym)->Ok_0, records[i].r_addend),
            records[i].r_type == R_X86_64_32S,
        ),
        patch_of(scope, records[i]) == Ok::<Seq<u8>, LoadError>(
            le_bytes_32(
                low_half(
                    spec_apply_addend(
                        resolved(scope, records[i].r_sym)->Ok_0,
                        records[i].r_addend,
                    ),
                ),
            ),
        ),
        extend_32(
            low_half(
                spec_apply_addend(resolved(scope, records[i].r_sym)->Ok_0, records[i].r_addend),
            ),
            records[i].r_type == R_X86_64_32S,
        ) == spec_apply_addend(resolved(scope, records[i].r_sym)->Ok_0, records[i].r_addend),
{
    lemma_every_patch_applies(scope, image, records, i);
    let target = spec_apply_addend(resolved(scope, records[i].r_sym)->Ok_0, records[i].r_addend);
    assert(resolved(scope, records[i].r_sym) is Ok && fits_32(
        target,
        records[i].r_type == R_X86_64_32S,
    ) && patch_of(scope, records[i]) == Ok::<Seq<u8>, LoadError>(le_bytes_32(low_half(target))))
        by {
        reveal(patch_of);
    }
    lemma_fitting_target_extends(target, records[i].r_type == R_X86_64_32S);
}

/// The number of bytes that a relocation with this tag patches.
pub open spec fn width_of(r_type: u32) -> nat {
    if r_type == R_X86_64_64 {
        8
    } else {
        4
    }
}

/// Whether the patch sites of two relocations have no byte in common.
pub open spec fn disjoint_sites(a: RelocRecord, b: RelocRecord) -> bool {
    a.r_offset + width_of(a.r_type) <= b.r_offset || b.r_offset + width_of(b.r_type)
        <= a.r_offset
}

/// A patch has the width of its kind.
pub proof fn lemma_patch_width(scope: Scope, record: RelocRecord)
    requires
        patch_of(scope, record) is Ok,
    ensures
        patch_of(scope, record)->Ok_0.len() == width_of(record.r_type),
{
    reveal(patch_of);
}

/// What is read back from a patch site after the load is the patch of its
/// relocation, provided that no later relocation patches a byte of the
/// same site.
pub proof fn lemma_patch_is_read_back(
    scope: Scope,
    image: Seq<u8>,
    records: Seq<RelocRecord>,
    i: int,
)
    requires
        relocated(scope, image, records) is Ok,
        0 <= i < records.len(),
        forall|j: int| i < j < records.len() ==> disjoint_sites(records[i], #[trigger] records[j]),
    ensures
        patch_of(scope, records[i]) is Ok,
        records[i].r_offset + width_of(records[i].r_type) <= image.len(),
        relocated(scope, image, records)->Ok_0.len() == image.len(),
        relocated(scope, image, records)->Ok_0.subrange(
            records[i].r_offset as int,
            records[i].r_offset + width_of(records[i].r_type),
        ) == patch_of(scope, records[i])->Ok_0,
    decreases records.len(),
{
    lemma_relocated_length(scope, image, records);
    lemma_relocated_length(scope, image, records.drop_last());
    lemma_patch_width(scope, records.last());
    if i < records.len() - 1 {
        lemma_patch_is_read_back(scope, image, records.drop_last(), i);
    }
}

/// Relocation does not change the size of the code image.
pub proof fn lemma_relocated_length(scope: Scope, image: Seq<u8>, records: Seq<RelocRecord>)
    requires
        relocated(scope, image, records) is Ok,
    ensures
        relocated(scope, image, records)->Ok_0.len() == image.len(),
    decreases records.len(),
{
    if records.len() > 0 {
        lemma_relocated_length(scope, image, records.drop_last());
    }
}

/// A byte of the code section that lies in no patch site is loaded as the
/// object has it.
pub proof fn lemma_unpatched_byte(
    scope: Scope,
    image: Seq<u8>,
    records: Seq<RelocRecord>,
    at: int,
)
    requires
        relocated(scope, image, records) is Ok,
        0 <= at < image.len(),
        forall|j: int|
            0 <= j < records.len() ==> !((#[trigger] records[j]).r_offset <= at
                < records[j].r_offset + width_of(records[j].r_type)),
    ensures
        relocated(scope, image, records)->Ok_0[at] == image[at],
    decreases records.len(),
{
    if records.len() > 0 {
        lemma_relocated_length(scope, image, records.drop_last());
        lemma_patch_width(scope, records.last());
        lemma_unpatched_byte(scope, image, records.drop_last(), at);
    }
}

/// The order of two relocations does not matter where their patch sites
/// have no byte in common and both apply.
pub proof fn lemma_disjoint_patches_commute(
    scope: Scope,
    image: Seq<u8>,
    a: RelocRecord,
    b: RelocRecord,
)
    requires
        disjoint_sites(a, b),
        applied(scope, image, a) is Ok,
        applied(scope, image, b) is Ok,
    ensures
        applied(scope, applied(scope, image, a)->Ok_0, b) is Ok,
        applied(scope, applied(scope, image, b)->Ok_0, a) is Ok,
        applied(scope, applied(scope, image, a)->Ok_0, b) == applied(
            scope,
            applied(scope, image, b)->Ok_0,
            a,
        ),
{
    lemma_patch_width(scope, a);
    lemma_patch_width(scope, b);
    assert(applied(scope, applied(scope, image, a)->Ok_0, b)->Ok_0 =~= applied(
        scope,
        applied(scope, image, b)->Ok_0,
        a,
    )->Ok_0);
}

} // verus!
