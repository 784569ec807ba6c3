//! The object reader: what the loader needs from a relocatable object.
//!
//! The object is taken apart by the `elf` crate. This file states what the
//! loader believes of that crate, and builds from its answers a value that
//! the rest of the library reads without going back to the bytes.
use vstd::prelude::*;
use vstd::slice::{slice_subrange, slice_to_vec};
use crate::error::LoadError;
use crate::page::PageRequest;
use elf::endian::AnyEndian;
use elf::parse::ParseError;
use elf::ElfBytes;

verus! {

/// The section index of an undefined symbol.
pub const SHN_UNDEF: u16 = 0;

/// The visibility of a symbol that other modules may refer to.
pub const STV_DEFAULT: u8 = 0;

/// A section header, field for field as the object holds it.
#[derive(Debug, Clone, Copy, PartialEq, Eq, Structural)]
pub struct SectionHeader {
    pub sh_name: u32,
    pub sh_type: u32,
    pub sh_flags: u64,
    pub sh_addr: u64,
    pub sh_offset: u64,
    pub sh_size: u64,
    pub sh_link: u32,
    pub sh_info: u32,
    pub sh_addralign: u64,
    pub sh_entsize: u64,
}

/// What the loader reads of an entry of the symbol table.
#[derive(Debug, Clone, Copy, PartialEq, Eq, Structural)]
pub struct SymbolEntry {
    /// Where the name starts in the string table; zero for no name.
    pub st_name: u32,
    /// The index of the section that defines the symbol.
    pub st_shndx: u16,
    /// The visibility of the symbol.
    pub st_vis: u8,
    /// The offset of the symbol within its section.
    pub st_value: u64,
}

/// A relocation that carries its addend.
#[derive(Debug, Clone, Copy, PartialEq, Eq, Structural)]
pub struct Rela {
    pub r_offset: u64,
    pub r_sym: u32,
    pub r_type: u32,
    pub r_addend: i64,
}

/// A relocation without an addend.
#[derive(Debug, Clone, Copy, PartialEq, Eq, Structural)]
pub struct Rel {
    pub r_offset: u64,
    pub r_sym: u32,
    pub r_type: u32,
}

/// The failure of the outside parser. The loader reads nothing from it.
#[verifier::external_type_specification]
#[verifier::external_body]
pub struct ExParseError(ParseError);

/// The header of the section called `name` in the object `bytes`: the outer
/// `None` where the parser fails, the inner `None` where no section has
/// that name.
pub uninterp spec fn elf_section_header_by_name(bytes: Seq<u8>, name: Seq<char>) -> Option<
    Option<SectionHeader>,
>;

/// The section header table of the object `bytes`, in the order of the
/// table: the outer `None` where the parser fails, the inner `None` where
/// the object has no such table.
pub uninterp spec fn elf_section_headers(bytes: Seq<u8>) -> Option<Option<Seq<SectionHeader>>>;

/// The entries of the static symbol table of the object `bytes`, in the
/// order of the table: the outer `None` where the parser fails, the inner
/// `None` where the object has no such table.
pub uninterp spec fn elf_symbols(bytes: Seq<u8>) -> Option<Option<Seq<SymbolEntry>>>;

/// The string that starts at `index` in the string table of the static
/// symbol table of the object `bytes`: the outer `None` where the parser
/// fails or the string is not valid UTF-8, the inner `None` where the object
/// has no such string table.
pub uninterp spec fn elf_symbol_name(bytes: Seq<u8>, index: u32) -> Option<Option<Seq<char>>>;

/// The bytes of the string that starts at `index` in the string table of
/// the static symbol table of the object `bytes`: the outer `None` where the
/// parser fails, the inner `None` where the object has no such string table.
pub uninterp spec fn elf_symbol_name_raw(bytes: Seq<u8>, index: u32) -> Option<Option<Seq<u8>>>;

/// The relocations with addends that the section `header` of the object
/// `bytes` holds, in their order: `None` where the parser fails.
pub uninterp spec fn elf_relas(bytes: Seq<u8>, header: SectionHeader) -> Option<Seq<Rela>>;

/// The relocations without addends that the section `header` of the object
/// `bytes` holds, in their order: `None` where the parser fails.
pub uninterp spec fn elf_rels(bytes: Seq<u8>, header: SectionHeader) -> Option<Seq<Rel>>;

/// Calls `ElfBytes::section_header_by_name` on the object that
/// `ElfBytes::minimal_parse` makes of `bytes`. The result depends on `bytes`
/// and `name` alone; nothing more is claimed of it.
#[verifier::external_body]
fn section_header_by_name(bytes: &[u8], name: &str) -> (r: Result<
    Option<SectionHeader>,
    ParseError,
>)
    ensures
        r.ok() == elf_section_header_by_name(bytes@, name@),
{
    let file = ElfBytes::<AnyEndian>::minimal_parse(bytes)?;
    Ok(file.section_header_by_name(name)?.map(|h| SectionHeader {
        sh_name: h.sh_name, sh_type: h.sh_type, sh_flags: h.sh_flags,
        sh_addr: h.sh_addr, sh_offset: h.sh_offset, sh_size: h.sh_size,
        sh_link: h.sh_link, sh_info: h.sh_info,
        sh_addralign: h.sh_addralign, sh_entsize: h.sh_entsize,
    }))
}

/// Calls `ElfBytes::section_headers` on the object that
/// `ElfBytes::minimal_parse` makes of `bytes`, and walks the table it
/// returns. The result depends on `bytes` alone; nothing more is claimed.
#[verifier::external_body]
fn section_headers(bytes: &[u8]) -> (r: Result<Option<Vec<SectionHeader>>, ParseError>)
    ensures
        match r {
            Ok(Some(v)) => elf_section_headers(bytes@) == Some(Some(v@)),
            Ok(None) => elf_section_headers(bytes@) == Some(None::<Seq<SectionHeader>>),
            Err(_) => elf_section_headers(bytes@) is None,
        },
{
    let file = ElfBytes::<AnyEndian>::minimal_parse(bytes)?;
    Ok(file.section_headers().map(|table| table.iter().map(|h| SectionHeader {
        sh_name: h.sh_name, sh_type: h.sh_type, sh_flags: h.sh_flags,
        sh_addr: h.sh_addr, sh_offset: h.sh_offset, sh_size: h.sh_size,
        sh_link: h.sh_link, sh_info: h.sh_info,
        sh_addralign: h.sh_addralign, sh_entsize: h.sh_entsize,
    }).collect()))
}

/// Calls `ElfBytes::find_common_data` on the object that
/// `ElfBytes::minimal_parse` makes of `bytes`, and walks the static symbol
/// table it found; the visibility of an entry is what `Symbol::st_vis`
/// gives. The result depends on `bytes` alone; nothing more is claimed.
#[verifier::external_body]
fn symbols(bytes: &[u8]) -> (r: Result<Option<Vec<SymbolEntry>>, ParseError>)
    ensures
        match r {
            Ok(Some(v)) => elf_symbols(bytes@) == Some(Some(v@)),
            Ok(None) => elf_symbols(bytes@) == Some(None::<Seq<SymbolEntry>>),
            Err(_) => elf_symbols(bytes@) is None,
        },
{
    let file = ElfBytes::<AnyEndian>::minimal_parse(bytes)?;
    let common = file.find_common_data()?;
    Ok(common.symtab.map(|table| table.iter().map(|s| SymbolEntry {
        st_name: s.st_name,
        st_shndx: s.st_shndx,
        st_vis: s.st_vis(),
        st_value: s.st_value,
    }).collect()))
}

/// Calls `StringTable::get` on the string table that
/// `ElfBytes::find_common_data` found for the static symbol table of
/// `bytes`. The result depends on `bytes` and `index` alone; nothing more is
/// claimed.
#[verifier::external_body]
fn symbol_name(bytes: &[u8], index: u32) -> (r: Result<Option<String>, ParseError>)
    ensures
        match r {
            Ok(Some(s)) => elf_symbol_name(bytes@, index) == Some(Some(s@)),
            Ok(None) => elf_symbol_name(bytes@, index) == Some(None::<Seq<char>>),
            Err(_) => elf_symbol_name(bytes@, index) is None,
        },
{
    let file = ElfBytes::<AnyEndian>::minimal_parse(bytes)?;
    let common = file.find_common_data()?;
    let strings = common.symtab_strs;
    strings.map(|table| table.get(index as usize).map(str::to_string)).transpose()
}

/// Calls `StringTable::get_raw` on the string table that
/// `ElfBytes::find_common_data` found for the static symbol table of
/// `bytes`. The result depends on `bytes` and `index` alone; nothing more is
/// claimed.
#[verifier::external_body]
fn symbol_name_raw(bytes: &[u8], index: u32) -> (r: Result<Option<Vec<u8>>, ParseError>)
    ensures
        match r {
            Ok(Some(s)) => elf_symbol_name_raw(bytes@, index) == Some(Some(s@)),
            Ok(None) => elf_symbol_name_raw(bytes@, index) == Some(None::<Seq<u8>>),
            Err(_) => elf_symbol_name_raw(bytes@, index) is None,
        },
{
    let file = ElfBytes::<AnyEndian>::minimal_parse(bytes)?;
    let common = file.find_common_data()?;
    let strings = common.symtab_strs;
    strings.map(|table| table.get_raw(index as usize).map(<[u8]>::to_vec)).transpose()
}

/// Calls `ElfBytes::section_data_as_relas` on the object that
/// `ElfBytes::minimal_parse` makes of `bytes`, and walks what it returns.
/// The result depends on `bytes` and `header` alone; nothing more is claimed.
#[verifier::external_body]
fn relas(bytes: &[u8], header: &SectionHeader) -> (r: Result<Vec<Rela>, ParseError>)
    ensures
        match r {
            Ok(v) => elf_relas(bytes@, *header) == Some(v@),
            Err(_) => elf_relas(bytes@, *header) is None,
        },
{
    let file = ElfBytes::<AnyEndian>::minimal_parse(bytes)?;
    let h = elf::section::SectionHeader {
        sh_name: header.sh_name, sh_type: header.sh_type, sh_flags: header.sh_flags,
        sh_addr: header.sh_addr, sh_offset: header.sh_offset, sh_size: header.sh_size,
        sh_link: header.sh_link, sh_info: header.sh_info,
        sh_addralign: header.sh_addralign, sh_entsize: header.sh_entsize,
    };
    Ok(file.section_data_as_relas(&h)?.map(|r| Rela {
        r_offset: r.r_offset, r_sym: r.r_sym, r_type: r.r_type, r_addend: r.r_addend,
    }).collect())
}

/// Calls `ElfBytes::section_data_as_rels` on the object that
/// `ElfBytes::minimal_parse` makes of `bytes`, and walks what it returns.
/// The result depends on `bytes` and `header` alone; nothing more is claimed.
#[verifier::external_body]
fn rels(bytes: &[u8], header: &SectionHeader) -> (r: Result<Vec<Rel>, ParseError>)
    ensures
        match r {
            Ok(v) => elf_rels(bytes@, *header) == Some(v@),
            Err(_) => elf_rels(bytes@, *header) is None,
        },
{
    let file = ElfBytes::<AnyEndian>::minimal_parse(bytes)?;
    let h = elf::section::SectionHeader {
        sh_name: header.sh_name, sh_type: header.sh_type, sh_flags: header.sh_flags,
        sh_addr: header.sh_addr, sh_offset: header.sh_offset, sh_size: header.sh_size,
        sh_link: header.sh_link, sh_info: header.sh_info,
        sh_addralign: header.sh_addralign, sh_entsize: header.sh_entsize,
    };
    Ok(file.section_data_as_rels(&h)?.map(|r| Rel {
        r_offset: r.r_offset, r_sym: r.r_sym, r_type: r.r_type,
    }).collect())
}

/// The mathematical model of a symbol.
pub struct SymbolView {
    pub entry: SymbolEntry,
    pub name: Option<Seq<char>>,
    pub raw_name: Option<Seq<u8>>,
}

/// A symbol: an entry of the symbol table with its name.
#[derive(Debug)]
pub struct Symbol {
    pub entry: SymbolEntry,
    /// The name as text; `None` where the string table does not yield one.
    pub name: Option<String>,
    /// The name as bytes; `None` where the string table does not yield one.
    pub raw_name: Option<Vec<u8>>,
}

impl View for Symbol {
    type V = SymbolView;

    open spec fn view(&self) -> SymbolView {
        SymbolView {
            entry: self.entry,
            name: match self.name {
                Some(s) => Some(s@),
                None => None,
            },
            raw_name: match self.raw_name {
                Some(s) => Some(s@),
                None => None,
            },
        }
    }
}

impl SymbolView {
    /// Whether the symbol is left for another module to define.
    pub open spec fn is_undefined(self) -> bool {
        self.entry.st_shndx == SHN_UNDEF
    }
}

impl Symbol {
    /// Whether the symbol is left for another module to define.
    pub fn is_undefined(&self) -> (b: bool)
        ensures
            b == self@.is_undefined(),
    {
        self.entry.st_shndx == SHN_UNDEF
    }
}

/// The views of the symbols of a table, in its order.
pub open spec fn view_symbols(symbols: Seq<Symbol>) -> Seq<SymbolView> {
    Seq::new(symbols.len(), |i: int| symbols[i]@)
}

/// The mathematical model of a section to load.
pub struct SectionView {
    pub header: SectionHeader,
    pub bytes: Seq<u8>,
}

/// A section to load: its header and its contents.
#[derive(Debug)]
pub struct Section {
    pub header: SectionHeader,
    pub bytes: Vec<u8>,
}

impl View for Section {
    type V = SectionView;

    open spec fn view(&self) -> SectionView {
        SectionView { header: self.header, bytes: self.bytes@ }
    }
}

/// The view of an optional section.
pub open spec fn view_section(section: Option<Section>) -> Option<SectionView> {
    match section {
        Some(s) => Some(s@),
        None => None,
    }
}

/// The mathematical model of an object.
pub struct ObjectView {
    pub sections: Seq<SectionHeader>,
    pub text: SectionView,
    pub data: Option<SectionView>,
    pub rodata: Option<SectionView>,
    pub symbols: Seq<SymbolView>,
    pub relas: Seq<Rela>,
    pub rels: Seq<Rel>,
}

/// What the loader reads from a relocatable object.
#[derive(Debug)]
pub struct Object {
    /// The section header table.
    pub sections: Vec<SectionHeader>,
    /// The code section.
    pub text: Section,
    /// The section of mutable data, if the object has one.
    pub data: Option<Section>,
    /// The section of read-only data, if the object has one.
    pub rodata: Option<Section>,
    /// The static symbol table.
    pub symbols: Vec<Symbol>,
    /// The relocations of the code section that carry an addend.
    pub relas: Vec<Rela>,
    /// The relocations of the code section that carry none.
    pub rels: Vec<Rel>,
}

impl View for Object {
    type V = ObjectView;

    open spec fn view(&self) -> ObjectView {
        ObjectView {
            sections: self.sections@,
            text: self.text@,
            data: view_section(self.data),
            rodata: view_section(self.rodata),
            symbols: view_symbols(self.symbols@),
            relas: self.relas@,
            rels: self.rels@,
        }
    }
}

/// The pages that the sections of an object are loaded in.
#[derive(Debug, Clone, Copy, PartialEq, Eq, Structural)]
pub struct Layout {
    pub text: PageRequest,
    pub data: Option<PageRequest>,
    pub rodata: Option<PageRequest>,
}

/// The names of the undefined symbols among `symbols`, in the order of the
/// table.
pub open spec fn undefined_names(symbols: Seq<SymbolView>) -> Seq<Seq<u8>>
    decreases symbols.len(),
{
    if symbols.len() == 0 {
        Seq::empty()
    } else {
        let earlier = undefined_names(symbols.drop_last());
        let symbol = symbols.last();
        if symbol.is_undefined() && symbol.raw_name is Some {
            earlier.push(symbol.raw_name->Some_0)
        } else {
            earlier
        }
    }
}

/// The views of a list of names, in its order.
pub open spec fn view_names(names: Seq<Vec<u8>>) -> Seq<Seq<u8>> {
    Seq::new(names.len(), |i: int| names[i]@)
}

impl ObjectView {
    /// The index of the code section: that of the first section header
    /// that equals the header of the code section.
    pub open spec fn text_index(self) -> Option<int> {
        self.sections.index_of_first(self.text.header)
    }

    /// The pages that the sections are loaded in. The code section and the
    /// read-only data section get mappings, because their protection
    /// changes while the module is loaded. The data section gets a plain
    /// allocation, aligned as the section asks.
    pub open spec fn layout(self) -> Layout {
        Layout {
            text: PageRequest::Mapped { size: self.text.bytes.len() as usize },
            data: match self.data {
                Some(section) => Some(
                    PageRequest::Allocated {
                        size: section.bytes.len() as usize,
                        align: section.header.sh_addralign,
                    },
                ),
                None => None,
            },
            rodata: match self.rodata {
                Some(section) => Some(PageRequest::Mapped { size: section.bytes.len() as usize }),
                None => None,
            },
        }
    }
}

/// What the parser yields of an object: the tables and headers that the
/// loader asks it for.
#[derive(Debug)]
pub struct Tables {
    /// The section header table, if the object has one.
    pub sections: Option<Vec<SectionHeader>>,
    /// The header of the section `.text`, if the object has one.
    pub text: Option<SectionHeader>,
    /// The header of the section `.data`, if the object has one.
    pub data: Option<SectionHeader>,
    /// The header of the section `.rodata`, if the object has one.
    pub rodata: Option<SectionHeader>,
    /// The static symbol table with the names, if the object has one.
    pub symbols: Option<Vec<Symbol>>,
    /// The relocations of the section `.rela.text`.
    pub relas: Vec<Rela>,
    /// The relocations of the section `.rel.text`.
    pub rels: Vec<Rel>,
}

/// The mathematical model of the tables of an object.
pub struct TablesView {
    pub sections: Option<Seq<SectionHeader>>,
    pub text: Option<SectionHeader>,
    pub data: Option<SectionHeader>,
    pub rodata: Option<SectionHeader>,
    pub symbols: Option<Seq<SymbolView>>,
    pub relas: Seq<Rela>,
    pub rels: Seq<Rel>,
}

impl View for Tables {
    type V = TablesView;

    open spec fn view(&self) -> TablesView {
        TablesView {
            sections: match self.sections {
                Some(sections) => Some(sections@),
                None => None,
            },
            text: self.text,
            data: self.data,
            rodata: self.rodata,
            symbols: match self.symbols {
                Some(symbols) => Some(view_symbols(symbols@)),
                None => None,
            },
            relas: self.relas@,
            rels: self.rels@,
        }
    }
}

/// Whether the contents of the section `header` lie within an object of
/// `len` bytes.
pub open spec fn in_object(len: nat, header: SectionHeader) -> bool {
    header.sh_offset + header.sh_size <= len
}

/// The section `header` with its contents in the object `bytes`.
pub open spec fn section_of(bytes: Seq<u8>, header: SectionHeader) -> SectionView {
    SectionView {
        header,
        bytes: bytes.subrange(
            header.sh_offset as int,
            header.sh_offset as int + header.sh_size as int,
        ),
    }
}

/// A section that may be absent, with its contents in the object `bytes`.
pub open spec fn optional_section_of(bytes: Seq<u8>, header: Option<SectionHeader>) -> Option<
    SectionView,
> {
    match header {
        Some(header) => Some(section_of(bytes, header)),
        None => None,
    }
}

impl TablesView {
    /// Why no object can be made of the tables of an object of `len`
    /// bytes, if none can. The first reason in this order counts: there is
    /// no static symbol table; there is no code section; there is no
    /// section header table; a section to load reaches beyond the end of the
    /// object.
    pub open spec fn failure(self, len: nat) -> Option<LoadError> {
        if self.symbols is None {
            Some(LoadError::MissingSymbolTable)
        } else if self.text is None {
            Some(LoadError::MissingText)
        } else if self.sections is None {
            Some(LoadError::BadObject)
        } else if !in_object(len, self.text->Some_0) || (self.data matches Some(header)
            && !in_object(len, header)) || (self.rodata matches Some(header) && !in_object(
            len,
            header,
        )) {
            Some(LoadError::BadSection)
        } else {
            None
        }
    }

    /// The object that the tables make with the bytes of the object:
    /// each section to load gets its contents, the bytes that its header
    /// points at.
    pub open spec fn object(self, bytes: Seq<u8>) -> ObjectView {
        ObjectView {
            sections: self.sections->Some_0,
            text: section_of(bytes, self.text->Some_0),
            data: optional_section_of(bytes, self.data),
            rodata: optional_section_of(bytes, self.rodata),
            symbols: self.symbols->Some_0,
            relas: self.relas,
            rels: self.rels,
        }
    }
}

/// The relocations with addends of the code section of the object `bytes`:
/// those of the section `.rela.text`, none where the object has no such
/// section, `None` where the parser fails.
pub open spec fn relas_of(bytes: Seq<u8>) -> Option<Seq<Rela>> {
    match elf_section_header_by_name(bytes, ".rela.text"@) {
        None => None,
        Some(None) => Some(Seq::empty()),
        Some(Some(header)) => elf_relas(bytes, header),
    }
}

/// The relocations without addends of the code section of the object
/// `bytes`: those of the section `.rel.text`, none where the object has no
/// such section, `None` where the parser fails.
pub open spec fn rels_of(bytes: Seq<u8>) -> Option<Seq<Rel>> {
    match elf_section_header_by_name(bytes, ".rel.text"@) {
        None => None,
        Some(None) => Some(Seq::empty()),
        Some(Some(header)) => elf_rels(bytes, header),
    }
}

/// The symbol that stands at `entry` in the symbol table of the object
/// `bytes`: the entry with the names that the string table yields for it.
pub open spec fn symbol_of(bytes: Seq<u8>, entry: SymbolEntry) -> SymbolView {
    SymbolView {
        entry,
        name: match elf_symbol_name(bytes, entry.st_name) {
            Some(Some(name)) => Some(name),
            _ => None,
        },
        raw_name: match elf_symbol_name_raw(bytes, entry.st_name) {
            Some(Some(name)) => Some(name),
            _ => None,
        },
    }
}

/// The symbols of a table with these entries in the object `bytes`.
pub open spec fn symbols_of(bytes: Seq<u8>, entries: Option<Seq<SymbolEntry>>) -> Option<
    Seq<SymbolView>,
> {
    match entries {
        Some(entries) => Some(Seq::new(entries.len(), |i: int| symbol_of(bytes, entries[i]))),
        None => None,
    }
}

/// What the parser yields of the object `bytes`: `None` where it fails on
/// one of the tables or headers that the loader asks it for.
pub open spec fn tables_of(bytes: Seq<u8>) -> Option<TablesView> {
    if elf_section_header_by_name(bytes, ".data"@) is None || elf_section_header_by_name(
        bytes,
        ".rodata"@,
    ) is None || elf_symbols(bytes) is None || elf_section_header_by_name(bytes, ".text"@) is None
        || elf_section_headers(bytes) is None || relas_of(bytes) is None || rels_of(bytes)
        is None {
        None
    } else {
        Some(
            TablesView {
                sections: elf_section_headers(bytes)->Some_0,
                text: elf_section_header_by_name(bytes, ".text"@)->Some_0,
                data: elf_section_header_by_name(bytes, ".data"@)->Some_0,
                rodata: elf_section_header_by_name(bytes, ".rodata"@)->Some_0,
                symbols: symbols_of(bytes, elf_symbols(bytes)->Some_0),
                relas: relas_of(bytes)->Some_0,
                rels: rels_of(bytes)->Some_0,
            },
        )
    }
}

/// Why the object `bytes` cannot be read, if it cannot: the parser fails,
/// or no object can be made of the tables that it yields.
pub open spec fn read_failure(bytes: Seq<u8>) -> Option<LoadError> {
    match tables_of(bytes) {
        None => Some(LoadError::BadObject),
        Some(tables) => tables.failure(bytes.len()),
    }
}

/// What the reader makes of the object `bytes`, where it can be read.
pub open spec fn object_of(bytes: Seq<u8>) -> ObjectView {
    tables_of(bytes)->Some_0.object(bytes)
}

/// Looks a section up by its name.
fn find_section(bytes: &[u8], name: &str) -> (r: Result<Option<SectionHeader>, LoadError>)
    ensures
        match r {
            Ok(found) => elf_section_header_by_name(bytes@, name@) == Some(found),
            Err(e) => elf_section_header_by_name(bytes@, name@) is None && e
                == LoadError::BadObject,
        },
{
    match section_header_by_name(bytes, name) {
        Ok(found) => Ok(found),
        Err(_) => Err(LoadError::BadObject),
    }
}

/// Reads the relocations with addends of the code section.
fn read_relas(bytes: &[u8]) -> (r: Result<Vec<Rela>, LoadError>)
    ensures
        match r {
            Ok(v) => relas_of(bytes@) == Some(v@),
            Err(e) => relas_of(bytes@) is None && e == LoadError::BadObject,
        },
{
    match find_section(bytes, ".rela.text")? {
        None => Ok(Vec::new()),
        Some(header) => match relas(bytes, &header) {
            Ok(v) => Ok(v),
            Err(_) => Err(LoadError::BadObject),
        },
    }
}

/// Reads the relocations without addends of the code section.
fn read_rels(bytes: &[u8]) -> (r: Result<Vec<Rel>, LoadError>)
    ensures
        match r {
            Ok(v) => rels_of(bytes@) == Some(v@),
            Err(e) => rels_of(bytes@) is None && e == LoadError::BadObject,
        },
{
    match find_section(bytes, ".rel.text")? {
        None => Ok(Vec::new()),
        Some(header) => match rels(bytes, &header) {
            Ok(v) => Ok(v),
            Err(_) => Err(LoadError::BadObject),
        },
    }
}

/// Reads the names of the symbols whose entries are `entries`.
fn read_symbols(bytes: &[u8], entries: &Vec<SymbolEntry>) -> (symbols: Vec<Symbol>)
    ensures
        Some(view_symbols(symbols@)) == symbols_of(bytes@, Some(entries@)),
{
    let mut symbols: Vec<Symbol> = Vec::new();
    let mut i: usize = 0;
    while i < entries.len()
        invariant
            i <= entries@.len(),
            symbols@.len() == i,
            forall|k: int|
                0 <= k < i ==> (#[trigger] symbols@[k])@ == symbol_of(bytes@, entries@[k]),
        decreases entries@.len() - i,
    {
        let entry = entries[i];
        let name = match symbol_name(bytes, entry.st_name) {
            Ok(Some(name)) => Some(name),
            _ => None,
        };
        let raw_name = match symbol_name_raw(bytes, entry.st_name) {
            Ok(Some(name)) => Some(name),
            _ => None,
        };
        symbols.push(Symbol { entry, name, raw_name });
        i = i + 1;
    }
    symbols
}

/// Copies the contents of the section `header` out of the object.
fn read_section(bytes: &[u8], header: SectionHeader) -> (r: Result<Section, LoadError>)
    ensures
        match r {
            Ok(section) => in_object(bytes@.len(), header) && section@ == section_of(
                bytes@,
                header,
            ),
            Err(e) => !in_object(bytes@.len(), header) && e == LoadError::BadSection,
        },
{
    let len = bytes.len() as u64;
    if header.sh_offset > len || header.sh_size > len - header.sh_offset {
        return Err(LoadError::BadSection);
    }
    let start = header.sh_offset as usize;
    let end = start + header.sh_size as usize;
    Ok(Section { header, bytes: slice_to_vec(slice_subrange(bytes, start, end)) })
}

/// Copies the contents of a section that may be absent out of the object.
fn read_optional_section(bytes: &[u8], header: Option<SectionHeader>) -> (r: Result<
    Option<Section>,
    LoadError,
>)
    ensures
        match r {
            Ok(section) => !(header matches Some(h) && !in_object(bytes@.len(), h))
                && view_section(section) == optional_section_of(bytes@, header),
            Err(e) => header matches Some(h) && !in_object(bytes@.len(), h) && e
                == LoadError::BadSection,
        },
{
    match header {
        Some(header) => Ok(Some(read_section(bytes, header)?)),
        None => Ok(None),
    }
}

impl Tables {
    /// Asks the parser for the tables and headers of the object `bytes`.
    pub fn read(bytes: &[u8]) -> (r: Result<Tables, LoadError>)
        ensures
            match r {
                Ok(tables) => tables_of(bytes@) == Some(tables@),
                Err(e) => tables_of(bytes@) is None && e == LoadError::BadObject,
            },
    {
        let data = find_section(bytes, ".data")?;
        let rodata = find_section(bytes, ".rodata")?;
        let entries = match symbols(bytes) {
            Ok(entries) => entries,
            Err(_) => {
                return Err(LoadError::BadObject);
            },
        };
        let text = find_section(bytes, ".text")?;
        let sections = match section_headers(bytes) {
            Ok(sections) => sections,
            Err(_) => {
                return Err(LoadError::BadObject);
            },
        };
        let relas = read_relas(bytes)?;
        let rels = read_rels(bytes)?;
        let symbols = match entries {
            Some(entries) => Some(read_symbols(bytes, &entries)),
            None => None,
        };
        Ok(Tables { sections, text, data, rodata, symbols, relas, rels })
    }
}

impl Object {
    /// Reads from the object `bytes` what the loader needs: the section
    /// header table, the three sections to load with their contents, the
    /// static symbol table with the names, and the relocations of the code
    /// section.
    pub fn parse(bytes: &[u8]) -> (r: Result<Object, LoadError>)
        ensures
            match r {
                Ok(object) => read_failure(bytes@) is None && object@ == object_of(bytes@),
                Err(e) => read_failure(bytes@) == Some(e),
            },
    {
        let tables = Tables::read(bytes)?;
        Object::from_tables(bytes, tables)
    }

    /// Makes an object of the tables that the parser yields of `bytes`:
    /// checks that the tables that the loader cannot do without are there,
    /// and copies the contents of the sections to load out of `bytes`.
    pub fn from_tables(bytes: &[u8], tables: Tables) -> (r: Result<Object, LoadError>)
        ensures
            match r {
                Ok(object) => tables@.failure(bytes@.len()) is None && object@ == tables@.object(
                    bytes@,
                ),
                Err(e) => tables@.failure(bytes@.len()) == Some(e),
            },
    {
        let Some(symbols) = tables.symbols else {
            return Err(LoadError::MissingSymbolTable);
        };
        let Some(text) = tables.text else {
            return Err(LoadError::MissingText);
        };
        let Some(sections) = tables.sections else {
            return Err(LoadError::BadObject);
        };
        let text = read_section(bytes, text);
        let data = read_optional_section(bytes, tables.data);
        let rodata = read_optional_section(bytes, tables.rodata);
        match (text, data, rodata) {
            (Ok(text), Ok(data), Ok(rodata)) => Ok(
                Object {
                    sections,
                    text,
                    data,
                    rodata,
                    symbols,
                    relas: tables.relas,
                    rels: tables.rels,
                },
            ),
            _ => Err(LoadError::BadSection),
        }
    }

    /// The index of the code section in the section header table.
    pub fn text_index(&self) -> (index: Option<usize>)
        ensures
            match index {
                Some(i) => self@.text_index() == Some(i as int),
                None => self@.text_index() is None,
            },
    {
        let mut i: usize = 0;
        while i < self.sections.len()
            invariant
                i <= self.sections@.len(),
                forall|j: int| 0 <= j < i ==> self.sections@[j] != self.text.header,
            decreases self.sections@.len() - i,
        {
            if self.sections[i] == self.text.header {
                proof {
                    self.sections@.index_of_first_ensures(self.text.header);
                }
                return Some(i);
            }
            i = i + 1;
        }
        proof {
            self.sections@.index_of_first_ensures(self.text.header);
        }
        None
    }

    /// The pages that the host has to provide for the sections.
    pub fn layout(&self) -> (layout: Layout)
        ensures
            layout == self@.layout(),
    {
        Layout {
            text: PageRequest::Mapped { size: self.text.bytes.len() },
            data: match &self.data {
                Some(section) => Some(
                    PageRequest::Allocated {
                        size: section.bytes.len(),
                        align: section.header.sh_addralign,
                    },
                ),
                None => None,
            },
            rodata: match &self.rodata {
                Some(section) => Some(PageRequest::Mapped { size: section.bytes.len() }),
                None => None,
            },
        }
    }

    /// The names that the host has to look up in its namespace: those of
    /// the undefined symbols.
    pub fn undefined_names(&self) -> (names: Vec<Vec<u8>>)
        ensures
            view_names(names@) == undefined_names(self@.symbols),
    {
        let ghost all = self@.symbols;
        let mut names: Vec<Vec<u8>> = Vec::new();
        let mut i: usize = 0;
        while i < self.symbols.len()
            invariant
                all == self@.symbols,
                i <= self.symbols@.len(),
                view_names(names@) == undefined_names(all.take(i as int)),
            decreases self.symbols@.len() - i,
        {
            let symbol = &self.symbols[i];
            proof {
                assert(all.take(i + 1).drop_last() =~= all.take(i as int));
            }
            if symbol.is_undefined() {
                match &symbol.raw_name {
                    Some(name) => {
                        names.push(slice_to_vec(name.as_slice()));
                    },
                    None => {},
                }
            }
            i = i + 1;
        }
        assert(all.take(i as int) =~= all);
        names
    }
}

} // verus!
