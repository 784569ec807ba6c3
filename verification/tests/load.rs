use rasm::dispatch::{Call, Invocation};
use rasm::error::LoadError;
use rasm::module::{AsmFunction, Placement, X64ISA};
use rasm::object::{Object, Rel, Rela};
use rasm::page::{PageRequest, Protection};
use rasm::namespace::External;

/// A symbol of an object under construction.
struct Sym {
    name: &'static [u8],
    info: u8,
    other: u8,
    shndx: u16,
    value: u64,
}

/// An object under construction. Its sections always have these indices:
/// 1 code, 2 data, 3 read-only data, 4 symbols, 5 strings, 6 and 7
/// relocations, 8 section names. A part that is left out keeps its index
/// under another name.
struct Parts {
    text: Option<Vec<u8>>,
    data: Option<Vec<u8>>,
    rodata: Option<Vec<u8>>,
    symbols: Option<Vec<Sym>>,
    relas: Option<Vec<(u64, u32, u32, i64)>>,
    rels: Option<Vec<(u64, u32, u32)>>,
}

const TEXT: u16 = 1;
const DATA: u16 = 2;
const RODATA: u16 = 3;

const GLOBAL_FUNC: u8 = 0x12;
const GLOBAL_OBJECT: u8 = 0x11;
const GLOBAL_NOTYPE: u8 = 0x10;
const LOCAL_NOTYPE: u8 = 0x00;

const TEXT_BASE: u64 = 0x7f00_0000_1000;
const DATA_BASE: u64 = 0x5555_0000_2000;
const RODATA_BASE: u64 = 0x7f00_0000_3000;
const PLACEMENT: Placement = Placement { text: TEXT_BASE, data: DATA_BASE, rodata: RODATA_BASE };

fn sym(name: &'static [u8], info: u8, shndx: u16, value: u64) -> Sym {
    Sym { name, info, other: 0, shndx, value }
}

fn parts(text: &[u8]) -> Parts {
    Parts {
        text: Some(text.to_vec()),
        data: None,
        rodata: None,
        symbols: Some(Vec::new()),
        relas: None,
        rels: None,
    }
}

fn section_header(
    out: &mut Vec<u8>,
    name: u32,
    kind: u32,
    offset: u64,
    size: u64,
    link: u32,
    info: u32,
    align: u64,
    entsize: u64,
) {
    out.extend_from_slice(&name.to_le_bytes());
    out.extend_from_slice(&kind.to_le_bytes());
    out.extend_from_slice(&0u64.to_le_bytes());
    out.extend_from_slice(&0u64.to_le_bytes());
    out.extend_from_slice(&offset.to_le_bytes());
    out.extend_from_slice(&size.to_le_bytes());
    out.extend_from_slice(&link.to_le_bytes());
    out.extend_from_slice(&info.to_le_bytes());
    out.extend_from_slice(&align.to_le_bytes());
    out.extend_from_slice(&entsize.to_le_bytes());
}

/// The bytes of a 64-bit little-endian relocatable object with these parts.
fn build(parts: &Parts) -> Vec<u8> {
    let mut strings: Vec<u8> = vec![0];
    let mut symtab: Vec<u8> = vec![0; 24];
    for s in parts.symbols.iter().flatten() {
        let st_name = if s.name.is_empty() { 0 } else { strings.len() as u32 };
        if !s.name.is_empty() {
            strings.extend_from_slice(s.name);
            strings.push(0);
        }
        symtab.extend_from_slice(&st_name.to_le_bytes());
        symtab.push(s.info);
        symtab.push(s.other);
        symtab.extend_from_slice(&s.shndx.to_le_bytes());
        symtab.extend_from_slice(&s.value.to_le_bytes());
        symtab.extend_from_slice(&0u64.to_le_bytes());
    }
    let mut relas: Vec<u8> = Vec::new();
    for (offset, symbol, kind, addend) in parts.relas.iter().flatten() {
        relas.extend_from_slice(&offset.to_le_bytes());
        relas.extend_from_slice(&(((*symbol as u64) << 32) | *kind as u64).to_le_bytes());
        relas.extend_from_slice(&addend.to_le_bytes());
    }
    let mut rels: Vec<u8> = Vec::new();
    for (offset, symbol, kind) in parts.rels.iter().flatten() {
        rels.extend_from_slice(&offset.to_le_bytes());
        rels.extend_from_slice(&(((*symbol as u64) << 32) | *kind as u64).to_le_bytes());
    }
    let empty: Vec<u8> = Vec::new();
    let names: [&str; 9] = [
        "",
        if parts.text.is_some() { ".text" } else { ".left1" },
        if parts.data.is_some() { ".data" } else { ".left2" },
        if parts.rodata.is_some() { ".rodata" } else { ".left3" },
        ".symtab",
        ".strtab",
        if parts.relas.is_some() { ".rela.text" } else { ".left6" },
        if parts.rels.is_some() { ".rel.text" } else { ".left7" },
        ".shstrtab",
    ];
    let mut shstrtab: Vec<u8> = Vec::new();
    let mut name_at: Vec<u32> = Vec::new();
    for name in names {
        name_at.push(shstrtab.len() as u32);
        shstrtab.extend_from_slice(name.as_bytes());
        shstrtab.push(0);
    }
    let contents: [&Vec<u8>; 9] = [
        &empty,
        parts.text.as_ref().unwrap_or(&empty),
        parts.data.as_ref().unwrap_or(&empty),
        parts.rodata.as_ref().unwrap_or(&empty),
        &symtab,
        &strings,
        &relas,
        &rels,
        &shstrtab,
    ];
    let kinds: [u32; 9] = [0, 1, 1, 1, if parts.symbols.is_some() { 2 } else { 1 }, 3, 4, 9, 3];
    let links: [u32; 9] = [0, 0, 0, 0, 5, 0, 4, 4, 0];
    let infos: [u32; 9] = [0, 0, 0, 0, 1, 0, 1, 1, 0];
    let aligns: [u64; 9] = [0, 16, 4, 8, 8, 1, 8, 8, 1];
    let entsizes: [u64; 9] = [0, 0, 0, 0, 24, 0, 24, 16, 0];

    let mut out: Vec<u8> = Vec::new();
    out.extend_from_slice(&[0x7f, b'E', b'L', b'F', 2, 1, 1, 0, 0, 0, 0, 0, 0, 0, 0, 0]);
    out.extend_from_slice(&1u16.to_le_bytes());
    out.extend_from_slice(&62u16.to_le_bytes());
    out.extend_from_slice(&1u32.to_le_bytes());
    out.extend_from_slice(&0u64.to_le_bytes());
    out.extend_from_slice(&0u64.to_le_bytes());
    let total: usize = contents.iter().map(|c| c.len()).sum();
    out.extend_from_slice(&((64 + total) as u64).to_le_bytes());
    out.extend_from_slice(&0u32.to_le_bytes());
    out.extend_from_slice(&64u16.to_le_bytes());
    out.extend_from_slice(&0u16.to_le_bytes());
    out.extend_from_slice(&0u16.to_le_bytes());
    out.extend_from_slice(&64u16.to_le_bytes());
    out.extend_from_slice(&9u16.to_le_bytes());
    out.extend_from_slice(&8u16.to_le_bytes());
    let mut offsets: Vec<u64> = Vec::new();
    for content in contents {
        offsets.push(out.len() as u64);
        out.extend_from_slice(content);
    }
    for i in 0..9 {
        let (offset, size) = if i == 0 { (0, 0) } else { (offsets[i], contents[i].len() as u64) };
        section_header(
            &mut out, name_at[i], kinds[i], offset, size, links[i], infos[i], aligns[i],
            entsizes[i],
        );
    }
    out
}

/// The object of a function `f` that returns 42: `mov eax, 42` and `ret`.
fn answer() -> Vec<u8> {
    let mut p = parts(&[0xb8, 0x2a, 0x00, 0x00, 0x00, 0xc3]);
    p.symbols = Some(vec![sym(b"f", GLOBAL_FUNC, TEXT, 0)]);
    build(&p)
}

/// Where the header of the section with this index starts in a built object.
fn header_at(bytes: &[u8], index: usize) -> usize {
    bytes.len() - 9 * 64 + index * 64
}

#[test]
fn parse_reads_the_section_header_table() {
    let object = Object::parse(&answer()).unwrap();
    assert_eq!(object.sections.len(), 9);
    assert_eq!(object.sections[0].sh_type, 0);
    assert_eq!(object.sections[1], object.text.header);
    assert_eq!(object.sections[4].sh_type, 2);
    assert_eq!(object.sections[4].sh_link, 5);
    assert_eq!(object.sections[4].sh_entsize, 24);
    assert_eq!(object.sections[8].sh_type, 3);
}

#[test]
fn parse_finds_the_code_section_by_its_name() {
    let object = Object::parse(&answer()).unwrap();
    assert_eq!(object.text.header.sh_type, 1);
    assert_eq!(object.text.header.sh_offset, 64);
    assert_eq!(object.text.header.sh_size, 6);
    assert_eq!(object.text.header.sh_addralign, 16);
    assert_eq!(object.text_index(), Some(1));
}

#[test]
fn parse_copies_the_contents_of_the_sections() {
    let mut p = parts(&[0xc3, 0x90]);
    p.data = Some(vec![1, 2, 3, 4, 5]);
    p.rodata = Some(b"hello\0".to_vec());
    let object = Object::parse(&build(&p)).unwrap();
    assert_eq!(object.text.bytes, vec![0xc3, 0x90]);
    let data = object.data.as_ref().unwrap();
    assert_eq!(data.bytes, vec![1, 2, 3, 4, 5]);
    assert_eq!(data.header, object.sections[2]);
    assert_eq!(data.header.sh_addralign, 4);
    let rodata = object.rodata.as_ref().unwrap();
    assert_eq!(rodata.bytes, b"hello\0".to_vec());
    assert_eq!(rodata.header, object.sections[3]);
}

#[test]
fn parse_of_an_object_without_data_has_no_data_sections() {
    let object = Object::parse(&answer()).unwrap();
    assert!(object.data.is_none());
    assert!(object.rodata.is_none());
}

#[test]
fn parse_takes_an_empty_code_section() {
    let object = Object::parse(&build(&parts(&[]))).unwrap();
    assert_eq!(object.text.bytes, Vec::<u8>::new());
    assert_eq!(object.layout().text, PageRequest::Mapped { size: 0 });
}

#[test]
fn parse_reads_the_symbols_in_the_order_of_the_table() {
    let mut p = parts(&[0xc3; 16]);
    p.data = Some(vec![0; 8]);
    p.symbols = Some(vec![
        sym(b"local", LOCAL_NOTYPE, TEXT, 2),
        sym(b"f", GLOBAL_FUNC, TEXT, 4),
        sym(b"counter", GLOBAL_OBJECT, DATA, 8),
        sym(b"puts", GLOBAL_NOTYPE, 0, 0),
    ]);
    let object = Object::parse(&build(&p)).unwrap();
    assert_eq!(object.symbols.len(), 5);
    let entries: Vec<(u32, u16, u8, u64)> = object
        .symbols
        .iter()
        .map(|s| (s.entry.st_name, s.entry.st_shndx, s.entry.st_vis, s.entry.st_value))
        .collect();
    assert_eq!(
        entries,
        vec![(0, 0, 0, 0), (1, 1, 0, 2), (7, 1, 0, 4), (9, 2, 0, 8), (17, 0, 0, 0)]
    );
    assert!(object.symbols[0].is_undefined());
    assert!(!object.symbols[2].is_undefined());
    assert!(object.symbols[4].is_undefined());
}

#[test]
fn parse_reads_the_names_of_the_symbols() {
    let mut p = parts(&[0xc3; 16]);
    p.symbols = Some(vec![
        sym(b"f", GLOBAL_FUNC, TEXT, 4),
        sym("gr\u{fc}n".as_bytes(), GLOBAL_FUNC, TEXT, 8),
        sym(b"puts", GLOBAL_NOTYPE, 0, 0),
    ]);
    let object = Object::parse(&build(&p)).unwrap();
    assert_eq!(object.symbols[0].name, Some(String::new()));
    assert_eq!(object.symbols[0].raw_name, Some(Vec::new()));
    assert_eq!(object.symbols[1].name, Some("f".to_string()));
    assert_eq!(object.symbols[1].raw_name, Some(b"f".to_vec()));
    assert_eq!(object.symbols[2].name, Some("gr\u{fc}n".to_string()));
    assert_eq!(object.symbols[2].raw_name, Some(vec![b'g', b'r', 0xc3, 0xbc, b'n']));
    assert_eq!(object.symbols[3].name, Some("puts".to_string()));
    assert_eq!(object.symbols[3].raw_name, Some(b"puts".to_vec()));
}

#[test]
fn parse_reads_the_visibility_of_the_symbols() {
    let mut p = parts(&[0xc3; 16]);
    let mut hidden = sym(b"hidden", GLOBAL_FUNC, TEXT, 0);
    hidden.other = 2;
    let mut protected = sym(b"protected", GLOBAL_FUNC, TEXT, 0);
    protected.other = 0xff;
    p.symbols = Some(vec![hidden, protected, sym(b"f", GLOBAL_FUNC, TEXT, 0)]);
    let object = Object::parse(&build(&p)).unwrap();
    assert_eq!(object.symbols[1].entry.st_vis, 2);
    assert_eq!(object.symbols[2].entry.st_vis, 3);
    assert_eq!(object.symbols[3].entry.st_vis, 0);
}

#[test]
fn parse_keeps_the_bytes_of_a_name_that_is_no_text() {
    let mut p = parts(&[0xc3; 16]);
    p.symbols = Some(vec![sym(&[0xff, 0xfe], GLOBAL_FUNC, 0, 0)]);
    let object = Object::parse(&build(&p)).unwrap();
    assert_eq!(object.symbols[1].name, None);
    assert_eq!(object.symbols[1].raw_name, Some(vec![0xff, 0xfe]));
}

#[test]
fn parse_has_no_name_for_a_symbol_that_points_outside_the_string_table() {
    let mut bytes = build(&Parts {
        symbols: Some(vec![sym(b"f", GLOBAL_FUNC, TEXT, 0)]),
        ..parts(&[0xc3])
    });
    // the second entry of the symbol table starts 24 bytes into it; its first field is the name
    let symtab = 64 + 1;
    bytes[symtab + 24..symtab + 28].copy_from_slice(&1000u32.to_le_bytes());
    let object = Object::parse(&bytes).unwrap();
    assert_eq!(object.symbols[1].entry.st_name, 1000);
    assert_eq!(object.symbols[1].name, None);
    assert_eq!(object.symbols[1].raw_name, None);
}

#[test]
fn parse_reads_the_relocations_with_addend() {
    let mut p = parts(&[0; 32]);
    p.symbols = Some(vec![sym(b"f", GLOBAL_FUNC, TEXT, 0), sym(b"puts", GLOBAL_NOTYPE, 0, 0)]);
    p.relas = Some(vec![(1, 2, 4, -4), (0x10, 1, 1, 0x7fff_ffff_ffff_ffff), (3, 1, 11, i64::MIN)]);
    let object = Object::parse(&build(&p)).unwrap();
    assert_eq!(
        object.relas,
        vec![
            Rela { r_offset: 1, r_sym: 2, r_type: 4, r_addend: -4 },
            Rela { r_offset: 0x10, r_sym: 1, r_type: 1, r_addend: 0x7fff_ffff_ffff_ffff },
            Rela { r_offset: 3, r_sym: 1, r_type: 11, r_addend: i64::MIN },
        ]
    );
    assert_eq!(object.rels, Vec::new());
}

#[test]
fn parse_reads_the_relocations_without_addend() {
    let mut p = parts(&[0; 32]);
    p.symbols = Some(vec![sym(b"f", GLOBAL_FUNC, TEXT, 0)]);
    p.rels = Some(vec![(8, 1, 10), (0xffff_ffff_0000_0001, 0xffff_fffe, 0xffff_fffd)]);
    let object = Object::parse(&build(&p)).unwrap();
    assert_eq!(
        object.rels,
        vec![
            Rel { r_offset: 8, r_sym: 1, r_type: 10 },
            Rel { r_offset: 0xffff_ffff_0000_0001, r_sym: 0xffff_fffe, r_type: 0xffff_fffd },
        ]
    );
    assert_eq!(object.relas, Vec::new());
}

#[test]
fn parse_of_an_object_without_relocation_sections_has_no_relocations() {
    let object = Object::parse(&answer()).unwrap();
    assert_eq!(object.relas, Vec::new());
    assert_eq!(object.rels, Vec::new());
}

#[test]
fn parse_refuses_what_is_no_object() {
    assert_eq!(Object::parse(&[]).err(), Some(LoadError::BadObject));
    assert_eq!(Object::parse(b"no object at all").err(), Some(LoadError::BadObject));
    assert_eq!(Object::parse(&[0; 64]).err(), Some(LoadError::BadObject));
}

#[test]
fn parse_refuses_an_object_that_is_cut_short() {
    let bytes = answer();
    assert_eq!(Object::parse(&bytes[..bytes.len() - 1]).err(), Some(LoadError::BadObject));
    assert_eq!(Object::parse(&bytes[..70]).err(), Some(LoadError::BadObject));
    assert_eq!(Object::parse(&bytes[..63]).err(), Some(LoadError::BadObject));
}

#[test]
fn parse_refuses_an_object_without_a_code_section() {
    let mut p = parts(&[]);
    p.text = None;
    p.data = Some(vec![1]);
    assert_eq!(Object::parse(&build(&p)).err(), Some(LoadError::MissingText));
}

#[test]
fn parse_refuses_an_object_without_a_symbol_table() {
    let mut p = parts(&[0xc3]);
    p.symbols = None;
    assert_eq!(Object::parse(&build(&p)).err(), Some(LoadError::MissingSymbolTable));
}

#[test]
fn parse_looks_for_the_symbol_table_before_the_code_section() {
    let mut p = parts(&[]);
    p.text = None;
    p.symbols = None;
    assert_eq!(Object::parse(&build(&p)).err(), Some(LoadError::MissingSymbolTable));
}

#[test]
fn parse_refuses_an_object_without_section_headers() {
    let mut bytes = answer();
    // the offset of the section header table, at byte 40 of the file header
    bytes[40..48].copy_from_slice(&0u64.to_le_bytes());
    assert_eq!(Object::parse(&bytes).err(), Some(LoadError::MissingSymbolTable));
}

#[test]
fn parse_refuses_a_section_that_reaches_beyond_the_object() {
    for index in [1usize, 2, 3] {
        let mut p = parts(&[0xc3; 4]);
        p.data = Some(vec![0; 4]);
        p.rodata = Some(vec![0; 4]);
        let mut bytes = build(&p);
        let size = header_at(&bytes, index) + 32;
        let len = bytes.len() as u64;
        bytes[size..size + 8].copy_from_slice(&len.to_le_bytes());
        assert_eq!(Object::parse(&bytes).err(), Some(LoadError::BadSection));
    }
}

#[test]
fn parse_takes_a_section_that_ends_with_the_object() {
    let mut bytes = answer();
    let offset = header_at(&bytes, 1) + 24;
    let len = bytes.len() as u64;
    bytes[offset..offset + 8].copy_from_slice(&(len - 6).to_le_bytes());
    let object = Object::parse(&bytes).unwrap();
    assert_eq!(object.text.bytes, bytes[bytes.len() - 6..].to_vec());
}

#[test]
fn parse_refuses_a_section_whose_end_is_beyond_any_number() {
    let mut bytes = answer();
    let offset = header_at(&bytes, 1) + 24;
    bytes[offset..offset + 8].copy_from_slice(&0xffff_ffff_ffff_fffdu64.to_le_bytes());
    bytes[offset + 8..offset + 16].copy_from_slice(&6u64.to_le_bytes());
    assert_eq!(Object::parse(&bytes).err(), Some(LoadError::BadSection));
}

#[test]
fn parse_refuses_relocations_in_a_section_of_another_kind() {
    let mut p = parts(&[0; 8]);
    p.relas = Some(vec![(0, 0, 1, 0)]);
    let mut bytes = build(&p);
    let kind = header_at(&bytes, 6) + 4;
    bytes[kind..kind + 4].copy_from_slice(&9u32.to_le_bytes());
    assert_eq!(Object::parse(&bytes).err(), Some(LoadError::BadObject));
    let mut q = parts(&[0; 8]);
    q.rels = Some(vec![(0, 0, 1)]);
    let mut bytes = build(&q);
    let kind = header_at(&bytes, 7) + 4;
    bytes[kind..kind + 4].copy_from_slice(&1u32.to_le_bytes());
    assert_eq!(Object::parse(&bytes).err(), Some(LoadError::BadObject));
}

#[test]
fn parse_refuses_a_symbol_table_with_entries_of_another_size() {
    let mut bytes = answer();
    let entsize = header_at(&bytes, 4) + 56;
    bytes[entsize..entsize + 8].copy_from_slice(&16u64.to_le_bytes());
    assert_eq!(Object::parse(&bytes).err(), Some(LoadError::BadObject));
}

#[test]
fn a_function_that_returns_a_number_is_loaded_as_assembled() {
    let module = AsmFunction::<X64ISA>::new_elf(&answer(), &PLACEMENT, &Vec::new()).unwrap();
    assert_eq!(module.text().bytes(), &vec![0xb8, 0x2a, 0x00, 0x00, 0x00, 0xc3]);
    assert_eq!(module.text().as_ptr(), TEXT_BASE);
    assert_eq!(module.text().protection(), Protection::ReadExecute);
    assert_eq!(module.entry("f"), Ok(TEXT_BASE));
}

#[test]
fn a_function_without_arguments_is_invoked_at_its_entry_point() {
    let module = AsmFunction::<X64ISA>::new_elf(&answer(), &PLACEMENT, &Vec::new()).unwrap();
    assert_eq!(
        module.call("f", &[], false),
        Ok(Invocation { entry: TEXT_BASE, call: Call::Call0 })
    );
}

#[test]
fn a_name_that_the_object_does_not_define_is_not_invoked() {
    let module = AsmFunction::<X64ISA>::new_elf(&answer(), &PLACEMENT, &Vec::new()).unwrap();
    assert_eq!(module.call("g", &[], false), Err(LoadError::FunctionNotFound));
    assert_eq!(module.entry("F"), Err(LoadError::FunctionNotFound));
}

#[test]
fn a_call_of_an_outside_function_is_resolved_through_the_namespace() {
    let mut p = parts(&[0xe8, 0, 0, 0, 0, 0xc3]);
    p.symbols = Some(vec![sym(b"f", GLOBAL_FUNC, TEXT, 0), sym(b"puts", GLOBAL_NOTYPE, 0, 0)]);
    p.relas = Some(vec![(1, 2, 4, -4)]);
    let bytes = build(&p);
    let object = Object::parse(&bytes).unwrap();
    assert_eq!(object.undefined_names(), vec![Vec::new(), b"puts".to_vec()]);
    let namespace = vec![
        External { name: Vec::new(), address: 0 },
        External { name: b"puts".to_vec(), address: 0x7f00_0012_3456 },
    ];
    let module = AsmFunction::<X64ISA>::new_elf(&bytes, &PLACEMENT, &namespace).unwrap();
    // (0x7f00_0012_3456 - 4) - (0x7f00_0000_1000 + 1) = 0x12_2451
    assert_eq!(module.text().bytes(), &vec![0xe8, 0x51, 0x24, 0x12, 0x00, 0xc3]);
    assert_eq!(module.entry("f"), Ok(TEXT_BASE));
    assert_eq!(module.entry("puts"), Err(LoadError::FunctionNotFound));
}

#[test]
fn a_call_of_an_outside_function_that_the_namespace_lacks_is_fatal() {
    let mut p = parts(&[0xe8, 0, 0, 0, 0, 0xc3]);
    p.symbols = Some(vec![sym(b"f", GLOBAL_FUNC, TEXT, 0), sym(b"puts", GLOBAL_NOTYPE, 0, 0)]);
    p.relas = Some(vec![(1, 2, 4, -4)]);
    assert_eq!(
        AsmFunction::<X64ISA>::new_elf(&build(&p), &PLACEMENT, &Vec::new()).err(),
        Some(LoadError::UnresolvedSymbol)
    );
}

#[test]
fn references_to_the_data_sections_are_patched_with_their_addresses() {
    // movabs rax, counter; lea rdx, [rip + message]; ret
    let mut p = parts(&[0x48, 0xb8, 0, 0, 0, 0, 0, 0, 0, 0, 0x48, 0x8d, 0x15, 0, 0, 0, 0, 0xc3]);
    p.data = Some(vec![0; 16]);
    p.rodata = Some(b"hello\0".to_vec());
    p.symbols = Some(vec![
        sym(b"f", GLOBAL_FUNC, TEXT, 0),
        sym(b"counter", GLOBAL_OBJECT, DATA, 8),
        sym(b"message", GLOBAL_OBJECT, RODATA, 0),
    ]);
    p.relas = Some(vec![(2, 2, 1, 0), (13, 3, 2, -4)]);
    let module = AsmFunction::<X64ISA>::new_elf(&build(&p), &PLACEMENT, &Vec::new()).unwrap();
    // counter is at 0x5555_0000_2008;
    // message is (0x7f00_0000_3000 - 4) - (0x7f00_0000_1000 + 13) = 0x1fef from the patch site
    assert_eq!(
        module.text().bytes(),
        &vec![
            0x48, 0xb8, 0x08, 0x20, 0x00, 0x00, 0x55, 0x55, 0x00, 0x00, 0x48, 0x8d, 0x15, 0xef,
            0x1f, 0x00, 0x00, 0xc3
        ]
    );
    assert_eq!(module.data().unwrap().bytes(), &vec![0; 16]);
    assert_eq!(module.data().unwrap().as_ptr(), DATA_BASE);
    assert_eq!(module.rodata().unwrap().bytes(), &b"hello\0".to_vec());
    assert_eq!(module.rodata().unwrap().protection(), Protection::ReadOnly);
}

#[test]
fn relocations_of_both_forms_are_applied() {
    let mut p = parts(&[0; 12]);
    p.symbols = Some(vec![sym(b"f", GLOBAL_FUNC, TEXT, 4)]);
    p.relas = Some(vec![(0, 1, 1, 1)]);
    p.rels = Some(vec![(8, 1, 2)]);
    let placement = Placement { text: 0x40_0000, data: 0, rodata: 0 };
    let module = AsmFunction::<X64ISA>::new_elf(&build(&p), &placement, &Vec::new()).unwrap();
    // 0x40_0005 in eight bytes, then (0x40_0004) - (0x40_0008) = -4 in four
    assert_eq!(
        module.text().bytes(),
        &vec![0x05, 0x00, 0x40, 0x00, 0, 0, 0, 0, 0xfc, 0xff, 0xff, 0xff]
    );
}

#[test]
fn only_visible_named_symbols_of_the_code_section_can_be_invoked() {
    let mut p = parts(&[0xc3; 16]);
    p.data = Some(vec![0; 8]);
    p.rodata = Some(vec![0; 8]);
    let mut hidden = sym(b"hidden", GLOBAL_FUNC, TEXT, 1);
    hidden.other = 2;
    p.symbols = Some(vec![
        sym(b"f", GLOBAL_FUNC, TEXT, 0),
        hidden,
        sym(b"__label", GLOBAL_FUNC, TEXT, 2),
        sym(b"", GLOBAL_FUNC, TEXT, 3),
        sym(b"counter", GLOBAL_OBJECT, DATA, 4),
        sym(b"message", GLOBAL_OBJECT, RODATA, 5),
        sym(b"local", LOCAL_NOTYPE, TEXT, 6),
        sym(b"puts", GLOBAL_NOTYPE, 0, 0),
    ]);
    let module = AsmFunction::<X64ISA>::new_elf(&build(&p), &PLACEMENT, &Vec::new()).unwrap();
    assert_eq!(module.entry("f"), Ok(TEXT_BASE));
    assert_eq!(module.entry("local"), Ok(TEXT_BASE + 6));
    for name in ["hidden", "__label", "", "counter", "message", "puts"] {
        assert_eq!(module.entry(name), Err(LoadError::FunctionNotFound));
        assert_eq!(module.call(name, &[], false), Err(LoadError::FunctionNotFound));
    }
}

#[test]
fn an_entry_point_whose_name_is_no_text_is_fatal() {
    let mut p = parts(&[0xc3; 4]);
    p.symbols = Some(vec![sym(&[0xff, 0xfe], GLOBAL_FUNC, TEXT, 0)]);
    assert_eq!(
        AsmFunction::<X64ISA>::new_elf(&build(&p), &PLACEMENT, &Vec::new()).err(),
        Some(LoadError::BadSymbol)
    );
}

#[test]
fn an_overflowing_relocation_leaves_no_module() {
    let mut p = parts(&[0xb8, 0, 0, 0, 0, 0xc3]);
    p.data = Some(vec![0; 8]);
    p.symbols = Some(vec![sym(b"f", GLOBAL_FUNC, TEXT, 0), sym(b"counter", GLOBAL_OBJECT, DATA, 0)]);
    p.relas = Some(vec![(1, 2, 10, 0)]);
    let bytes = build(&p);
    assert_eq!(
        AsmFunction::<X64ISA>::new_elf(&bytes, &PLACEMENT, &Vec::new()).err(),
        Some(LoadError::RelocationOverflow)
    );
    let low = Placement { text: TEXT_BASE, data: 0x60_1000, rodata: 0 };
    let module = AsmFunction::<X64ISA>::new_elf(&bytes, &low, &Vec::new()).unwrap();
    assert_eq!(module.text().bytes(), &vec![0xb8, 0x00, 0x10, 0x60, 0x00, 0xc3]);
}

#[test]
fn a_failure_of_reading_comes_before_one_of_linking() {
    let placement = Placement { text: u64::MAX, data: 0, rodata: 0 };
    assert_eq!(
        AsmFunction::<X64ISA>::new_elf(b"no object", &placement, &Vec::new()).err(),
        Some(LoadError::BadObject)
    );
    assert_eq!(
        AsmFunction::<X64ISA>::new_elf(&answer(), &placement, &Vec::new()).err(),
        Some(LoadError::MappingFailed)
    );
}

#[test]
fn the_layout_of_an_object_follows_its_sections() {
    let mut p = parts(&[0xc3; 6]);
    p.data = Some(vec![0; 5]);
    p.rodata = Some(vec![0; 7]);
    let object = Object::parse(&build(&p)).unwrap();
    let layout = object.layout();
    assert_eq!(layout.text, PageRequest::Mapped { size: 6 });
    assert_eq!(layout.data, Some(PageRequest::Allocated { size: 5, align: 4 }));
    assert_eq!(layout.rodata, Some(PageRequest::Mapped { size: 7 }));
}

#[test]
fn the_marks_of_the_symbol_table_are_those_of_the_object_format() {
    assert_eq!(rasm::object::SHN_UNDEF, elf::abi::SHN_UNDEF);
    assert_eq!(rasm::object::STV_DEFAULT, elf::abi::STV_DEFAULT);
}
