//! Modules: loaded, relocated objects whose entry points can be invoked.
//!
//! A module goes through its states in one direction: not loaded; loaded,
//! with a code page that can still be written; relocated; executable;
//! released. Only the executable state has a type: an [`AsmFunction`] is a
//! module that can run, and stays one. The states before it exist inside
//! [`AsmFunction::link`] alone, which hands out a module or a failure and
//! nothing in between. A module is released when its owner lets go of it.
use vstd::prelude::*;
use crate::dispatch::{max_arity, Call, Invocation};
use crate::error::LoadError;
use crate::object::{
    object_of, read_failure, view_section, Object, ObjectView, Section, SectionView,
};
use crate::page::{address_at, Page, PageView, Protection, MAP_FAILED};
use crate::namespace::{view_namespace, External, ExternalView};
use crate::relocate::{
    disjoint_sites, lemma_patch_is_read_back, lemma_relocated_length, patch_of, records_of,
    relocated, width_of, ComputeRelocation, Loaded, Scope,
};
use crate::symbols::{
    entry_points, exports, is_reserved, lemma_entry_points, nameless_candidate, FunctionTable,
};
use std::marker::PhantomData;

verus! {

/// Type-level marker for an instruction set.
pub trait ISA {

}

/// The x86-64 instruction set, the only one that the loader supports.
#[derive(Debug, Clone, Copy, PartialEq, Eq)]
pub struct X64ISA;

impl ISA for X64ISA {

}

/// Where the host has put the pages of a module: the address of each, as
/// the host's allocator returned it. The address of a section that the
/// object does not have is not read.
#[derive(Debug, Clone, Copy, PartialEq, Eq, Structural)]
pub struct Placement {
    pub text: u64,
    pub data: u64,
    pub rodata: u64,
}

/// The mathematical model of a module.
pub struct ModuleView {
    /// The code page.
    pub text: PageView,
    /// The page of mutable data.
    pub data: Option<PageView>,
    /// The page of read-only data.
    pub rodata: Option<PageView>,
    /// The entry points: names and their offsets in the code page.
    pub func: Map<Seq<char>, u64>,
}

/// An assembled and linked module. It owns its pages and the table of its
/// entry points. Once made it does not change, and its pages stay where
/// they are.
#[derive(Debug)]
pub struct AsmFunction<I: ISA> {
    text: Page,
    data: Option<Page>,
    rodata: Option<Page>,
    func: FunctionTable,
    _isa: PhantomData<I>,
}

/// The view of an optional page.
pub open spec fn view_page(page: Option<Page>) -> Option<PageView> {
    match page {
        Some(p) => Some(p@),
        None => None,
    }
}

impl<I: ISA> View for AsmFunction<I> {
    type V = ModuleView;

    closed spec fn view(&self) -> ModuleView {
        ModuleView {
            text: self.text@,
            data: view_page(self.data),
            rodata: view_page(self.rodata),
            func: self.func@,
        }
    }
}

/// The page that holds a section at `base`: a mapping with the protection
/// `prot`, or, where `prot` is `None`, a plain allocation.
pub open spec fn section_page(
    section: SectionView,
    base: u64,
    prot: Option<Protection>,
) -> PageView {
    PageView {
        base,
        paged: prot is Some,
        protection: match prot {
            Some(p) => p,
            None => Protection::ReadWrite,
        },
        bytes: section.bytes,
    }
}

/// What relocation reads of an object whose pages are at `placement`.
pub open spec fn scope_of(
    object: ObjectView,
    placement: Placement,
    namespace: Seq<ExternalView>,
) -> Scope {
    Scope {
        sections: object.sections,
        symbols: object.symbols,
        text: Loaded { header: object.text.header, base: placement.text },
        data: match object.data {
            Some(section) => Some(Loaded { header: section.header, base: placement.data }),
            None => None,
        },
        rodata: match object.rodata {
            Some(section) => Some(Loaded { header: section.header, base: placement.rodata }),
            None => None,
        },
        namespace,
    }
}

/// The code image of the module: the code section with all its relocations
/// applied.
pub open spec fn code_of(
    object: ObjectView,
    placement: Placement,
    namespace: Seq<ExternalView>,
) -> Result<Seq<u8>, LoadError> {
    relocated(
        scope_of(object, placement, namespace),
        object.text.bytes,
        records_of(object.relas, object.rels),
    )
}

/// Why the object cannot be linked, if it cannot. The first reason in this
/// order counts: the code section is not in the section header table; the
/// host could not map the code page or the page of read-only data; a
/// candidate for an entry point has no name; a relocation fails.
pub open spec fn link_failure(
    object: ObjectView,
    placement: Placement,
    namespace: Seq<ExternalView>,
) -> Option<LoadError> {
    if object.text_index() is None {
        Some(LoadError::BadObject)
    } else if placement.text == MAP_FAILED || (object.rodata is Some && placement.rodata
        == MAP_FAILED) {
        Some(LoadError::MappingFailed)
    } else if nameless_candidate(object.symbols, object.text_index()->Some_0) {
        Some(LoadError::BadSymbol)
    } else {
        match code_of(object, placement, namespace) {
            Err(e) => Some(e),
            Ok(_) => None,
        }
    }
}

/// The module that linking makes of an object, where it can be linked. The
/// code page holds the relocated code and can be read and executed; the
/// page of read-only data can only be read; the page of mutable data is a
/// plain allocation. The data pages hold their sections as the object has
/// them.
pub open spec fn linked(
    object: ObjectView,
    placement: Placement,
    namespace: Seq<ExternalView>,
) -> ModuleView {
    ModuleView {
        text: PageView {
            base: placement.text,
            paged: true,
            protection: Protection::ReadExecute,
            bytes: code_of(object, placement, namespace)->Ok_0,
        },
        data: match object.data {
            Some(section) => Some(section_page(section, placement.data, None)),
            None => None,
        },
        rodata: match object.rodata {
            Some(section) => Some(
                section_page(section, placement.rodata, Some(Protection::ReadOnly)),
            ),
            None => None,
        },
        func: entry_points(object.symbols, object.text_index()->Some_0),
    }
}

/// Why the object `bytes` cannot be loaded, if it cannot: why it cannot be
/// read, or else why it cannot be linked.
pub open spec fn load_failure(
    bytes: Seq<u8>,
    placement: Placement,
    namespace: Seq<ExternalView>,
) -> Option<LoadError> {
    match read_failure(bytes) {
        Some(e) => Some(e),
        None => link_failure(object_of(bytes), placement, namespace),
    }
}

/// Makes the page for a section at `base` and copies the section into it.
/// With a protection the page is a mapping, which gets that protection
/// once it is filled; without one it is a plain allocation.
fn alloc_section_page(section: &Section, base: u64, prot: Option<Protection>) -> (r: Result<
    Page,
    LoadError,
>)
    ensures
        match r {
            Ok(page) => !(prot is Some && base == MAP_FAILED) && page@ == section_page(
                section@,
                base,
                prot,
            ),
            Err(e) => prot is Some && base == MAP_FAILED && e == LoadError::MappingFailed,
        },
{
    let size = section.bytes.len();
    match prot {
        Some(prot) => {
            let mut page = Page::new(base, size)?;
            page.fill(section.bytes.as_slice());
            page.mprotect(prot).unwrap();
            Ok(page)
        },
        None => {
            let mut page = Page::non_paged(base, size);
            page.fill(section.bytes.as_slice());
            Ok(page)
        },
    }
}

/// Makes the page for a section that the object may not have.
fn alloc_optional_page(section: &Option<Section>, base: u64, prot: Option<Protection>) -> (r:
    Result<Option<Page>, LoadError>)
    ensures
        match r {
            Ok(page) => !(section is Some && prot is Some && base == MAP_FAILED) && view_page(page)
                == (match view_section(*section) {
                Some(s) => Some(section_page(s, base, prot)),
                None => None,
            }),
            Err(e) => section is Some && prot is Some && base == MAP_FAILED && e
                == LoadError::MappingFailed,
        },
{
    match section {
        Some(section) => Ok(Some(alloc_section_page(section, base, prot)?)),
        None => Ok(None),
    }
}

impl ModuleView {
    /// Whether the pages are as those of a module that can run: the code
    /// page is a mapping that can be read and executed, the page of
    /// read-only data a mapping that can only be read, and the page of
    /// mutable data a plain allocation.
    pub open spec fn is_executable(self) -> bool {
        &&& self.text.paged
        &&& self.text.protection == Protection::ReadExecute
        &&& self.data matches Some(page) ==> !page.paged && page.protection
            == Protection::ReadWrite
        &&& self.rodata matches Some(page) ==> page.paged && page.protection
            == Protection::ReadOnly
    }
}

impl<I: ISA> AsmFunction<I> {
    /// Every module can run: no value of this type is a module that is
    /// loaded in part, or whose code can still be written.
    #[verifier::type_invariant]
    spec fn well_formed(&self) -> bool {
        self@.is_executable()
    }

    /// Loads the object `elf_bytes` into the pages at `placement`: reads
    /// it, then links it. Either a module comes back that is ready to run,
    /// or a failure and nothing else.
    pub fn new_elf(elf_bytes: &[u8], placement: &Placement, namespace: &Vec<External>) -> (r:
        Result<Self, LoadError>)
        ensures
            match load_failure(elf_bytes@, *placement, view_namespace(namespace@)) {
                Some(e) => r matches Err(failure) && failure == e,
                None => r matches Ok(module) && module@ == linked(
                    object_of(elf_bytes@),
                    *placement,
                    view_namespace(namespace@),
                ),
            },
    {
        let object = Object::parse(elf_bytes)?;
        Self::link(&object, placement, namespace)
    }

    /// Links an object into the pages at `placement`: copies the sections
    /// into their pages, builds the table of entry points, applies the
    /// relocations of the code section, and makes the code page executable.
    pub fn link(object: &Object, placement: &Placement, namespace: &Vec<External>) -> (r: Result<
        Self,
        LoadError,
    >)
        ensures
            match link_failure(object@, *placement, view_namespace(namespace@)) {
                Some(e) => r matches Err(failure) && failure == e,
                None => r matches Ok(module) && module@ == linked(
                    object@,
                    *placement,
                    view_namespace(namespace@),
                ),
            },
    {
        let Some(text_idx) = object.text_index() else {
            return Err(LoadError::BadObject);
        };
        let text_page = alloc_section_page(
            &object.text,
            placement.text,
            Some(Protection::ReadWrite),
        );
        let data_page = alloc_optional_page(&object.data, placement.data, None);
        let rodata_page = alloc_optional_page(
            &object.rodata,
            placement.rodata,
            Some(Protection::ReadOnly),
        );
        let (text_page, data_page, rodata_page) = match (text_page, data_page, rodata_page) {
            (Ok(text_page), Ok(data_page), Ok(rodata_page)) => (text_page, data_page, rodata_page),
            _ => {
                return Err(LoadError::MappingFailed);
            },
        };
        let func_table = FunctionTable::build(&object.symbols, text_idx)?;
        let mut relocation = ComputeRelocation {
            object,
            data: data_page.as_ref(),
            rodata: rodata_page.as_ref(),
            text_page,
            namespace,
        };
        relocation.apply_all_relocations()?;
        let mut text_page = relocation.text_page;
        text_page.mprotect(Protection::ReadExecute).unwrap();
        Ok(
            Self {
                text: text_page,
                func: func_table,
                data: data_page,
                rodata: rodata_page,
                _isa: PhantomData,
            },
        )
    }

    /// The code page.
    pub fn text(&self) -> (page: &Page)
        ensures
            page@ == self@.text,
            self@.is_executable(),
    {
        proof {
            use_type_invariant(self);
        }
        &self.text
    }

    /// The page of mutable data, if the module has one.
    pub fn data(&self) -> (page: Option<&Page>)
        ensures
            match page {
                Some(p) => self@.data == Some(p@),
                None => self@.data is None,
            },
            self@.is_executable(),
    {
        proof {
            use_type_invariant(self);
        }
        self.data.as_ref()
    }

    /// The page of read-only data, if the module has one.
    pub fn rodata(&self) -> (page: Option<&Page>)
        ensures
            match page {
                Some(p) => self@.rodata == Some(p@),
                None => self@.rodata is None,
            },
            self@.is_executable(),
    {
        proof {
            use_type_invariant(self);
        }
        self.rodata.as_ref()
    }

    /// The address of the entry point called `name`: the start of the code
    /// page plus the offset of the entry point.
    pub fn entry(&self, name: &str) -> (r: Result<u64, LoadError>)
        ensures
            match r {
                Ok(address) => self@.func.contains_key(name@) && address == address_at(
                    self@.text.base,
                    self@.func[name@] as int,
                ),
                Err(e) => !self@.func.contains_key(name@) && e == LoadError::FunctionNotFound,
            },
    {
        match self.func.get(name) {
            Some(offset) => Ok(self.text.as_ptr().wrapping_add(offset)),
            None => Err(LoadError::FunctionNotFound),
        }
    }

    /// Prepares the call of the entry point `name` with the arguments
    /// `args`: picks the call shape by the number of arguments, then looks
    /// the name up. Nothing is checked of the arguments but their number.
    pub fn call(&self, name: &str, args: &[u64], extended: bool) -> (r: Result<
        Invocation,
        LoadError,
    >)
        ensures
            match r {
                Ok(invocation) => {
                    &&& args@.len() <= max_arity(extended)
                    &&& self@.func.contains_key(name@)
                    &&& invocation.entry == address_at(
                        self@.text.base,
                        self@.func[name@] as int,
                    )
                    &&& invocation.call.args() == args@
                },
                Err(e) => if args@.len() > max_arity(extended) {
                    e == LoadError::UnsupportedArity
                } else {
                    !self@.func.contains_key(name@) && e == LoadError::FunctionNotFound
                },
            },
    {
        let call = Call::select(args, extended)?;
        let entry = self.entry(name)?;
        Ok(Invocation { entry, call })
    }
}

/// What is read back from the code page of a loaded module at the patch
/// site of a relocation is the patch of that relocation, provided that no
/// later relocation patches a byte of the same site.
pub proof fn lemma_loaded_patch_is_read_back(
    object: ObjectView,
    placement: Placement,
    namespace: Seq<ExternalView>,
    i: int,
)
    requires
        link_failure(object, placement, namespace) is None,
        0 <= i < records_of(object.relas, object.rels).len(),
        forall|j: int|
            i < j < records_of(object.relas, object.rels).len() ==> disjoint_sites(
                records_of(object.relas, object.rels)[i],
                #[trigger] records_of(object.relas, object.rels)[j],
            ),
    ensures
        patch_of(
            scope_of(object, placement, namespace),
            records_of(object.relas, object.rels)[i],
        ) is Ok,
        linked(object, placement, namespace).text.bytes.subrange(
            records_of(object.relas, object.rels)[i].r_offset as int,
            records_of(object.relas, object.rels)[i].r_offset + width_of(
                records_of(object.relas, object.rels)[i].r_type,
            ),
        ) == patch_of(
            scope_of(object, placement, namespace),
            records_of(object.relas, object.rels)[i],
        )->Ok_0,
{
    lemma_patch_is_read_back(
        scope_of(object, placement, namespace),
        object.text.bytes,
        records_of(object.relas, object.rels),
        i,
    );
}

/// A loaded module holds its sections where the host put them, as the
/// object has them but for the patches of the code section, and it can run.
pub proof fn lemma_linked_is_executable(
    object: ObjectView,
    placement: Placement,
    namespace: Seq<ExternalView>,
)
    requires
        link_failure(object, placement, namespace) is None,
    ensures
        linked(object, placement, namespace).is_executable(),
        linked(object, placement, namespace).text.base == placement.text,
        linked(object, placement, namespace).text.bytes.len() == object.text.bytes.len(),
        object.data matches Some(section) ==> linked(object, placement, namespace).data
            == Some(
            PageView {
                base: placement.data,
                paged: false,
                protection: Protection::ReadWrite,
                bytes: section.bytes,
            },
        ),
        object.rodata matches Some(section) ==> linked(object, placement, namespace).rodata
            == Some(
            PageView {
                base: placement.rodata,
                paged: true,
                protection: Protection::ReadOnly,
                bytes: section.bytes,
            },
        ),
        object.data is None ==> linked(object, placement, namespace).data is None,
        object.rodata is None ==> linked(object, placement, namespace).rodata is None,
{
    lemma_relocated_length(
        scope_of(object, placement, namespace),
        object.text.bytes,
        records_of(object.relas, object.rels),
    );
}

/// A name can be invoked exactly if some symbol of the object exports it:
/// a symbol of default visibility, defined in the code section, whose name
/// is neither empty nor reserved. Its entry point is the first such symbol.
pub proof fn lemma_invocable_names(
    object: ObjectView,
    placement: Placement,
    namespace: Seq<ExternalView>,
    name: Seq<char>,
)
    requires
        link_failure(object, placement, namespace) is None,
    ensures
        linked(object, placement, namespace).func.contains_key(name) <==> exists|i: int|
            0 <= i < object.symbols.len() && exports(
                #[trigger] object.symbols[i],
                object.text_index()->Some_0,
                name,
            ),
        name.len() == 0 || is_reserved(name) ==> !linked(
            object,
            placement,
            namespace,
        ).func.contains_key(name),
{
    lemma_entry_points(object.symbols, object.text_index()->Some_0, name);
}

} // verus!
