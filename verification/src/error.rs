//! The failures of loading, relocating and invoking a module.
use vstd::prelude::*;

verus! {

/// A fatal failure of the loader. None of them leaves a module behind: the
/// operation that reports one has produced nothing that can be run.
#[derive(Debug, Clone, Copy, PartialEq, Eq, Structural)]
pub enum LoadError {
    /// The bytes are not an object that the reader can take apart.
    BadObject,
    /// The object has no code section.
    MissingText,
    /// The object has no static symbol table.
    MissingSymbolTable,
    /// A section to load reaches beyond the end of the object.
    BadSection,
    /// A symbol, its name or its section is not in the object's tables.
    BadSymbol,
    /// A relocation refers to a symbol defined in a section that is not loaded.
    UnsupportedSection,
    /// An undefined symbol is absent from the host's namespace.
    UnresolvedSymbol,
    /// The value of a 32-bit absolute relocation does not fit its width.
    RelocationOverflow,
    /// The relocation is of a kind that the engine does not apply.
    UnsupportedRelocation,
    /// A patch site reaches beyond the end of the code page.
    BadPatchSite,
    /// The host could not map a page.
    MappingFailed,
    /// The protection of a fixed-protection page cannot change.
    FixedProtection,
    /// No entry point has the name that was invoked.
    FunctionNotFound,
    /// The argument list is longer than the dispatcher supports.
    UnsupportedArity,
}

} // verus!
