//! An in-process loader for relocatable x86-64 objects.
//!
//! The library reads a relocatable object, lays its sections out in pages,
//! resolves and patches the relocations of the code section, and answers
//! lookups of entry points by name. It does the work of a program loader
//! and a dynamic linker for one object at a time.
//!
//! The library touches no memory but its own. A page here is a
//! description: an address, a protection and the bytes that belong there.
//! The host maps the pages that [`object::Object::layout`] asks for, looks
//! up the names that [`object::Object::undefined_names`] lists, and hands
//! the addresses to [`module::AsmFunction::link`]. What comes back says, byte
//! for byte, what each page has to hold; the host copies it there, sets the
//! protection, and may then call the entry points.
//!
//! A failure of the loader is final. Each function that can fail returns a
//! [`error::LoadError`] and leaves nothing behind that could be run.
pub mod applicator;
pub mod dispatch;
pub mod error;
pub mod module;
pub mod namespace;
pub mod object;
pub mod page;
pub mod relocate;
pub mod symbols;

pub use error::LoadError;
pub use module::{AsmFunction, Placement, ISA, X64ISA};
pub use page::{Page, PageView, Protection};
