//! Lazy, degradable binding to functions of optional dynamic libraries.
//!
//! A program declares a *group*: a set of named dynamic libraries together
//! with the functions it wants from them.  Building the group opens every
//! declared library and records, per function, whether its symbol could be
//! resolved.  A library that cannot be opened, or a symbol that is not
//! exported, never fails the build: the corresponding slot is simply absent,
//! and the matching feature query answers `false`.  Only calling a function
//! whose slot is absent is a caller error, surfaced as a diagnostic naming
//! the function.
//!
//! Opening libraries goes through `libloading`; looking a symbol up and
//! calling through the resolved pointer are inherently unchecked operations
//! that the embedding program performs, feeding the outcomes back into the
//! group as plain values.

pub mod bytes;
pub mod decl;
pub mod group;
pub mod lazy;
pub mod loader;

pub use decl::{validate, AbiType, CallConv, DeclError, FnDescriptor, GroupDecl, LibSpecifier};
pub use group::{begin_group, open_libraries, ExternFnPtr, LibraryGroup, LoadFnPtr, SymbolAnswer};
pub use lazy::LazyGroup;
