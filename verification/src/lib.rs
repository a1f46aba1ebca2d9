//! Decoder for WebAssembly binary modules.
//!
//! A module is a header followed by length-framed sections. Every decoder in
//! this crate is a view over the caller's byte buffer: it borrows ranges of
//! it and never copies payload bytes. Each sequence of entries is pulled one
//! item at a time through a `next` method whose contract is a pure function
//! from the decoder's state to the item and the state that follows.

pub mod accounting;
pub mod bytecode;
pub mod codes;
pub mod data;
pub mod elements;
pub mod entries;
pub mod enums;
pub mod error;
pub mod exports;
pub mod framing;
pub mod functions;
pub mod globals;
pub mod imports;
pub mod memories;
pub mod modules;
pub mod names;
pub mod streams;
pub mod tables;
pub mod types;
pub mod varint;

pub use crate::bytecode::{BrTable, BrTableArmIterator, MemoryImmediate, Op, OpIterator};
pub use crate::codes::{
    CodeIterator, CodeSection, FunctionBody, FunctionIterator, FunctionPart, Local,
};
pub use crate::data::{DataEntry, DataEntryIterator, DataSection};
pub use crate::elements::{ElementEntry, ElementEntryIterator, ElementSection};
pub use crate::enums::{ExternalKind, InlineSignatureType, LanguageType, SectionType, ValueType};
pub use crate::error::Error;
pub use crate::exports::{ExportEntry, ExportEntryIterator, ExportSection};
pub use crate::functions::{FunctionEntryIterator, FunctionSection};
pub use crate::globals::{GlobalEntry, GlobalEntryEither, GlobalEntryIterator, GlobalSection};
pub use crate::imports::{
    ImportEntry, ImportEntryContents, ImportEntryIterator, ImportSection, ResizableLimits,
};
pub use crate::memories::{MemoryEntry, MemoryEntryIterator, MemorySection};
pub use crate::modules::{Module, Section, SectionContent, SectionsIterator};
pub use crate::names::{NameEntry, NameEntryIterator, NameSection};
pub use crate::tables::{TableEntry, TableEntryIterator, TableSection};
pub use crate::types::{FunctionType, ParamsIterator, TypeEntry, TypeEntryIterator, TypeSection};
