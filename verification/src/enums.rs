//! The small enumerations of the binary format, each with its byte.

use vstd::prelude::*;

verus! {

/// The kind of a top-level section, by its id.
#[derive(Copy, Clone, Debug, PartialEq, Eq, Hash, Structural)]
pub enum SectionType {
    Named,
    Type,
    Import,
    Function,
    Table,
    Memory,
    Global,
    Export,
    Start,
    Element,
    Code,
    Data,
}

impl SectionType {
    /// The section kind with id `v`: ids `0` to `11` in the order of the
    /// variants.
    pub open spec fn spec_from_int(v: u8) -> Option<SectionType> {
        if v == 0 {
            Some(SectionType::Named)
        } else if v == 1 {
            Some(SectionType::Type)
        } else if v == 2 {
            Some(SectionType::Import)
        } else if v == 3 {
            Some(SectionType::Function)
        } else if v == 4 {
            Some(SectionType::Table)
        } else if v == 5 {
            Some(SectionType::Memory)
        } else if v == 6 {
            Some(SectionType::Global)
        } else if v == 7 {
            Some(SectionType::Export)
        } else if v == 8 {
            Some(SectionType::Start)
        } else if v == 9 {
            Some(SectionType::Element)
        } else if v == 10 {
            Some(SectionType::Code)
        } else if v == 11 {
            Some(SectionType::Data)
        } else {
            None
        }
    }

    pub fn from_int(v: u8) -> (r: Option<SectionType>)
        ensures
            r == Self::spec_from_int(v),
    {
        Some(
            match v {
                0 => SectionType::Named,
                1 => SectionType::Type,
                2 => SectionType::Import,
                3 => SectionType::Function,
                4 => SectionType::Table,
                5 => SectionType::Memory,
                6 => SectionType::Global,
                7 => SectionType::Export,
                8 => SectionType::Start,
                9 => SectionType::Element,
                10 => SectionType::Code,
                11 => SectionType::Data,
                _ => return None,
            },
        )
    }
}

/// The type of a value.
#[derive(Copy, Clone, Debug, PartialEq, Eq, Hash, Structural)]
pub enum ValueType {
    I32,
    I64,
    F32,
    F64,
}

impl ValueType {
    /// The value type that byte `v` stands for.
    pub open spec fn spec_from_int(v: u8) -> Option<ValueType> {
        if v == 0x7f {
            Some(ValueType::I32)
        } else if v == 0x7e {
            Some(ValueType::I64)
        } else if v == 0x7d {
            Some(ValueType::F32)
        } else if v == 0x7c {
            Some(ValueType::F64)
        } else {
            None
        }
    }

    pub fn from_int(v: u8) -> (r: Option<ValueType>)
        ensures
            r == Self::spec_from_int(v),
    {
        Some(
            match v {
                0x7f => ValueType::I32,
                0x7e => ValueType::I64,
                0x7d => ValueType::F32,
                0x7c => ValueType::F64,
                _ => return None,
            },
        )
    }
}

/// What an import or export refers to.
#[derive(Copy, Clone, Debug, PartialEq, Eq, Hash, Structural)]
pub enum ExternalKind {
    Function,
    Table,
    Memory,
    Global,
}

impl ExternalKind {
    /// The external kind that byte `v` stands for.
    pub open spec fn spec_from_int(v: u8) -> Option<ExternalKind> {
        if v == 0 {
            Some(ExternalKind::Function)
        } else if v == 1 {
            Some(ExternalKind::Table)
        } else if v == 2 {
            Some(ExternalKind::Memory)
        } else if v == 3 {
            Some(ExternalKind::Global)
        } else {
            None
        }
    }

    pub fn from_int(v: u8) -> (r: Option<ExternalKind>)
        ensures
            r == Self::spec_from_int(v),
    {
        Some(
            match v {
                0 => ExternalKind::Function,
                1 => ExternalKind::Table,
                2 => ExternalKind::Memory,
                3 => ExternalKind::Global,
                _ => return None,
            },
        )
    }
}

/// The result type written inline after a block, loop or if.
#[derive(Copy, Clone, Debug, PartialEq, Eq, Hash, Structural)]
pub enum InlineSignatureType {
    I32,
    I64,
    F32,
    F64,
    Empty,
}

impl InlineSignatureType {
    /// The inline signature that byte `v` stands for.
    pub open spec fn spec_from_int(v: u8) -> Option<InlineSignatureType> {
        if v == 0x7f {
            Some(InlineSignatureType::I32)
        } else if v == 0x7e {
            Some(InlineSignatureType::I64)
        } else if v == 0x7d {
            Some(InlineSignatureType::F32)
        } else if v == 0x7c {
            Some(InlineSignatureType::F64)
        } else if v == 0x40 {
            Some(InlineSignatureType::Empty)
        } else {
            None
        }
    }

    pub fn from_int(v: u8) -> (r: Option<InlineSignatureType>)
        ensures
            r == Self::spec_from_int(v),
    {
        Some(
            match v {
                0x7f => InlineSignatureType::I32,
                0x7e => InlineSignatureType::I64,
                0x7d => InlineSignatureType::F32,
                0x7c => InlineSignatureType::F64,
                0x40 => InlineSignatureType::Empty,
                _ => return None,
            },
        )
    }
}

/// Every type constructor of the binary format.
#[derive(Copy, Clone, Debug, PartialEq, Eq, Hash, Structural)]
pub enum LanguageType {
    I32,
    I64,
    F32,
    F64,
    AnyFunc,
    Func,
    /// Empty block type.
    Void,
}

impl LanguageType {
    /// The type constructor that byte `v` stands for.
    pub open spec fn spec_from_int(v: u8) -> Option<LanguageType> {
        if v == 0x7f {
            Some(LanguageType::I32)
        } else if v == 0x7e {
            Some(LanguageType::I64)
        } else if v == 0x7d {
            Some(LanguageType::F32)
        } else if v == 0x7c {
            Some(LanguageType::F64)
        } else if v == 0x70 {
            Some(LanguageType::AnyFunc)
        } else if v == 0x60 {
            Some(LanguageType::Func)
        } else if v == 0x40 {
            Some(LanguageType::Void)
        } else {
            None
        }
    }

    pub fn from_int(v: u8) -> (r: Option<LanguageType>)
        ensures
            r == Self::spec_from_int(v),
    {
        Some(
            match v {
                0x7f => LanguageType::I32,
                0x7e => LanguageType::I64,
                0x7d => LanguageType::F32,
                0x7c => LanguageType::F64,
                0x70 => LanguageType::AnyFunc,
                0x60 => LanguageType::Func,
                0x40 => LanguageType::Void,
                _ => return None,
            },
        )
    }
}

} // verus!
