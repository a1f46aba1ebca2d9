//! The module header, the framing of sections, and what each section holds.

use crate::codes::CodeSection;
use crate::data::DataSection;
use crate::elements::{ElementSection, ElementsView};
use crate::entries::{item_view, Entries, ExprEntries};
use crate::enums::SectionType;
use crate::error::Error;
use crate::exports::ExportSection;
use crate::functions::FunctionSection;
use crate::globals::GlobalSection;
use crate::imports::ImportSection;
use crate::memories::MemorySection;
use crate::names::{NameSection, NamesView};
use crate::tables::TableSection;
use crate::types::TypeSection;
use crate::varint::{
    read_bytes, read_string, read_u32_le, read_varuint, take_bytes, take_string, take_u32_le,
    take_varuint,
};
use vstd::prelude::*;
use vstd::slice::slice_subrange;

verus! {

/// A module: its format version and everything after the header.
pub struct Module<'a> {
    pub version: u32,
    pub payload: &'a [u8],
}

/// A cursor over the sections of a module.
pub struct SectionsIterator<'a>(&'a [u8]);

/// One section: its kind, its name if it is a named section (empty
/// otherwise), and its contents.
pub struct Section<'a> {
    pub id: SectionType,
    pub name: &'a str,
    pub payload: &'a [u8],
}

/// The contents of a section, ready to be decoded entry by entry.
pub enum SectionContent<'a> {
    Type(TypeSection<'a>),
    Import(ImportSection<'a>),
    Function(FunctionSection<'a>),
    Table(TableSection<'a>),
    Memory(MemorySection<'a>),
    Global(GlobalSection<'a>),
    Export(ExportSection<'a>),
    /// The index of the start function.
    Start(u32),
    Elements(ElementSection<'a>),
    Code(CodeSection<'a>),
    Data(DataSection<'a>),
    Name(NameSection<'a>),
}

/// What a `Section` holds.
pub struct SectionView {
    pub id: SectionType,
    pub name: Seq<char>,
    pub payload: Seq<u8>,
}

/// What a `SectionContent` holds: for each kind, the state of a fresh
/// cursor over its entries.
pub enum SectionContentView {
    Type(Entries),
    Import(Entries),
    Function(Entries),
    Table(Entries),
    Memory(Entries),
    Global(ExprEntries),
    Export(Entries),
    Start(u32),
    Elements(ElementsView),
    Code(Entries),
    Data(ExprEntries),
    Name(NamesView),
}

impl<'a> View for Section<'a> {
    type V = SectionView;

    open spec fn view(&self) -> SectionView {
        SectionView { id: self.id, name: self.name@, payload: self.payload@ }
    }
}

impl<'a> View for SectionContent<'a> {
    type V = SectionContentView;

    open spec fn view(&self) -> SectionContentView {
        match self {
            SectionContent::Type(s) => SectionContentView::Type(s@),
            SectionContent::Import(s) => SectionContentView::Import(s@),
            SectionContent::Function(s) => SectionContentView::Function(s@),
            SectionContent::Table(s) => SectionContentView::Table(s@),
            SectionContent::Memory(s) => SectionContentView::Memory(s@),
            SectionContent::Global(s) => SectionContentView::Global(s@),
            SectionContent::Export(s) => SectionContentView::Export(s@),
            SectionContent::Start(v) => SectionContentView::Start(*v),
            SectionContent::Elements(s) => SectionContentView::Elements(s@),
            SectionContent::Code(s) => SectionContentView::Code(s@),
            SectionContent::Data(s) => SectionContentView::Data(s@),
            SectionContent::Name(s) => SectionContentView::Name(s@),
        }
    }
}

impl<'a> View for SectionsIterator<'a> {
    type V = Seq<u8>;

    closed spec fn view(&self) -> Seq<u8> {
        self.0@
    }
}

/// True when `s` begins with the four magic bytes `\0asm`.
pub open spec fn has_magic(s: Seq<u8>) -> bool {
    s.len() >= 4 && s[0] == 0x00 && s[1] == 0x61 && s[2] == 0x73 && s[3] == 0x6d
}

/// The version and the payload of the module in `s`: after the magic, four
/// bytes of little-endian version; the payload is everything that follows.
pub open spec fn module_header(s: Seq<u8>) -> Result<(u32, Seq<u8>), Error> {
    if !has_magic(s) {
        Err(Error::NotWasm)
    } else {
        take_u32_le(s.skip(4))
    }
}

/// The section kind with the given id.
pub open spec fn section_type(id: u64) -> Option<SectionType> {
    if id > 0xff {
        None
    } else {
        SectionType::spec_from_int(id as u8)
    }
}

/// The section at the start of `s`, and the bytes after it: the id, the
/// declared length, and that many bytes. In a named section those bytes
/// begin with the length-prefixed name, and the payload is what follows the
/// name; in any other the name is empty and the payload is all of them.
pub open spec fn take_section(s: Seq<u8>) -> Result<(SectionView, Seq<u8>), Error> {
    match take_varuint(s) {
        Err(e) => Err(e),
        Ok((id, r1)) => match section_type(id) {
            None => Err(Error::UnknownVariant("section type")),
            Some(ty) => match take_varuint(r1) {
                Err(e) => Err(e),
                Ok((len, r2)) => match take_bytes(r2, len as int) {
                    Err(e) => Err(e),
                    Ok((whole, r3)) => if ty == SectionType::Named {
                        match take_string(whole) {
                            Err(e) => Err(e),
                            Ok((name, payload)) => Ok((SectionView { id: ty, name, payload }, r3)),
                        }
                    } else {
                        Ok((SectionView { id: ty, name: Seq::empty(), payload: whole }, r3))
                    },
                },
            },
        },
    }
}

/// One pull on the sections of a module: nothing when no byte is left, else
/// the next section. A failure is yielded once and leaves the sequence
/// exhausted.
pub open spec fn sections_step(bytes: Seq<u8>) -> (Option<Result<SectionView, Error>>, Seq<u8>) {
    if bytes.len() == 0 {
        (None, bytes)
    } else {
        match take_section(bytes) {
            Ok((section, rest)) => (Some(Ok(section)), rest),
            Err(e) => (Some(Err(e)), Seq::empty()),
        }
    }
}

/// The decoder for the contents of a section. A named section is decoded
/// only if its name is `name`. The start section holds one index; every
/// other begins with the number of its entries, and the entries follow.
pub open spec fn section_content(section: SectionView) -> Result<SectionContentView, Error> {
    if section.id == SectionType::Named && section.name != "name"@ {
        Err(Error::UnknownVariant("section type"))
    } else {
        match take_varuint(section.payload) {
            Err(e) => Err(e),
            Ok((n, rest)) => {
                let wide = Entries { count: (n as usize) as nat, bytes: rest };
                let entries = Entries { count: (n as u32) as nat, bytes: rest };
                let exprs = ExprEntries { count: (n as u32) as nat, ops: None, bytes: rest };
                Ok(
                    match section.id {
                        SectionType::Type => SectionContentView::Type(wide),
                        SectionType::Import => SectionContentView::Import(wide),
                        SectionType::Function => SectionContentView::Function(wide),
                        SectionType::Table => SectionContentView::Table(entries),
                        SectionType::Memory => SectionContentView::Memory(entries),
                        SectionType::Global => SectionContentView::Global(exprs),
                        SectionType::Export => SectionContentView::Export(entries),
                        SectionType::Start => SectionContentView::Start(n as u32),
                        SectionType::Element => SectionContentView::Elements(
                            ElementsView {
                                count: (n as u32) as nat,
                                ops: None,
                                elems: 0,
                                bytes: rest,
                            },
                        ),
                        SectionType::Code => SectionContentView::Code(entries),
                        SectionType::Data => SectionContentView::Data(exprs),
                        SectionType::Named => SectionContentView::Name(
                            NamesView { count: (n as u32) as nat, local_count: 0, bytes: rest },
                        ),
                    },
                )
            },
        }
    }
}

/// Tells whether `name` is the name of the debug name section.
fn is_debug_name(name: &str) -> (r: bool)
    ensures
        r == (name@ == "name"@),
{
    let b = name.as_bytes();
    let r = b.len() == 4 && b[0] == 0x6e && b[1] == 0x61 && b[2] == 0x6d && b[3] == 0x65;
    proof {
        let target = "name"@;
        reveal_strlit("name");
        assert(vstd::utf8::is_ascii_chars(target));
        vstd::utf8::is_ascii_chars_encode_utf8(target);
        let code = vstd::utf8::encode_utf8(target);
        assert(code.len() == 4);
        assert(code[0] == target[0] as u8 && code[1] == target[1] as u8);
        assert(code[2] == target[2] as u8 && code[3] == target[3] as u8);
        vstd::utf8::encode_utf8_decode_utf8(target);
        vstd::utf8::encode_utf8_decode_utf8(name@);
        if r {
            assert(b@ =~= code);
        }
    }
    r
}

impl<'a> Module<'a> {
    /// Checks the magic, reads the version, and keeps the rest as the
    /// payload. A buffer without the magic is no module; one that ends
    /// inside the version is cut short.
    pub fn new(stream: &'a [u8]) -> (r: Result<Module<'a>, Error>)
        ensures
            match module_header(stream@) {
                Ok((version, rest)) => r is Ok && r->Ok_0.version == version && r->Ok_0.payload@
                    == rest,
                Err(e) => r is Err && r->Err_0 == e,
            },
            has_magic(stream@) && stream@.len() >= 8 ==> r is Ok,
            stream@.len() >= 8 && r is Err ==> r->Err_0 == Error::NotWasm,
    {
        if stream.len() < 4 || stream[0] != 0x00 || stream[1] != 0x61 || stream[2] != 0x73
            || stream[3] != 0x6d {
            return Err(Error::NotWasm);
        }
        let mut cur = slice_subrange(stream, 4, stream.len());
        let version = read_u32_le(&mut cur)?;
        Ok(Module { version, payload: cur })
    }

    /// A fresh cursor over the sections, at the first one.
    pub fn sections(&'a self) -> (r: SectionsIterator<'a>)
        ensures
            r@ == self.payload@,
    {
        SectionsIterator(self.payload)
    }
}

impl<'a> SectionsIterator<'a> {
    /// Reads one section.
    fn read(iter: &mut &'a [u8]) -> (r: Result<Section<'a>, Error>)
        ensures
            match take_section(old(iter)@) {
                Ok((v, rest)) => r is Ok && r->Ok_0@ == v && final(iter)@ == rest,
                Err(e) => r is Err && r->Err_0 == e,
            },
    {
        let id = read_varuint(iter)?;
        if id > 0xff {
            return Err(Error::UnknownVariant("section type"));
        }
        let id = match SectionType::from_int(id as u8) {
            Some(id) => id,
            None => return Err(Error::UnknownVariant("section type")),
        };
        let len = read_varuint(iter)?;
        let mut payload = read_bytes(iter, len)?;
        let name = if id == SectionType::Named {
            read_string(&mut payload)?
        } else {
            proof {
                reveal_strlit("");
                assert(""@ =~= Seq::<char>::empty());
            }
            ""
        };
        Ok(Section { id, name, payload })
    }

    /// The next section.
    pub fn next(&mut self) -> (r: Option<Result<Section<'a>, Error>>)
        ensures
            sections_step(old(self)@) == (item_view(r), final(self)@),
    {
        if self.0.len() == 0 {
            return None;
        }
        let mut cur = self.0;
        match Self::read(&mut cur) {
            Ok(section) => {
                self.0 = cur;
                Some(Ok(section))
            },
            Err(e) => {
                self.0 = slice_subrange(self.0, 0, 0);
                assert(self.0@ =~= Seq::<u8>::empty());
                Some(Err(e))
            },
        }
    }
}

impl<'a> Section<'a> {
    /// The decoder for this section's contents.
    pub fn content(&self) -> (r: Result<SectionContent<'a>, Error>)
        ensures
            match section_content(self@) {
                Ok(v) => r is Ok && r->Ok_0@ == v,
                Err(e) => r is Err && r->Err_0 == e,
            },
    {
        if self.id == SectionType::Named && !is_debug_name(self.name) {
            return Err(Error::UnknownVariant("section type"));
        }
        let mut iter = self.payload;
        let n = read_varuint(&mut iter)?;
        Ok(
            match self.id {
                SectionType::Type => SectionContent::Type(TypeSection(iter, n as usize)),
                SectionType::Import => SectionContent::Import(ImportSection(iter, n as usize)),
                SectionType::Function => SectionContent::Function(
                    FunctionSection(iter, n as usize),
                ),
                SectionType::Table => SectionContent::Table(
                    TableSection { count: n as u32, entries_raw: iter },
                ),
                SectionType::Memory => SectionContent::Memory(
                    MemorySection { count: n as u32, entries_raw: iter },
                ),
                SectionType::Global => SectionContent::Global(
                    GlobalSection { count: n as u32, entries_raw: iter },
                ),
                SectionType::Export => SectionContent::Export(
                    ExportSection { count: n as u32, entries_raw: iter },
                ),
                SectionType::Start => SectionContent::Start(n as u32),
                SectionType::Element => SectionContent::Elements(
                    ElementSection { count: n as u32, entries_raw: iter },
                ),
                SectionType::Code => SectionContent::Code(
                    CodeSection { count: n as u32, entries_raw: iter },
                ),
                SectionType::Data => SectionContent::Data(
                    DataSection { count: n as u32, entries_raw: iter },
                ),
                SectionType::Named => SectionContent::Name(
                    NameSection { count: n as u32, entries_raw: iter },
                ),
            },
        )
    }
}

} // verus!
