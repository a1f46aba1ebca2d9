//! The import section.

use crate::entries::{entries_step, item_view, Entries};
use crate::enums::{ExternalKind, ValueType};
use crate::error::Error;
use crate::types::{read_value_type, take_value_type};
use crate::varint::{
    is_tail, lemma_tail_of_tail, lemma_take_string_tail, lemma_take_varuint_tail, read_string,
    read_u8, read_varuint, take_string, take_u8, take_varuint,
};
use vstd::prelude::*;

verus! {

/// The import section: the bytes of its entries and their number.
pub struct ImportSection<'a>(pub &'a [u8], pub usize);

/// A cursor over the entries of an import section.
pub struct ImportEntryIterator<'a>(&'a [u8], usize);

/// One import: where it comes from and what it is.
pub struct ImportEntry<'a> {
    pub module: &'a str,
    pub field: &'a str,
    pub contents: ImportEntryContents,
}

/// What is imported.
#[derive(Clone, Copy, Debug, PartialEq, Eq)]
pub enum ImportEntryContents {
    /// A function, by the index of its type.
    Function(u32),
    Table { element_type: u8, limits: ResizableLimits },
    Memory(ResizableLimits),
    Global { ty: ValueType, mutable: bool },
}

/// The size limits of a table or memory.
#[derive(Clone, Copy, Debug, PartialEq, Eq)]
pub struct ResizableLimits {
    pub initial: u32,
    pub maximum: Option<u32>,
}

/// What an `ImportEntry` holds.
pub struct ImportEntryView {
    pub module: Seq<char>,
    pub field: Seq<char>,
    pub contents: ImportEntryContents,
}

impl<'a> View for ImportEntry<'a> {
    type V = ImportEntryView;

    open spec fn view(&self) -> ImportEntryView {
        ImportEntryView { module: self.module@, field: self.field@, contents: self.contents }
    }
}

impl<'a> View for ImportSection<'a> {
    type V = Entries;

    open spec fn view(&self) -> Entries {
        Entries { count: self.1 as nat, bytes: self.0@ }
    }
}

impl<'a> View for ImportEntryIterator<'a> {
    type V = Entries;

    closed spec fn view(&self) -> Entries {
        Entries { count: self.1 as nat, bytes: self.0@ }
    }
}

/// Resizable limits at the start of `s`, and the bytes after them: flags,
/// the initial size, and a maximum if and only if the lowest flag is set.
pub open spec fn take_limits(s: Seq<u8>) -> Result<(ResizableLimits, Seq<u8>), Error> {
    match take_varuint(s) {
        Err(e) => Err(e),
        Ok((flags, r1)) => match take_varuint(r1) {
            Err(e) => Err(e),
            Ok((initial, r2)) => if flags & 0x1 != 0 {
                match take_varuint(r2) {
                    Err(e) => Err(e),
                    Ok((maximum, r3)) => Ok(
                        (
                            ResizableLimits {
                                initial: initial as u32,
                                maximum: Some(maximum as u32),
                            },
                            r3,
                        ),
                    ),
                }
            } else {
                Ok((ResizableLimits { initial: initial as u32, maximum: None }, r2))
            },
        },
    }
}

/// The description of an import of the given kind at the start of `s`, and
/// the bytes after it.
pub open spec fn take_import_contents(kind: ExternalKind, s: Seq<u8>) -> Result<
    (ImportEntryContents, Seq<u8>),
    Error,
> {
    match kind {
        ExternalKind::Function => match take_varuint(s) {
            Err(e) => Err(e),
            Ok((index, rest)) => Ok((ImportEntryContents::Function(index as u32), rest)),
        },
        ExternalKind::Table => match take_u8(s) {
            Err(e) => Err(e),
            Ok((element_type, r1)) => match take_limits(r1) {
                Err(e) => Err(e),
                Ok((limits, r2)) => Ok((ImportEntryContents::Table { element_type, limits }, r2)),
            },
        },
        ExternalKind::Memory => match take_limits(s) {
            Err(e) => Err(e),
            Ok((limits, rest)) => Ok((ImportEntryContents::Memory(limits), rest)),
        },
        ExternalKind::Global => match take_value_type(s) {
            Err(e) => Err(e),
            Ok((ty, r1)) => match take_varuint(r1) {
                Err(e) => Err(e),
                Ok((mutable, r2)) => Ok(
                    (ImportEntryContents::Global { ty, mutable: mutable != 0 }, r2),
                ),
            },
        },
    }
}

/// An external kind at the start of `s`, and the bytes after it.
pub open spec fn take_external_kind(s: Seq<u8>) -> Result<(ExternalKind, Seq<u8>), Error> {
    match take_u8(s) {
        Err(e) => Err(e),
        Ok((b, rest)) => match ExternalKind::spec_from_int(b) {
            None => Err(Error::UnknownVariant("external kind")),
            Some(k) => Ok((k, rest)),
        },
    }
}

/// An import entry at the start of `s`, and the bytes after it: module
/// name, field name, kind byte, and the description that the kind asks for.
pub open spec fn take_import_entry(s: Seq<u8>) -> Result<(ImportEntryView, Seq<u8>), Error> {
    match take_string(s) {
        Err(e) => Err(e),
        Ok((module, r1)) => match take_string(r1) {
            Err(e) => Err(e),
            Ok((field, r2)) => match take_external_kind(r2) {
                Err(e) => Err(e),
                Ok((kind, r3)) => match take_import_contents(kind, r3) {
                    Err(e) => Err(e),
                    Ok((contents, r4)) => Ok((ImportEntryView { module, field, contents }, r4)),
                },
            },
        },
    }
}

/// Reads one external kind byte.
pub(crate) fn read_external_kind(iter: &mut &[u8]) -> (r: Result<ExternalKind, Error>)
    ensures
        match take_external_kind(old(iter)@) {
            Ok((k, rest)) => r == Ok::<ExternalKind, Error>(k) && final(iter)@ == rest,
            Err(e) => r == Err::<ExternalKind, Error>(e),
        },
{
    let b = match read_u8(iter) {
        Ok(b) => b,
        Err(e) => return Err(e),
    };
    match ExternalKind::from_int(b) {
        Some(k) => Ok(k),
        None => Err(Error::UnknownVariant("external kind")),
    }
}

/// Reads one import entry.
fn read_import_entry<'a>(iter: &mut &'a [u8]) -> (r: Result<ImportEntry<'a>, Error>)
    ensures
        match take_import_entry(old(iter)@) {
            Ok((v, rest)) => r is Ok && r->Ok_0@ == v && final(iter)@ == rest,
            Err(e) => r is Err && r->Err_0 == e,
        },
{
    let module = read_string(iter)?;
    let field = read_string(iter)?;
    let kind = read_external_kind(iter)?;
    let contents = match kind {
        ExternalKind::Function => ImportEntryContents::Function(read_varuint(iter)? as u32),
        ExternalKind::Table => {
            let element_type = read_u8(iter)?;
            let limits = ResizableLimits::parse(iter)?;
            ImportEntryContents::Table { element_type, limits }
        },
        ExternalKind::Memory => ImportEntryContents::Memory(ResizableLimits::parse(iter)?),
        ExternalKind::Global => {
            let ty = read_value_type(iter)?;
            let mutable = read_varuint(iter)? != 0;
            ImportEntryContents::Global { ty, mutable }
        },
    };
    Ok(ImportEntry { module, field, contents })
}

/// One pull on the entries of an import section: nothing once the count is
/// used up, else the next import. A failure is yielded once and leaves the
/// sequence exhausted.
pub open spec fn imports_step(st: Entries) -> (Option<Result<ImportEntryView, Error>>, Entries) {
    entries_step(st, |s: Seq<u8>| take_import_entry(s))
}

impl<'a> ImportSection<'a> {
    /// A fresh cursor over the entries, at the first one.
    pub fn entries(&self) -> (r: ImportEntryIterator<'a>)
        ensures
            r@ == self@,
    {
        ImportEntryIterator(self.0, self.1)
    }
}

impl<'a> ImportEntryIterator<'a> {
    /// The next import.
    pub fn next(&mut self) -> (r: Option<Result<ImportEntry<'a>, Error>>)
        ensures
            imports_step(old(self)@) == (
                item_view(r),
                final(self)@,
            ),
    {
        if self.1 == 0 {
            return None;
        }
        let mut cur = self.0;
        match read_import_entry(&mut cur) {
            Ok(v) => {
                self.0 = cur;
                self.1 = self.1 - 1;
                Some(Ok(v))
            },
            Err(e) => {
                self.1 = 0;
                Some(Err(e))
            },
        }
    }
}

impl ResizableLimits {
    /// Reads resizable limits and moves `iter` past them. On failure `iter`
    /// stays where it was.
    pub fn parse(iter: &mut &[u8]) -> (r: Result<ResizableLimits, Error>)
        ensures
            match take_limits(old(iter)@) {
                Ok((v, rest)) => r == Ok::<ResizableLimits, Error>(v) && final(iter)@ == rest,
                Err(e) => r == Err::<ResizableLimits, Error>(e) && final(iter)@ == old(iter)@,
            },
    {
        let mut cur = *iter;
        let flags = match read_varuint(&mut cur) {
            Ok(v) => v,
            Err(e) => return Err(e),
        };
        let initial = match read_varuint(&mut cur) {
            Ok(v) => v,
            Err(e) => return Err(e),
        };
        let maximum = if flags & 0x1 != 0 {
            match read_varuint(&mut cur) {
                Ok(v) => Some(v as u32),
                Err(e) => return Err(e),
            }
        } else {
            None
        };
        *iter = cur;
        Ok(ResizableLimits { initial: initial as u32, maximum })
    }
}

/// What `take_limits` leaves is a tail of the input, shorter than it.
pub proof fn lemma_take_limits_tail(s: Seq<u8>)
    requires
        take_limits(s) is Ok,
    ensures
        is_tail(take_limits(s)->Ok_0.1, s),
        take_limits(s)->Ok_0.1.len() < s.len(),
{
    lemma_take_varuint_tail(s);
    let r1 = take_varuint(s)->Ok_0.1;
    lemma_take_varuint_tail(r1);
    let r2 = take_varuint(r1)->Ok_0.1;
    lemma_tail_of_tail(r2, r1, s);
    if take_varuint(s)->Ok_0.0 & 0x1 != 0 {
        lemma_take_varuint_tail(r2);
        lemma_tail_of_tail(take_varuint(r2)->Ok_0.1, r2, s);
    }
}

/// What `take_import_contents` leaves is a tail of the input, shorter than
/// it.
pub proof fn lemma_take_import_contents_tail(kind: ExternalKind, s: Seq<u8>)
    requires
        take_import_contents(kind, s) is Ok,
    ensures
        is_tail(take_import_contents(kind, s)->Ok_0.1, s),
        take_import_contents(kind, s)->Ok_0.1.len() < s.len(),
{
    match kind {
        ExternalKind::Function => {
            lemma_take_varuint_tail(s);
        },
        ExternalKind::Table => {
            let r1 = s.skip(1);
            lemma_take_limits_tail(r1);
            lemma_tail_of_tail(take_limits(r1)->Ok_0.1, r1, s);
        },
        ExternalKind::Memory => {
            lemma_take_limits_tail(s);
        },
        ExternalKind::Global => {
            let r1 = s.skip(1);
            lemma_take_varuint_tail(r1);
            lemma_tail_of_tail(take_varuint(r1)->Ok_0.1, r1, s);
        },
    }
}

/// What `take_import_entry` leaves is a tail of the input, shorter than it.
pub proof fn lemma_take_import_entry_tail(s: Seq<u8>)
    requires
        take_import_entry(s) is Ok,
    ensures
        is_tail(take_import_entry(s)->Ok_0.1, s),
        take_import_entry(s)->Ok_0.1.len() < s.len(),
{
    lemma_take_string_tail(s);
    let r1 = take_string(s)->Ok_0.1;
    lemma_take_string_tail(r1);
    let r2 = take_string(r1)->Ok_0.1;
    lemma_tail_of_tail(r2, r1, s);
    let kind = take_external_kind(r2)->Ok_0.0;
    let r3 = r2.skip(1);
    lemma_tail_of_tail(r3, r2, s);
    lemma_take_import_contents_tail(kind, r3);
    lemma_tail_of_tail(take_import_contents(kind, r3)->Ok_0.1, r3, s);
}

} // verus!
