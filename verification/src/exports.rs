//! The export section.

use crate::entries::{entries_step, item_view, Entries};
use crate::enums::ExternalKind;
use crate::error::Error;
use crate::functions::{lemma_take_index_tail, read_index, take_index};
use crate::imports::{read_external_kind, take_external_kind};
use crate::varint::{is_tail, lemma_tail_of_tail, lemma_take_string_tail, read_string, take_string};
use vstd::prelude::*;

verus! {

/// The export section: the number of its entries and their bytes.
pub struct ExportSection<'a> {
    pub count: u32,
    pub entries_raw: &'a [u8],
}

/// A cursor over the entries of an export section.
pub struct ExportEntryIterator<'a> {
    count: u32,
    iter: &'a [u8],
}

/// One export: its name, what kind of thing it is, and that thing's index.
pub struct ExportEntry<'a> {
    pub field: &'a str,
    pub kind: ExternalKind,
    pub index: u32,
}

/// What an `ExportEntry` holds.
pub struct ExportEntryView {
    pub field: Seq<char>,
    pub kind: ExternalKind,
    pub index: u32,
}

impl<'a> View for ExportEntry<'a> {
    type V = ExportEntryView;

    open spec fn view(&self) -> ExportEntryView {
        ExportEntryView { field: self.field@, kind: self.kind, index: self.index }
    }
}

impl<'a> View for ExportSection<'a> {
    type V = Entries;

    open spec fn view(&self) -> Entries {
        Entries { count: self.count as nat, bytes: self.entries_raw@ }
    }
}

impl<'a> View for ExportEntryIterator<'a> {
    type V = Entries;

    closed spec fn view(&self) -> Entries {
        Entries { count: self.count as nat, bytes: self.iter@ }
    }
}

/// An export entry at the start of `s`, and the bytes after it: the field
/// name, the kind byte, and the index.
pub open spec fn take_export_entry(s: Seq<u8>) -> Result<(ExportEntryView, Seq<u8>), Error> {
    match take_string(s) {
        Err(e) => Err(e),
        Ok((field, r1)) => match take_external_kind(r1) {
            Err(e) => Err(e),
            Ok((kind, r2)) => match take_index(r2) {
                Err(e) => Err(e),
                Ok((index, r3)) => Ok((ExportEntryView { field, kind, index }, r3)),
            },
        },
    }
}

/// One pull on the entries of an export section: nothing once the count is
/// used up, else the next export. A failure is yielded once and leaves the
/// sequence exhausted.
pub open spec fn exports_step(st: Entries) -> (Option<Result<ExportEntryView, Error>>, Entries) {
    entries_step(st, |s: Seq<u8>| take_export_entry(s))
}

impl<'a> ExportSection<'a> {
    /// A fresh cursor over the entries, at the first one.
    pub fn entries(&self) -> (r: ExportEntryIterator<'a>)
        ensures
            r@ == self@,
    {
        ExportEntryIterator { count: self.count, iter: self.entries_raw }
    }
}

impl<'a> ExportEntryIterator<'a> {
    /// Reads one export entry.
    fn read(iter: &mut &'a [u8]) -> (r: Result<ExportEntry<'a>, Error>)
        ensures
            match take_export_entry(old(iter)@) {
                Ok((v, rest)) => r is Ok && r->Ok_0@ == v && final(iter)@ == rest,
                Err(e) => r is Err && r->Err_0 == e,
            },
    {
        let field = read_string(iter)?;
        let kind = read_external_kind(iter)?;
        let index = read_index(iter)?;
        Ok(ExportEntry { field, kind, index })
    }

    /// The next export.
    pub fn next(&mut self) -> (r: Option<Result<ExportEntry<'a>, Error>>)
        ensures
            exports_step(old(self)@) == (
                item_view(r),
                final(self)@,
            ),
    {
        if self.count == 0 {
            return None;
        }
        let mut cur = self.iter;
        match Self::read(&mut cur) {
            Ok(v) => {
                self.iter = cur;
                self.count = self.count - 1;
                Some(Ok(v))
            },
            Err(e) => {
                self.count = 0;
                Some(Err(e))
            },
        }
    }
}

/// What `take_export_entry` leaves is a tail of the input, shorter than it.
pub proof fn lemma_take_export_entry_tail(s: Seq<u8>)
    requires
        take_export_entry(s) is Ok,
    ensures
        is_tail(take_export_entry(s)->Ok_0.1, s),
        take_export_entry(s)->Ok_0.1.len() < s.len(),
{
    lemma_take_string_tail(s);
    let r1 = take_string(s)->Ok_0.1;
    let r2 = r1.skip(1);
    lemma_tail_of_tail(r2, r1, s);
    lemma_take_index_tail(r2);
    lemma_tail_of_tail(take_index(r2)->Ok_0.1, r2, s);
}

} // verus!
