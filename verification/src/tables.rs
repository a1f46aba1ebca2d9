//! The table section.

use crate::entries::{entries_step, Entries};
use crate::error::Error;
use crate::imports::{lemma_take_limits_tail, take_limits, ResizableLimits};
use crate::varint::{is_tail, lemma_tail_of_tail, read_u8, take_u8};
use vstd::prelude::*;

verus! {

/// The table section: the number of its entries and their bytes.
pub struct TableSection<'a> {
    pub count: u32,
    pub entries_raw: &'a [u8],
}

/// A cursor over the entries of a table section.
pub struct TableEntryIterator<'a> {
    count: u32,
    iter: &'a [u8],
}

/// One table: its element type byte and its size limits.
#[derive(Clone, Copy, Debug, PartialEq, Eq)]
pub struct TableEntry {
    pub ty: u8,
    pub limits: ResizableLimits,
}

impl<'a> View for TableSection<'a> {
    type V = Entries;

    open spec fn view(&self) -> Entries {
        Entries { count: self.count as nat, bytes: self.entries_raw@ }
    }
}

impl<'a> View for TableEntryIterator<'a> {
    type V = Entries;

    closed spec fn view(&self) -> Entries {
        Entries { count: self.count as nat, bytes: self.iter@ }
    }
}

/// A table entry at the start of `s`, and the bytes after it: the element
/// type byte, then the limits.
pub open spec fn take_table_entry(s: Seq<u8>) -> Result<(TableEntry, Seq<u8>), Error> {
    match take_u8(s) {
        Err(e) => Err(e),
        Ok((ty, r1)) => match take_limits(r1) {
            Err(e) => Err(e),
            Ok((limits, r2)) => Ok((TableEntry { ty, limits }, r2)),
        },
    }
}

/// One pull on the entries of a table section: nothing once the count is
/// used up, else the next table. A failure is yielded once and leaves the
/// sequence exhausted.
pub open spec fn tables_step(st: Entries) -> (Option<Result<TableEntry, Error>>, Entries) {
    entries_step(st, |s: Seq<u8>| take_table_entry(s))
}

impl<'a> TableSection<'a> {
    /// A fresh cursor over the entries, at the first one.
    pub fn entries(&self) -> (r: TableEntryIterator<'a>)
        ensures
            r@ == self@,
    {
        TableEntryIterator { count: self.count, iter: self.entries_raw }
    }
}

impl<'a> TableEntryIterator<'a> {
    /// Reads one table entry.
    fn read(iter: &mut &[u8]) -> (r: Result<TableEntry, Error>)
        ensures
            match take_table_entry(old(iter)@) {
                Ok((v, rest)) => r == Ok::<TableEntry, Error>(v) && final(iter)@ == rest,
                Err(e) => r == Err::<TableEntry, Error>(e),
            },
    {
        let ty = read_u8(iter)?;
        let limits = ResizableLimits::parse(iter)?;
        Ok(TableEntry { ty, limits })
    }

    /// The next table.
    pub fn next(&mut self) -> (r: Option<Result<TableEntry, Error>>)
        ensures
            tables_step(old(self)@) == (r, final(self)@),
    {
        if self.count == 0 {
            return None;
        }
        let mut cur = self.iter;
        match Self::read(&mut cur) {
            Ok(v) => {
                self.iter = cur;
                self.count = self.count - 1;
                Some(Ok(v))
            },
            Err(e) => {
                self.count = 0;
                Some(Err(e))
            },
        }
    }
}

/// What `take_table_entry` leaves is a tail of the input, shorter than it.
pub proof fn lemma_take_table_entry_tail(s: Seq<u8>)
    requires
        take_table_entry(s) is Ok,
    ensures
        is_tail(take_table_entry(s)->Ok_0.1, s),
        take_table_entry(s)->Ok_0.1.len() < s.len(),
{
    let r1 = s.skip(1);
    lemma_take_limits_tail(r1);
    lemma_tail_of_tail(take_limits(r1)->Ok_0.1, r1, s);
}

} // verus!
