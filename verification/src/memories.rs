//! The memory section.

use crate::entries::{entries_step, Entries};
use crate::error::Error;
use crate::imports::{take_limits, ResizableLimits};
use vstd::prelude::*;

verus! {

/// The memory section: the number of its entries and their bytes.
pub struct MemorySection<'a> {
    pub count: u32,
    pub entries_raw: &'a [u8],
}

/// A cursor over the entries of a memory section.
pub struct MemoryEntryIterator<'a> {
    count: u32,
    iter: &'a [u8],
}

/// One linear memory: its size limits.
#[derive(Clone, Copy, Debug, PartialEq, Eq)]
pub struct MemoryEntry {
    pub limits: ResizableLimits,
}

impl<'a> View for MemorySection<'a> {
    type V = Entries;

    open spec fn view(&self) -> Entries {
        Entries { count: self.count as nat, bytes: self.entries_raw@ }
    }
}

impl<'a> View for MemoryEntryIterator<'a> {
    type V = Entries;

    closed spec fn view(&self) -> Entries {
        Entries { count: self.count as nat, bytes: self.iter@ }
    }
}

/// A memory entry at the start of `s`, and the bytes after it.
pub open spec fn take_memory_entry(s: Seq<u8>) -> Result<(MemoryEntry, Seq<u8>), Error> {
    match take_limits(s) {
        Err(e) => Err(e),
        Ok((limits, rest)) => Ok((MemoryEntry { limits }, rest)),
    }
}

/// One pull on the entries of a memory section: nothing once the count is
/// used up, else the next memory. A failure is yielded once and leaves the
/// sequence exhausted.
pub open spec fn memories_step(st: Entries) -> (Option<Result<MemoryEntry, Error>>, Entries) {
    entries_step(st, |s: Seq<u8>| take_memory_entry(s))
}

impl<'a> MemorySection<'a> {
    /// A fresh cursor over the entries, at the first one.
    pub fn entries(&self) -> (r: MemoryEntryIterator<'a>)
        ensures
            r@ == self@,
    {
        MemoryEntryIterator { count: self.count, iter: self.entries_raw }
    }
}

impl<'a> MemoryEntryIterator<'a> {
    /// The next memory.
    pub fn next(&mut self) -> (r: Option<Result<MemoryEntry, Error>>)
        ensures
            memories_step(old(self)@) == (r, final(self)@),
    {
        if self.count == 0 {
            return None;
        }
        let mut cur = self.iter;
        match ResizableLimits::parse(&mut cur) {
            Ok(limits) => {
                self.iter = cur;
                self.count = self.count - 1;
                Some(Ok(MemoryEntry { limits }))
            },
            Err(e) => {
                self.count = 0;
                Some(Err(e))
            },
        }
    }
}

} // verus!
