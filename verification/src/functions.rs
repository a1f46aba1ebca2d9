//! The function section: the type of each function.

use crate::entries::{entries_step, Entries};
use crate::error::Error;
use crate::varint::{is_tail, lemma_take_varuint_tail, read_varuint, take_varuint};
use vstd::prelude::*;

verus! {

/// The function section: the bytes of its entries and their number.
pub struct FunctionSection<'a>(pub &'a [u8], pub usize);

/// A cursor over the entries of a function section.
pub struct FunctionEntryIterator<'a>(&'a [u8], usize);

impl<'a> View for FunctionSection<'a> {
    type V = Entries;

    open spec fn view(&self) -> Entries {
        Entries { count: self.1 as nat, bytes: self.0@ }
    }
}

impl<'a> View for FunctionEntryIterator<'a> {
    type V = Entries;

    closed spec fn view(&self) -> Entries {
        Entries { count: self.1 as nat, bytes: self.0@ }
    }
}

/// An index at the start of `s`, and the bytes after it: an unsigned
/// varint, of which the low 32 bits are kept.
pub open spec fn take_index(s: Seq<u8>) -> Result<(u32, Seq<u8>), Error> {
    match take_varuint(s) {
        Err(e) => Err(e),
        Ok((v, rest)) => Ok((v as u32, rest)),
    }
}

/// Reads one index.
pub(crate) fn read_index(iter: &mut &[u8]) -> (r: Result<u32, Error>)
    ensures
        match take_index(old(iter)@) {
            Ok((v, rest)) => r == Ok::<u32, Error>(v) && final(iter)@ == rest,
            Err(e) => r == Err::<u32, Error>(e),
        },
{
    match read_varuint(iter) {
        Ok(v) => Ok(v as u32),
        Err(e) => Err(e),
    }
}

/// One pull on the entries of a function section: nothing once the count is
/// used up, else the next type index. A failure is yielded once and leaves
/// the sequence exhausted.
pub open spec fn functions_step(st: Entries) -> (Option<Result<u32, Error>>, Entries) {
    entries_step(st, |s: Seq<u8>| take_index(s))
}

impl<'a> FunctionSection<'a> {
    /// A fresh cursor over the type indices of the functions, at the first
    /// one.
    pub fn types(&self) -> (r: FunctionEntryIterator<'a>)
        ensures
            r@ == self@,
    {
        FunctionEntryIterator(self.0, self.1)
    }
}

impl<'a> FunctionEntryIterator<'a> {
    /// The type index of the next function.
    pub fn next(&mut self) -> (r: Option<Result<u32, Error>>)
        ensures
            functions_step(old(self)@) == (r, final(self)@),
    {
        if self.1 == 0 {
            return None;
        }
        let mut cur = self.0;
        match read_index(&mut cur) {
            Ok(v) => {
                self.0 = cur;
                self.1 = self.1 - 1;
                Some(Ok(v))
            },
            Err(e) => {
                self.1 = 0;
                Some(Err(e))
            },
        }
    }
}

/// What `take_index` leaves is a tail of the input, shorter than it.
pub proof fn lemma_take_index_tail(s: Seq<u8>)
    requires
        take_index(s) is Ok,
    ensures
        is_tail(take_index(s)->Ok_0.1, s),
        take_index(s)->Ok_0.1.len() < s.len(),
{
    lemma_take_varuint_tail(s);
}

} // verus!
