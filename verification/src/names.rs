//! The debug name section.

use crate::entries::item_view;
use crate::error::Error;
use crate::functions::{lemma_take_index_tail, read_index, take_index};
use crate::varint::{is_tail, lemma_tail_of_tail, lemma_take_string_tail, read_string, take_string};
use vstd::prelude::*;

verus! {

/// The debug name section: the number of its functions and their bytes.
pub struct NameSection<'a> {
    pub count: u32,
    pub entries_raw: &'a [u8],
}

/// A cursor over a name section. Each function comes as its name followed
/// by the names of its locals.
pub struct NameEntryIterator<'a> {
    count: u32,
    local_count: u32,
    iter: &'a [u8],
}

/// One item of a name section.
pub enum NameEntry<'a> {
    Function(&'a str),
    Local(&'a str),
}

/// What a `NameEntry` holds.
pub enum NameEntryView {
    Function(Seq<char>),
    Local(Seq<char>),
}

/// What a `NameEntryIterator` holds: the functions still to come, the
/// locals still to come of the function it is in, and the bytes not yet
/// decoded.
pub struct NamesView {
    pub count: nat,
    pub local_count: nat,
    pub bytes: Seq<u8>,
}

impl<'a> View for NameEntry<'a> {
    type V = NameEntryView;

    open spec fn view(&self) -> NameEntryView {
        match self {
            NameEntry::Function(s) => NameEntryView::Function(s@),
            NameEntry::Local(s) => NameEntryView::Local(s@),
        }
    }
}

impl<'a> View for NameSection<'a> {
    type V = NamesView;

    open spec fn view(&self) -> NamesView {
        NamesView { count: self.count as nat, local_count: 0, bytes: self.entries_raw@ }
    }
}

impl<'a> View for NameEntryIterator<'a> {
    type V = NamesView;

    closed spec fn view(&self) -> NamesView {
        NamesView {
            count: self.count as nat,
            local_count: self.local_count as nat,
            bytes: self.iter@,
        }
    }
}

/// A function's name at the start of `s` with the number of its locals, and
/// the bytes after them.
pub open spec fn take_function_name(s: Seq<u8>) -> Result<((Seq<char>, u32), Seq<u8>), Error> {
    match take_string(s) {
        Err(e) => Err(e),
        Ok((name, r1)) => match take_index(r1) {
            Err(e) => Err(e),
            Ok((locals, r2)) => Ok(((name, locals), r2)),
        },
    }
}

/// One pull on a name section: nothing once no function and no local is
/// left; the next local's name while the function has one; else the next
/// function's name, after which its locals follow. A failure is yielded
/// once and leaves the sequence exhausted.
pub open spec fn names_step(st: NamesView) -> (Option<Result<NameEntryView, Error>>, NamesView) {
    if st.count == 0 && st.local_count == 0 {
        (None, st)
    } else if st.local_count > 0 {
        match take_string(st.bytes) {
            Ok((name, rest)) => (
                Some(Ok(NameEntryView::Local(name))),
                NamesView {
                    count: st.count,
                    local_count: (st.local_count - 1) as nat,
                    bytes: rest,
                },
            ),
            Err(e) => (Some(Err(e)), NamesView { count: 0, local_count: 0, bytes: st.bytes }),
        }
    } else {
        match take_function_name(st.bytes) {
            Ok(((name, locals), rest)) => (
                Some(Ok(NameEntryView::Function(name))),
                NamesView {
                    count: (st.count - 1) as nat,
                    local_count: locals as nat,
                    bytes: rest,
                },
            ),
            Err(e) => (Some(Err(e)), NamesView { count: 0, local_count: 0, bytes: st.bytes }),
        }
    }
}

impl<'a> NameSection<'a> {
    /// A fresh cursor over the section, at the first function.
    pub fn entries(&self) -> (r: NameEntryIterator<'a>)
        ensures
            r@ == self@,
    {
        NameEntryIterator { count: self.count, local_count: 0, iter: self.entries_raw }
    }
}

impl<'a> NameEntryIterator<'a> {
    /// Reads a function's name and the number of its locals.
    fn read_function(iter: &mut &'a [u8]) -> (r: Result<(&'a str, u32), Error>)
        ensures
            match take_function_name(old(iter)@) {
                Ok(((name, locals), rest)) => r is Ok && r->Ok_0.0@ == name && r->Ok_0.1 == locals
                    && final(iter)@ == rest,
                Err(e) => r is Err && r->Err_0 == e,
            },
    {
        let name = read_string(iter)?;
        let locals = read_index(iter)?;
        Ok((name, locals))
    }

    /// The next function or local name.
    pub fn next(&mut self) -> (r: Option<Result<NameEntry<'a>, Error>>)
        ensures
            names_step(old(self)@) == (item_view(r), final(self)@),
    {
        if self.count == 0 && self.local_count == 0 {
            return None;
        }
        let mut cur = self.iter;
        if self.local_count > 0 {
            return match read_string(&mut cur) {
                Ok(name) => {
                    self.local_count = self.local_count - 1;
                    self.iter = cur;
                    Some(Ok(NameEntry::Local(name)))
                },
                Err(e) => {
                    self.count = 0;
                    self.local_count = 0;
                    Some(Err(e))
                },
            };
        }
        match Self::read_function(&mut cur) {
            Ok((name, locals)) => {
                self.count = self.count - 1;
                self.local_count = locals;
                self.iter = cur;
                Some(Ok(NameEntry::Function(name)))
            },
            Err(e) => {
                self.count = 0;
                self.local_count = 0;
                Some(Err(e))
            },
        }
    }
}

/// What `take_function_name` leaves is a tail of the input, shorter than
/// it.
pub proof fn lemma_take_function_name_tail(s: Seq<u8>)
    requires
        take_function_name(s) is Ok,
    ensures
        is_tail(take_function_name(s)->Ok_0.1, s),
        take_function_name(s)->Ok_0.1.len() < s.len(),
{
    lemma_take_string_tail(s);
    let r1 = take_string(s)->Ok_0.1;
    lemma_take_index_tail(r1);
    lemma_tail_of_tail(take_index(r1)->Ok_0.1, r1, s);
}

} // verus!
