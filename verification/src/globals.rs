//! The global section: declarations with their initializers.

use crate::bytecode::{take_next_op, Op, OpIterView, OpIterator, OpView};
use crate::enums::ValueType;
use crate::error::Error;
use crate::entries::{exhausted, in_expression, item_view, ExprEntries};
use crate::varint::{
    is_tail, lemma_tail_of_tail, lemma_take_varuint_tail, read_u8, read_varuint, take_u8,
    take_varuint,
};
use vstd::prelude::*;

verus! {

/// The global section: the number of its entries and their bytes.
pub struct GlobalSection<'a> {
    pub count: u32,
    pub entries_raw: &'a [u8],
}

/// A cursor over a global section. Each global comes as its declaration
/// followed by the instructions of its initializer.
pub struct GlobalEntryIterator<'a> {
    count: u32,
    opiter: Option<OpIterator<'a>>,
    iter: &'a [u8],
}

/// The declaration of a global variable.
#[derive(Clone, Copy, Debug, PartialEq, Eq)]
pub struct GlobalEntry {
    pub ty: ValueType,
    pub mutable: bool,
}

/// One item of a global section.
pub enum GlobalEntryEither<'a> {
    Entry(GlobalEntry),
    Op(Op<'a>),
}

/// What a `GlobalEntryEither` holds.
pub enum GlobalEntryEitherView {
    Entry(GlobalEntry),
    Op(OpView),
}

impl<'a> View for GlobalEntryEither<'a> {
    type V = GlobalEntryEitherView;

    open spec fn view(&self) -> GlobalEntryEitherView {
        match self {
            GlobalEntryEither::Entry(e) => GlobalEntryEitherView::Entry(*e),
            GlobalEntryEither::Op(op) => GlobalEntryEitherView::Op(op@),
        }
    }
}

impl<'a> View for GlobalSection<'a> {
    type V = ExprEntries;

    open spec fn view(&self) -> ExprEntries {
        ExprEntries { count: self.count as nat, ops: None, bytes: self.entries_raw@ }
    }
}

impl<'a> View for GlobalEntryIterator<'a> {
    type V = ExprEntries;

    closed spec fn view(&self) -> ExprEntries {
        ExprEntries {
            count: self.count as nat,
            ops: match self.opiter {
                Some(it) => Some(it@),
                None => None,
            },
            bytes: self.iter@,
        }
    }
}

/// A global declaration at the start of `s`, and the bytes after it: the
/// value type byte and the mutability varint. The type byte is judged after
/// both were read.
pub open spec fn take_global_entry(s: Seq<u8>) -> Result<(GlobalEntry, Seq<u8>), Error> {
    match take_u8(s) {
        Err(e) => Err(e),
        Ok((b, r1)) => match take_varuint(r1) {
            Err(e) => Err(e),
            Ok((mutable, r2)) => match ValueType::spec_from_int(b) {
                None => Err(Error::UnknownVariant("value type")),
                Some(ty) => Ok((GlobalEntry { ty, mutable: mutable != 0 }, r2)),
            },
        },
    }
}

/// One pull on a global section. Inside an initializer the next instruction
/// is yielded and the cursor follows the instruction stream. Once the
/// initializer has ended, the next declaration is read from where it
/// stopped, and a new initializer begins after it. A failure is yielded
/// once and leaves the sequence exhausted.
pub open spec fn globals_step(st: ExprEntries) -> (
    Option<Result<GlobalEntryEitherView, Error>>,
    ExprEntries,
) {
    if in_expression(st.ops) {
        match take_next_op(st.ops->Some_0) {
            Ok((op, after)) => (
                Some(Ok(GlobalEntryEitherView::Op(op))),
                ExprEntries { count: st.count, ops: Some(after), bytes: after.bytes },
            ),
            Err(e) => (Some(Err(e)), exhausted(st.bytes)),
        }
    } else if st.count == 0 {
        (None, exhausted(st.bytes))
    } else {
        match take_global_entry(st.bytes) {
            Ok((entry, rest)) => (
                Some(Ok(GlobalEntryEitherView::Entry(entry))),
                ExprEntries {
                    count: (st.count - 1) as nat,
                    ops: Some(OpIterView { bytes: rest, nesting: 1 }),
                    bytes: rest,
                },
            ),
            Err(e) => (Some(Err(e)), exhausted(st.bytes)),
        }
    }
}

impl<'a> GlobalSection<'a> {
    /// A fresh cursor over the section, at the first declaration.
    pub fn entries(&self) -> (r: GlobalEntryIterator<'a>)
        ensures
            r@ == self@,
    {
        GlobalEntryIterator { count: self.count, opiter: None, iter: self.entries_raw }
    }
}

impl<'a> GlobalEntryIterator<'a> {
    /// Reads one declaration.
    fn read(iter: &mut &[u8]) -> (r: Result<GlobalEntry, Error>)
        ensures
            match take_global_entry(old(iter)@) {
                Ok((v, rest)) => r == Ok::<GlobalEntry, Error>(v) && final(iter)@ == rest,
                Err(e) => r == Err::<GlobalEntry, Error>(e),
            },
    {
        let b = read_u8(iter)?;
        let mutable = read_varuint(iter)? != 0;
        match ValueType::from_int(b) {
            Some(ty) => Ok(GlobalEntry { ty, mutable }),
            None => Err(Error::UnknownVariant("value type")),
        }
    }

    /// The next declaration or initializer instruction.
    pub fn next(&mut self) -> (r: Option<Result<GlobalEntryEither<'a>, Error>>)
        ensures
            globals_step(old(self)@) == (item_view(r), final(self)@),
    {
        match self.opiter.take() {
            Some(mut it) => match it.next() {
                Some(Ok(op)) => {
                    self.iter = it.remaining();
                    self.opiter = Some(it);
                    return Some(Ok(GlobalEntryEither::Op(op)));
                },
                Some(Err(e)) => {
                    self.count = 0;
                    return Some(Err(e));
                },
                None => {},
            },
            None => {},
        }
        if self.count == 0 {
            return None;
        }
        let mut cur = self.iter;
        match Self::read(&mut cur) {
            Ok(entry) => {
                self.count = self.count - 1;
                self.iter = cur;
                self.opiter = Some(OpIterator::new(cur));
                Some(Ok(GlobalEntryEither::Entry(entry)))
            },
            Err(e) => {
                self.count = 0;
                Some(Err(e))
            },
        }
    }
}

/// What `take_global_entry` leaves is a tail of the input, shorter than it.
pub proof fn lemma_take_global_entry_tail(s: Seq<u8>)
    requires
        take_global_entry(s) is Ok,
    ensures
        is_tail(take_global_entry(s)->Ok_0.1, s),
        take_global_entry(s)->Ok_0.1.len() < s.len(),
{
    let r1 = s.skip(1);
    lemma_take_varuint_tail(r1);
    lemma_tail_of_tail(take_varuint(r1)->Ok_0.1, r1, s);
}

} // verus!
