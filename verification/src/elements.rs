//! The element section: segments of function indices for tables.

use crate::bytecode::{take_next_op, Op, OpIterView, OpIterator, OpView};
use crate::entries::item_view;
use crate::error::Error;
use crate::functions::{read_index, take_index};
use crate::varint::{read_varuint, take_varuint};
use vstd::prelude::*;

verus! {

/// The element section: the number of its segments and their bytes.
pub struct ElementSection<'a> {
    pub count: u32,
    pub entries_raw: &'a [u8],
}

/// A cursor over an element section. Each segment comes as its table
/// index, the instructions of its offset expression, and its function
/// indices.
pub struct ElementEntryIterator<'a> {
    count: u32,
    opiter: Option<OpIterator<'a>>,
    elems: usize,
    iter: &'a [u8],
}

/// One item of an element section.
pub enum ElementEntry<'a> {
    /// The index of the table that a segment initializes.
    Index(u32),
    /// An instruction of a segment's offset expression.
    Op(Op<'a>),
    /// A function index of a segment.
    Elem(u32),
}

/// What an `ElementEntry` holds.
pub enum ElementEntryView {
    Index(u32),
    Op(OpView),
    Elem(u32),
}

/// What an `ElementEntryIterator` holds: the segments still to come, the
/// offset expression it is inside of or has just finished, the function
/// indices still to come in the segment, and the bytes not yet decoded.
pub struct ElementsView {
    pub count: nat,
    pub ops: Option<OpIterView>,
    pub elems: nat,
    pub bytes: Seq<u8>,
}

impl<'a> View for ElementEntry<'a> {
    type V = ElementEntryView;

    open spec fn view(&self) -> ElementEntryView {
        match self {
            ElementEntry::Index(v) => ElementEntryView::Index(*v),
            ElementEntry::Op(op) => ElementEntryView::Op(op@),
            ElementEntry::Elem(v) => ElementEntryView::Elem(*v),
        }
    }
}

impl<'a> View for ElementSection<'a> {
    type V = ElementsView;

    open spec fn view(&self) -> ElementsView {
        ElementsView { count: self.count as nat, ops: None, elems: 0, bytes: self.entries_raw@ }
    }
}

impl<'a> View for ElementEntryIterator<'a> {
    type V = ElementsView;

    closed spec fn view(&self) -> ElementsView {
        ElementsView {
            count: self.count as nat,
            ops: match self.opiter {
                Some(it) => Some(it@),
                None => None,
            },
            elems: self.elems as nat,
            bytes: self.iter@,
        }
    }
}

/// The state that a failure leaves the cursor in: nothing more to yield.
pub open spec fn elements_exhausted(bytes: Seq<u8>) -> ElementsView {
    ElementsView { count: 0, ops: None, elems: 0, bytes }
}

/// One pull outside an offset expression: the next function index of the
/// segment while there is one, else the table index of the next segment,
/// after which its offset expression begins.
pub open spec fn elements_between(st: ElementsView) -> (
    Option<Result<ElementEntryView, Error>>,
    ElementsView,
) {
    if st.elems > 0 {
        match take_index(st.bytes) {
            Ok((v, rest)) => (
                Some(Ok(ElementEntryView::Elem(v))),
                ElementsView {
                    count: st.count,
                    ops: None,
                    elems: (st.elems - 1) as nat,
                    bytes: rest,
                },
            ),
            Err(e) => (Some(Err(e)), elements_exhausted(st.bytes)),
        }
    } else if st.count == 0 {
        (None, ElementsView { count: 0, ops: None, elems: 0, bytes: st.bytes })
    } else {
        match take_index(st.bytes) {
            Ok((v, rest)) => (
                Some(Ok(ElementEntryView::Index(v))),
                ElementsView {
                    count: (st.count - 1) as nat,
                    ops: Some(OpIterView { bytes: rest, nesting: 1 }),
                    elems: 0,
                    bytes: rest,
                },
            ),
            Err(e) => (Some(Err(e)), elements_exhausted(st.bytes)),
        }
    }
}

/// One pull on an element section. Inside an offset expression the next
/// instruction is yielded. When the expression has just ended, the number
/// of function indices is read first. A failure is yielded once and leaves
/// the sequence exhausted.
pub open spec fn elements_step(st: ElementsView) -> (
    Option<Result<ElementEntryView, Error>>,
    ElementsView,
) {
    match st.ops {
        Some(o) => if o.nesting > 0 {
            match take_next_op(o) {
                Ok((op, after)) => (
                    Some(Ok(ElementEntryView::Op(op))),
                    ElementsView {
                        count: st.count,
                        ops: Some(after),
                        elems: st.elems,
                        bytes: after.bytes,
                    },
                ),
                Err(e) => (Some(Err(e)), elements_exhausted(st.bytes)),
            }
        } else {
            match take_varuint(st.bytes) {
                Ok((n, rest)) => elements_between(
                    ElementsView {
                        count: st.count,
                        ops: None,
                        elems: (n as usize) as nat,
                        bytes: rest,
                    },
                ),
                Err(e) => (Some(Err(e)), elements_exhausted(st.bytes)),
            }
        },
        None => elements_between(st),
    }
}

impl<'a> ElementSection<'a> {
    /// A fresh cursor over the section, at the first segment.
    pub fn entries(&self) -> (r: ElementEntryIterator<'a>)
        ensures
            r@ == self@,
    {
        ElementEntryIterator { count: self.count, opiter: None, elems: 0, iter: self.entries_raw }
    }
}

impl<'a> ElementEntryIterator<'a> {
    /// Leaves the cursor with nothing more to yield.
    fn fail(&mut self)
        ensures
            final(self)@ == elements_exhausted(old(self)@.bytes),
    {
        self.count = 0;
        self.opiter = None;
        self.elems = 0;
    }

    /// The next table index, offset instruction or function index.
    pub fn next(&mut self) -> (r: Option<Result<ElementEntry<'a>, Error>>)
        ensures
            elements_step(old(self)@) == (item_view(r), final(self)@),
    {
        match self.opiter.take() {
            Some(mut it) => match it.next() {
                Some(Ok(op)) => {
                    self.iter = it.remaining();
                    self.opiter = Some(it);
                    return Some(Ok(ElementEntry::Op(op)));
                },
                Some(Err(e)) => {
                    self.fail();
                    return Some(Err(e));
                },
                None => {
                    let mut cur = self.iter;
                    match read_varuint(&mut cur) {
                        Ok(n) => {
                            self.elems = n as usize;
                            self.iter = cur;
                        },
                        Err(e) => {
                            self.fail();
                            return Some(Err(e));
                        },
                    }
                },
            },
            None => {},
        }
        if self.elems > 0 {
            let mut cur = self.iter;
            return match read_index(&mut cur) {
                Ok(v) => {
                    self.elems = self.elems - 1;
                    self.iter = cur;
                    Some(Ok(ElementEntry::Elem(v)))
                },
                Err(e) => {
                    self.fail();
                    Some(Err(e))
                },
            };
        }
        if self.count == 0 {
            return None;
        }
        let mut cur = self.iter;
        match read_index(&mut cur) {
            Ok(v) => {
                self.count = self.count - 1;
                self.iter = cur;
                self.opiter = Some(OpIterator::new(cur));
                Some(Ok(ElementEntry::Index(v)))
            },
            Err(e) => {
                self.fail();
                Some(Err(e))
            },
        }
    }
}

} // verus!
