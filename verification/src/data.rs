//! The data section: segments of bytes for memories.

use crate::bytecode::{take_next_op, Op, OpIterView, OpIterator, OpView};
use crate::entries::{exhausted, item_view, ExprEntries};
use crate::error::Error;
use crate::functions::{read_index, take_index};
use crate::varint::{
    is_tail, lemma_tail_of_tail, lemma_take_varuint_tail, read_bytes, read_varuint, take_bytes,
    take_varuint,
};
use vstd::prelude::*;

verus! {

/// The data section: the number of its segments and their bytes.
pub struct DataSection<'a> {
    pub count: u32,
    pub entries_raw: &'a [u8],
}

/// A cursor over a data section. Each segment comes as its memory index,
/// the instructions of its offset expression, and its bytes.
pub struct DataEntryIterator<'a> {
    count: u32,
    opiter: Option<OpIterator<'a>>,
    iter: &'a [u8],
}

/// One item of a data section.
pub enum DataEntry<'a> {
    /// The index of the memory that a segment initializes.
    Index(u32),
    /// An instruction of a segment's offset expression.
    Op(Op<'a>),
    /// The bytes of a segment.
    Data(&'a [u8]),
}

/// What a `DataEntry` holds.
pub enum DataEntryView {
    Index(u32),
    Op(OpView),
    Data(Seq<u8>),
}

impl<'a> View for DataEntry<'a> {
    type V = DataEntryView;

    open spec fn view(&self) -> DataEntryView {
        match self {
            DataEntry::Index(v) => DataEntryView::Index(*v),
            DataEntry::Op(op) => DataEntryView::Op(op@),
            DataEntry::Data(d) => DataEntryView::Data(d@),
        }
    }
}

impl<'a> View for DataSection<'a> {
    type V = ExprEntries;

    open spec fn view(&self) -> ExprEntries {
        ExprEntries { count: self.count as nat, ops: None, bytes: self.entries_raw@ }
    }
}

impl<'a> View for DataEntryIterator<'a> {
    type V = ExprEntries;

    closed spec fn view(&self) -> ExprEntries {
        ExprEntries {
            count: self.count as nat,
            ops: match self.opiter {
                Some(it) => Some(it@),
                None => None,
            },
            bytes: self.iter@,
        }
    }
}

/// The bytes of a segment at the start of `s`, and the bytes after them: an
/// unsigned varint length, then that many bytes.
pub open spec fn take_blob(s: Seq<u8>) -> Result<(Seq<u8>, Seq<u8>), Error> {
    match take_varuint(s) {
        Err(e) => Err(e),
        Ok((size, r1)) => take_bytes(r1, size as int),
    }
}

/// One pull on a data section. Inside an offset expression the next
/// instruction is yielded. When the expression has just ended, the
/// segment's bytes are yielded. Otherwise the memory index of the next
/// segment is yielded, after which its offset expression begins. A failure
/// is yielded once and leaves the sequence exhausted.
pub open spec fn data_step(st: ExprEntries) -> (Option<Result<DataEntryView, Error>>, ExprEntries) {
    match st.ops {
        Some(o) => if o.nesting > 0 {
            match take_next_op(o) {
                Ok((op, after)) => (
                    Some(Ok(DataEntryView::Op(op))),
                    ExprEntries { count: st.count, ops: Some(after), bytes: after.bytes },
                ),
                Err(e) => (Some(Err(e)), exhausted(st.bytes)),
            }
        } else {
            match take_blob(st.bytes) {
                Ok((blob, rest)) => (
                    Some(Ok(DataEntryView::Data(blob))),
                    ExprEntries { count: st.count, ops: None, bytes: rest },
                ),
                Err(e) => (Some(Err(e)), exhausted(st.bytes)),
            }
        },
        None => if st.count == 0 {
            (None, st)
        } else {
            match take_index(st.bytes) {
                Ok((v, rest)) => (
                    Some(Ok(DataEntryView::Index(v))),
                    ExprEntries {
                        count: (st.count - 1) as nat,
                        ops: Some(OpIterView { bytes: rest, nesting: 1 }),
                        bytes: rest,
                    },
                ),
                Err(e) => (Some(Err(e)), exhausted(st.bytes)),
            }
        },
    }
}

impl<'a> DataSection<'a> {
    /// A fresh cursor over the section, at the first segment.
    pub fn entries(&self) -> (r: DataEntryIterator<'a>)
        ensures
            r@ == self@,
    {
        DataEntryIterator { count: self.count, opiter: None, iter: self.entries_raw }
    }
}

impl<'a> DataEntryIterator<'a> {
    /// Reads the bytes of a segment.
    fn read_blob(iter: &mut &'a [u8]) -> (r: Result<&'a [u8], Error>)
        ensures
            match take_blob(old(iter)@) {
                Ok((v, rest)) => r is Ok && r->Ok_0@ == v && final(iter)@ == rest,
                Err(e) => r is Err && r->Err_0 == e,
            },
    {
        let size = read_varuint(iter)?;
        read_bytes(iter, size)
    }

    /// The next memory index, offset instruction or segment contents.
    pub fn next(&mut self) -> (r: Option<Result<DataEntry<'a>, Error>>)
        ensures
            data_step(old(self)@) == (item_view(r), final(self)@),
    {
        match self.opiter.take() {
            Some(mut it) => {
                return match it.next() {
                    Some(Ok(op)) => {
                        self.iter = it.remaining();
                        self.opiter = Some(it);
                        Some(Ok(DataEntry::Op(op)))
                    },
                    Some(Err(e)) => {
                        self.count = 0;
                        Some(Err(e))
                    },
                    None => {
                        let mut cur = self.iter;
                        match Self::read_blob(&mut cur) {
                            Ok(blob) => {
                                self.iter = cur;
                                Some(Ok(DataEntry::Data(blob)))
                            },
                            Err(e) => {
                                self.count = 0;
                                Some(Err(e))
                            },
                        }
                    },
                };
            },
            None => {},
        }
        if self.count == 0 {
            return None;
        }
        let mut cur = self.iter;
        match read_index(&mut cur) {
            Ok(v) => {
                self.count = self.count - 1;
                self.iter = cur;
                self.opiter = Some(OpIterator::new(cur));
                Some(Ok(DataEntry::Index(v)))
            },
            Err(e) => {
                self.count = 0;
                Some(Err(e))
            },
        }
    }
}

/// What `take_blob` leaves is a tail of the input, shorter than it.
pub proof fn lemma_take_blob_tail(s: Seq<u8>)
    requires
        take_blob(s) is Ok,
    ensures
        is_tail(take_blob(s)->Ok_0.1, s),
        take_blob(s)->Ok_0.1.len() < s.len(),
{
    lemma_take_varuint_tail(s);
    let r1 = take_varuint(s)->Ok_0.1;
    let size = take_varuint(s)->Ok_0.0;
    lemma_tail_of_tail(take_bytes(r1, size as int)->Ok_0.1, r1, s);
}

} // verus!
