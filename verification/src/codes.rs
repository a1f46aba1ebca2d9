//! The code section: function bodies.

use crate::bytecode::{op_step, Op, OpIterView, OpIterator, OpView};
use crate::entries::{entries_step, item_view, Entries, ExprEntries};
use crate::enums::ValueType;
use crate::error::Error;
use crate::functions::{read_index, take_index};
use crate::types::{read_value_type, take_value_type};
use crate::varint::{
    is_tail, lemma_tail_of_tail, lemma_take_varuint_tail, read_bytes, read_varuint, take_bytes,
    take_varuint,
};
use vstd::prelude::*;

verus! {

/// The code section: the number of its function bodies and their bytes.
pub struct CodeSection<'a> {
    pub count: u32,
    pub entries_raw: &'a [u8],
}

/// A cursor over the function bodies of a code section.
pub struct CodeIterator<'a> {
    count: u32,
    iter: &'a [u8],
}

/// One function body: the number of its local declarations, and the bytes
/// of those declarations and of the instructions after them.
pub struct FunctionBody<'a> {
    local_count: usize,
    body: &'a [u8],
}

/// A cursor over a function body: first its local declarations, then its
/// instructions.
pub struct FunctionIterator<'a> {
    local_count: usize,
    opiter: Option<OpIterator<'a>>,
    iter: &'a [u8],
}

/// One item of a function body.
pub enum FunctionPart<'a> {
    Local(Local),
    Op(Op<'a>),
}

/// A run of locals of one type.
#[derive(Clone, Copy, Debug, PartialEq, Eq)]
pub struct Local {
    pub count: u32,
    pub ty: ValueType,
}

/// What a `FunctionBody` holds.
pub struct FunctionBodyView {
    pub local_count: nat,
    pub body: Seq<u8>,
}

/// What a `FunctionPart` holds.
pub enum FunctionPartView {
    Local(Local),
    Op(OpView),
}

impl<'a> View for FunctionBody<'a> {
    type V = FunctionBodyView;

    closed spec fn view(&self) -> FunctionBodyView {
        FunctionBodyView { local_count: self.local_count as nat, body: self.body@ }
    }
}

impl<'a> View for FunctionPart<'a> {
    type V = FunctionPartView;

    open spec fn view(&self) -> FunctionPartView {
        match self {
            FunctionPart::Local(l) => FunctionPartView::Local(*l),
            FunctionPart::Op(op) => FunctionPartView::Op(op@),
        }
    }
}

impl<'a> View for CodeSection<'a> {
    type V = Entries;

    open spec fn view(&self) -> Entries {
        Entries { count: self.count as nat, bytes: self.entries_raw@ }
    }
}

impl<'a> View for CodeIterator<'a> {
    type V = Entries;

    closed spec fn view(&self) -> Entries {
        Entries { count: self.count as nat, bytes: self.iter@ }
    }
}

impl<'a> View for FunctionIterator<'a> {
    type V = ExprEntries;

    closed spec fn view(&self) -> ExprEntries {
        ExprEntries {
            count: self.local_count as nat,
            ops: match self.opiter {
                Some(it) => Some(it@),
                None => None,
            },
            bytes: self.iter@,
        }
    }
}

/// A function body at the start of `s`, and the bytes after it: the size of
/// the body, then that many bytes, which begin with the number of local
/// declarations.
pub open spec fn take_function_body(s: Seq<u8>) -> Result<(FunctionBodyView, Seq<u8>), Error> {
    match take_varuint(s) {
        Err(e) => Err(e),
        Ok((size, r1)) => match take_bytes(r1, size as int) {
            Err(e) => Err(e),
            Ok((whole, r2)) => match take_varuint(whole) {
                Err(e) => Err(e),
                Ok((locals, body)) => Ok(
                    (FunctionBodyView { local_count: (locals as usize) as nat, body }, r2),
                ),
            },
        },
    }
}

/// A local declaration at the start of `s`, and the bytes after it: how
/// many locals, then their type.
pub open spec fn take_local(s: Seq<u8>) -> Result<(Local, Seq<u8>), Error> {
    match take_index(s) {
        Err(e) => Err(e),
        Ok((count, r1)) => match take_value_type(r1) {
            Err(e) => Err(e),
            Ok((ty, r2)) => Ok((Local { count, ty }, r2)),
        },
    }
}

/// The state that a failure leaves a function cursor in: no declaration
/// left, and an instruction stream that has ended.
pub open spec fn function_exhausted(bytes: Seq<u8>) -> ExprEntries {
    ExprEntries { count: 0, ops: Some(OpIterView { bytes, nesting: 0 }), bytes }
}

/// One pull on the instructions of a function body, the cursor following
/// the instruction stream.
pub open spec fn function_ops_step(st: ExprEntries, o: OpIterView) -> (
    Option<Result<FunctionPartView, Error>>,
    ExprEntries,
) {
    match op_step(o) {
        (None, _) => (None, ExprEntries { count: st.count, ops: Some(o), bytes: st.bytes }),
        (Some(Ok(op)), after) => (
            Some(Ok(FunctionPartView::Op(op))),
            ExprEntries { count: st.count, ops: Some(after), bytes: after.bytes },
        ),
        (Some(Err(e)), after) => (
            Some(Err(e)),
            ExprEntries { count: st.count, ops: Some(after), bytes: st.bytes },
        ),
    }
}

/// One pull on a function body: the next local declaration while one is
/// left, then the instructions, which begin where the declarations end. A
/// failure is yielded once and leaves the sequence exhausted.
pub open spec fn function_step(st: ExprEntries) -> (
    Option<Result<FunctionPartView, Error>>,
    ExprEntries,
) {
    match st.ops {
        Some(o) => function_ops_step(st, o),
        None => if st.count == 0 {
            function_ops_step(st, OpIterView { bytes: st.bytes, nesting: 1 })
        } else {
            match take_local(st.bytes) {
                Ok((local, rest)) => (
                    Some(Ok(FunctionPartView::Local(local))),
                    ExprEntries { count: (st.count - 1) as nat, ops: None, bytes: rest },
                ),
                Err(e) => (Some(Err(e)), function_exhausted(st.bytes)),
            }
        },
    }
}

/// One pull on the bodies of a code section: nothing once the count is used
/// up, else the next body. A failure is yielded once and leaves the
/// sequence exhausted.
pub open spec fn codes_step(st: Entries) -> (Option<Result<FunctionBodyView, Error>>, Entries) {
    entries_step(st, |s: Seq<u8>| take_function_body(s))
}

impl<'a> CodeSection<'a> {
    /// A fresh cursor over the function bodies, at the first one.
    pub fn entries(&self) -> (r: CodeIterator<'a>)
        ensures
            r@ == self@,
    {
        CodeIterator { count: self.count, iter: self.entries_raw }
    }
}

impl<'a> CodeIterator<'a> {
    /// Reads one function body.
    fn read(iter: &mut &'a [u8]) -> (r: Result<FunctionBody<'a>, Error>)
        ensures
            match take_function_body(old(iter)@) {
                Ok((v, rest)) => r is Ok && r->Ok_0@ == v && final(iter)@ == rest,
                Err(e) => r is Err && r->Err_0 == e,
            },
    {
        let size = read_varuint(iter)?;
        let mut body = read_bytes(iter, size)?;
        let locals = read_varuint(&mut body)?;
        Ok(FunctionBody { local_count: locals as usize, body })
    }

    /// The next function body.
    pub fn next(&mut self) -> (r: Option<Result<FunctionBody<'a>, Error>>)
        ensures
            codes_step(old(self)@) == (
                item_view(r),
                final(self)@,
            ),
    {
        if self.count == 0 {
            return None;
        }
        let mut cur = self.iter;
        match Self::read(&mut cur) {
            Ok(v) => {
                self.iter = cur;
                self.count = self.count - 1;
                Some(Ok(v))
            },
            Err(e) => {
                self.count = 0;
                Some(Err(e))
            },
        }
    }
}

impl<'a> FunctionBody<'a> {
    /// A fresh cursor over the body, at its first local declaration.
    pub fn contents(&self) -> (r: FunctionIterator<'a>)
        ensures
            r@ == (ExprEntries { count: self@.local_count, ops: None, bytes: self@.body }),
    {
        FunctionIterator { local_count: self.local_count, opiter: None, iter: self.body }
    }
}

impl<'a> FunctionIterator<'a> {
    /// Reads one local declaration.
    fn read_local(iter: &mut &[u8]) -> (r: Result<Local, Error>)
        ensures
            match take_local(old(iter)@) {
                Ok((v, rest)) => r == Ok::<Local, Error>(v) && final(iter)@ == rest,
                Err(e) => r == Err::<Local, Error>(e),
            },
    {
        let count = read_index(iter)?;
        let ty = read_value_type(iter)?;
        Ok(Local { count, ty })
    }

    /// The next local declaration or instruction.
    pub fn next(&mut self) -> (r: Option<Result<FunctionPart<'a>, Error>>)
        ensures
            function_step(old(self)@) == (item_view(r), final(self)@),
    {
        if self.local_count == 0 && self.opiter.is_none() {
            self.opiter = Some(OpIterator::new(self.iter));
        }
        match self.opiter.take() {
            Some(mut it) => {
                let item = it.next();
                let r = match item {
                    Some(Ok(op)) => {
                        self.iter = it.remaining();
                        Some(Ok(FunctionPart::Op(op)))
                    },
                    Some(Err(e)) => Some(Err(e)),
                    None => None,
                };
                self.opiter = Some(it);
                r
            },
            None => {
                let mut cur = self.iter;
                match Self::read_local(&mut cur) {
                    Ok(local) => {
                        self.local_count = self.local_count - 1;
                        self.iter = cur;
                        Some(Ok(FunctionPart::Local(local)))
                    },
                    Err(e) => {
                        self.local_count = 0;
                        self.opiter = Some(OpIterator::ended(self.iter));
                        Some(Err(e))
                    },
                }
            },
        }
    }
}

/// What `take_function_body` leaves is a tail of the input, shorter than
/// it.
pub proof fn lemma_take_function_body_tail(s: Seq<u8>)
    requires
        take_function_body(s) is Ok,
    ensures
        is_tail(take_function_body(s)->Ok_0.1, s),
        take_function_body(s)->Ok_0.1.len() < s.len(),
{
    lemma_take_varuint_tail(s);
    let r1 = take_varuint(s)->Ok_0.1;
    let size = take_varuint(s)->Ok_0.0;
    lemma_tail_of_tail(take_bytes(r1, size as int)->Ok_0.1, r1, s);
}

} // verus!
