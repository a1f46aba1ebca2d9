//! What the cursors over count-bounded sequences have in common.

use crate::bytecode::OpIterView;
use crate::error::Error;
use vstd::prelude::*;

verus! {

/// What a count-bounded cursor holds: the number of entries still to come
/// and the bytes they are read from.
pub struct Entries {
    pub count: nat,
    pub bytes: Seq<u8>,
}

/// One pull on a count-bounded sequence whose entries are decoded by `take`:
/// nothing once the count is used up, whatever bytes are left; else the
/// next entry, with the count one lower and the bytes after the entry. A
/// failure is yielded once and leaves the sequence exhausted, with its
/// bytes where the failed entry began.
pub open spec fn entries_step<T>(
    st: Entries,
    take: spec_fn(Seq<u8>) -> Result<(T, Seq<u8>), Error>,
) -> (Option<Result<T, Error>>, Entries) {
    if st.count == 0 {
        (None, st)
    } else {
        match take(st.bytes) {
            Ok((v, rest)) => (Some(Ok(v)), Entries { count: (st.count - 1) as nat, bytes: rest }),
            Err(e) => (Some(Err(e)), Entries { count: 0, bytes: st.bytes }),
        }
    }
}

/// What a cursor over entries with an embedded expression holds: the
/// entries still to come, the instruction stream it is inside of, if any,
/// and the bytes not yet decoded.
pub struct ExprEntries {
    pub count: nat,
    pub ops: Option<OpIterView>,
    pub bytes: Seq<u8>,
}

/// True while a cursor is inside an instruction stream that has not ended.
pub open spec fn in_expression(ops: Option<OpIterView>) -> bool {
    ops matches Some(o) && o.nesting > 0
}

/// The state of a cursor that has nothing more to yield.
pub open spec fn exhausted(bytes: Seq<u8>) -> ExprEntries {
    ExprEntries { count: 0, ops: None, bytes }
}

/// The item that a pull yielded, with the entry as its view.
pub open spec fn item_view<T: View>(r: Option<Result<T, Error>>) -> Option<Result<T::V, Error>> {
    match r {
        None => None,
        Some(Ok(v)) => Some(Ok(v@)),
        Some(Err(e)) => Some(Err(e)),
    }
}

} // verus!
