//! How the bytes of a section are shared out among its entries.

use crate::bytecode::{lemma_take_op_tail, take_op, OpIterView};
use crate::codes::{codes_step, lemma_take_function_body_tail};
use crate::data::{data_step, lemma_take_blob_tail};
use crate::elements::{elements_step, ElementsView};
use crate::entries::ExprEntries;
use crate::error::Error;
use crate::exports::{exports_step, lemma_take_export_entry_tail};
use crate::functions::{functions_step, lemma_take_index_tail};
use crate::globals::{globals_step, lemma_take_global_entry_tail};
use crate::imports::{imports_step, lemma_take_import_entry_tail};
use crate::memories::memories_step;
use crate::modules::{section_content, SectionContentView, SectionView};
use crate::names::{lemma_take_function_name_tail, names_step};
use crate::tables::{lemma_take_table_entry_tail, tables_step};
use crate::types::{lemma_take_type_entry_tail, types_step};
use crate::varint::{is_tail, lemma_take_string_tail, lemma_take_varuint_tail, take_varuint};
use vstd::prelude::*;

verus! {

/// What a pull did, without the item: nothing, an entry, or a failure.
pub open spec fn outcome<T>(r: Option<Result<T, Error>>) -> Option<Result<(), Error>> {
    match r {
        None => None,
        Some(Ok(_)) => Some(Ok(())),
        Some(Err(e)) => Some(Err(e)),
    }
}

/// The bytes that a cursor over a section's entries has not decoded yet.
pub open spec fn content_bytes(c: SectionContentView) -> Seq<u8> {
    match c {
        SectionContentView::Type(e) => e.bytes,
        SectionContentView::Import(e) => e.bytes,
        SectionContentView::Function(e) => e.bytes,
        SectionContentView::Table(e) => e.bytes,
        SectionContentView::Memory(e) => e.bytes,
        SectionContentView::Global(e) => e.bytes,
        SectionContentView::Export(e) => e.bytes,
        SectionContentView::Start(_) => Seq::empty(),
        SectionContentView::Elements(e) => e.bytes,
        SectionContentView::Code(e) => e.bytes,
        SectionContentView::Data(e) => e.bytes,
        SectionContentView::Name(e) => e.bytes,
    }
}

/// One pull on a cursor over a section's entries, of whatever kind: what
/// the pull did, and the cursor after it.
pub open spec fn content_step(c: SectionContentView) -> (
    Option<Result<(), Error>>,
    SectionContentView,
) {
    match c {
        SectionContentView::Type(e) => (
            outcome(types_step(e).0),
            SectionContentView::Type(types_step(e).1),
        ),
        SectionContentView::Import(e) => (
            outcome(imports_step(e).0),
            SectionContentView::Import(imports_step(e).1),
        ),
        SectionContentView::Function(e) => (
            outcome(functions_step(e).0),
            SectionContentView::Function(functions_step(e).1),
        ),
        SectionContentView::Table(e) => (
            outcome(tables_step(e).0),
            SectionContentView::Table(tables_step(e).1),
        ),
        SectionContentView::Memory(e) => (
            outcome(memories_step(e).0),
            SectionContentView::Memory(memories_step(e).1),
        ),
        SectionContentView::Global(e) => (
            outcome(globals_step(e).0),
            SectionContentView::Global(globals_step(e).1),
        ),
        SectionContentView::Export(e) => (
            outcome(exports_step(e).0),
            SectionContentView::Export(exports_step(e).1),
        ),
        SectionContentView::Start(_) => (None, c),
        SectionContentView::Elements(e) => (
            outcome(elements_step(e).0),
            SectionContentView::Elements(elements_step(e).1),
        ),
        SectionContentView::Code(e) => (
            outcome(codes_step(e).0),
            SectionContentView::Code(codes_step(e).1),
        ),
        SectionContentView::Data(e) => (
            outcome(data_step(e).0),
            SectionContentView::Data(data_step(e).1),
        ),
        SectionContentView::Name(e) => (
            outcome(names_step(e).0),
            SectionContentView::Name(names_step(e).1),
        ),
    }
}

/// True when an instruction stream that the cursor is inside of stands
/// where the cursor stands.
pub open spec fn stream_in_step(ops: Option<OpIterView>, bytes: Seq<u8>) -> bool {
    ops matches Some(o) ==> o.bytes == bytes
}

/// True of a cursor whose embedded instruction stream, if it has one,
/// stands where the cursor stands. It holds of every fresh cursor and is
/// kept by every pull.
pub open spec fn in_step(c: SectionContentView) -> bool {
    match c {
        SectionContentView::Global(e) => stream_in_step(e.ops, e.bytes),
        SectionContentView::Data(e) => stream_in_step(e.ops, e.bytes),
        SectionContentView::Elements(e) => stream_in_step(e.ops, e.bytes),
        _ => true,
    }
}

/// True when each of the first `n` pulls on the cursor yields an entry.
pub open spec fn content_ok(c: SectionContentView, n: nat) -> bool
    decreases n,
{
    n == 0 || ((content_step(c).0 matches Some(Ok(_))) && content_ok(
        content_step(c).1,
        (n - 1) as nat,
    ))
}

/// The cursor after `n` pulls.
pub open spec fn content_after(c: SectionContentView, n: nat) -> SectionContentView
    decreases n,
{
    if n == 0 {
        c
    } else {
        content_after(content_step(c).1, (n - 1) as nat)
    }
}

/// The number of bytes that one pull takes.
pub open spec fn pull_size(c: SectionContentView) -> int {
    content_bytes(c).len() - content_bytes(content_step(c).1).len()
}

/// The number of bytes that the first `n` pulls take, pull by pull.
pub open spec fn pulled(c: SectionContentView, n: nat) -> int
    decreases n,
{
    if n == 0 {
        0
    } else {
        pull_size(c) + pulled(content_step(c).1, (n - 1) as nat)
    }
}

/// The number of bytes of the count that a section's payload begins with.
pub open spec fn count_size(section: SectionView) -> int {
    section.payload.len() - take_varuint(section.payload)->Ok_0.1.len()
}

/// By a pull the cursor moves forward over the bytes it takes: what is left
/// is what was there before without its first `pull_size` bytes.
pub proof fn lemma_pull_takes_from_the_front(c: SectionContentView)
    requires
        in_step(c),
    ensures
        in_step(content_step(c).1),
        0 <= pull_size(c) <= content_bytes(c).len(),
        content_bytes(content_step(c).1) == content_bytes(c).skip(pull_size(c)),
{
    let s = content_bytes(c);
    assert(s.skip(0) =~= s);
    match c {
        SectionContentView::Type(e) => {
            if e.count > 0 && types_step(e).0 matches Some(Ok(_)) {
                lemma_take_type_entry_tail(s);
            }
        },
        SectionContentView::Import(e) => {
            if e.count > 0 && imports_step(e).0 matches Some(Ok(_)) {
                lemma_take_import_entry_tail(s);
            }
        },
        SectionContentView::Function(e) => {
            if e.count > 0 && functions_step(e).0 matches Some(Ok(_)) {
                lemma_take_index_tail(s);
            }
        },
        SectionContentView::Table(e) => {
            if e.count > 0 && tables_step(e).0 matches Some(Ok(_)) {
                lemma_take_table_entry_tail(s);
            }
        },
        SectionContentView::Memory(e) => {
            if e.count > 0 && memories_step(e).0 matches Some(Ok(_)) {
                crate::imports::lemma_take_limits_tail(s);
            }
        },
        SectionContentView::Export(e) => {
            if e.count > 0 && exports_step(e).0 matches Some(Ok(_)) {
                lemma_take_export_entry_tail(s);
            }
        },
        SectionContentView::Code(e) => {
            if e.count > 0 && codes_step(e).0 matches Some(Ok(_)) {
                lemma_take_function_body_tail(s);
            }
        },
        SectionContentView::Start(_) => {},
        SectionContentView::Global(e) => {
            lemma_globals_pull(e);
        },
        SectionContentView::Data(e) => {
            lemma_data_pull(e);
        },
        SectionContentView::Elements(e) => {
            lemma_elements_pull(e);
        },
        SectionContentView::Name(e) => {
            if names_step(e).0 matches Some(Ok(_)) {
                if e.local_count > 0 {
                    lemma_take_string_tail(s);
                } else {
                    lemma_take_function_name_tail(s);
                }
            }
        },
    }
}

/// A pull on a global section takes its bytes from the front.
proof fn lemma_globals_pull(e: ExprEntries)
    requires
        stream_in_step(e.ops, e.bytes),
    ensures
        stream_in_step(globals_step(e).1.ops, globals_step(e).1.bytes),
        is_tail(globals_step(e).1.bytes, e.bytes),
{
    let s = e.bytes;
    assert(s.skip(0) =~= s);
    if globals_step(e).0 matches Some(Ok(_)) {
        if crate::entries::in_expression(e.ops) {
            lemma_take_op_tail(s);
        } else {
            lemma_take_global_entry_tail(s);
        }
    }
}

/// A pull on a data section takes its bytes from the front.
proof fn lemma_data_pull(e: ExprEntries)
    requires
        stream_in_step(e.ops, e.bytes),
    ensures
        stream_in_step(data_step(e).1.ops, data_step(e).1.bytes),
        is_tail(data_step(e).1.bytes, e.bytes),
{
    let s = e.bytes;
    assert(s.skip(0) =~= s);
    if data_step(e).0 matches Some(Ok(_)) {
        match e.ops {
            Some(o) => {
                if o.nesting > 0 {
                    lemma_take_op_tail(s);
                } else {
                    lemma_take_blob_tail(s);
                }
            },
            None => {
                lemma_take_index_tail(s);
            },
        }
    }
}

/// A pull on an element section takes its bytes from the front.
proof fn lemma_elements_pull(e: ElementsView)
    requires
        stream_in_step(e.ops, e.bytes),
    ensures
        stream_in_step(elements_step(e).1.ops, elements_step(e).1.bytes),
        is_tail(elements_step(e).1.bytes, e.bytes),
{
    let s = e.bytes;
    assert(s.skip(0) =~= s);
    match e.ops {
        Some(o) => {
            if o.nesting > 0 {
                if take_op(s) is Ok {
                    lemma_take_op_tail(s);
                }
            } else {
                if take_varuint(s) is Ok {
                    lemma_take_varuint_tail(s);
                    let rest = take_varuint(s)->Ok_0.1;
                    let n = take_varuint(s)->Ok_0.0;
                    let mid = ElementsView {
                        count: e.count,
                        ops: None,
                        elems: (n as usize) as nat,
                        bytes: rest,
                    };
                    lemma_elements_between_pull(mid);
                    crate::varint::lemma_tail_of_tail(elements_step(e).1.bytes, rest, s);
                }
            }
        },
        None => {
            lemma_elements_between_pull(e);
        },
    }
}

/// A pull on an element section outside an offset expression takes its
/// bytes from the front.
proof fn lemma_elements_between_pull(e: ElementsView)
    ensures
        stream_in_step(
            crate::elements::elements_between(e).1.ops,
            crate::elements::elements_between(e).1.bytes,
        ),
        is_tail(crate::elements::elements_between(e).1.bytes, e.bytes),
{
    let s = e.bytes;
    assert(s.skip(0) =~= s);
    if crate::functions::take_index(s) is Ok {
        lemma_take_index_tail(s);
    }
}

/// The bytes that `n` pulls take are those between where the cursor stood
/// before them and where it stands after them.
pub proof fn lemma_pulled_is_distance(c: SectionContentView, n: nat)
    requires
        in_step(c),
    ensures
        in_step(content_after(c, n)),
        pulled(c, n) == content_bytes(c).len() - content_bytes(content_after(c, n)).len(),
        content_bytes(content_after(c, n)) == content_bytes(c).skip(pulled(c, n)),
        0 <= pulled(c, n) <= content_bytes(c).len(),
    decreases n,
{
    let s = content_bytes(c);
    if n == 0 {
        assert(s.skip(0) =~= s);
    } else {
        lemma_pull_takes_from_the_front(c);
        let next = content_step(c).1;
        lemma_pulled_is_distance(next, (n - 1) as nat);
        assert(content_bytes(content_after(c, n)) =~= s.skip(pulled(c, n)));
    }
}

/// Where a section's payload holds its count and then entries up to its
/// last byte, the bytes of the count and the bytes that the pulls take, one
/// after the other, add up to the length of the payload. The pulls are
/// those that yield the `n` entries and the one after them, which finds the
/// sequence exhausted.
pub proof fn lemma_section_bytes_add_up(section: SectionView, n: nat)
    requires
        section_content(section) is Ok,
        !(section_content(section)->Ok_0 is Start),
        content_ok(section_content(section)->Ok_0, n),
        content_step(content_after(section_content(section)->Ok_0, n)).0 is None,
        content_bytes(content_after(section_content(section)->Ok_0, n + 1)).len() == 0,
    ensures
        count_size(section) >= 1,
        content_bytes(section_content(section)->Ok_0) == section.payload.skip(count_size(section)),
        count_size(section) + pulled(section_content(section)->Ok_0, n + 1)
            == section.payload.len(),
{
    let c = section_content(section)->Ok_0;
    lemma_take_varuint_tail(section.payload);
    lemma_pulled_is_distance(c, n + 1);
}

} // verus!
