//! What holds of the framing of every module.

use crate::error::Error;
use crate::modules::{
    module_header, section_content, sections_step, take_section, SectionView,
};
use crate::varint::{
    lemma_take_varuint_cut, lemma_take_varuint_prefix, lemma_take_varuint_tail, take_bytes,
    take_varuint,
};
use vstd::prelude::*;

verus! {

/// True when each of the first `n` pulls on the sections yields a section.
pub open spec fn sections_ok(bytes: Seq<u8>, n: nat) -> bool
    decreases n,
{
    n == 0 || ((sections_step(bytes).0 matches Some(Ok(_))) && sections_ok(
        sections_step(bytes).1,
        (n - 1) as nat,
    ))
}

/// The bytes that are left after `n` pulls on the sections.
pub open spec fn sections_after(bytes: Seq<u8>, n: nat) -> Seq<u8>
    decreases n,
{
    if n == 0 {
        bytes
    } else {
        sections_after(sections_step(bytes).1, (n - 1) as nat)
    }
}

/// What pull number `i` on the sections yields, counting from zero.
pub open spec fn section_at(bytes: Seq<u8>, i: nat) -> Option<Result<SectionView, Error>>
    decreases i,
{
    if i == 0 {
        sections_step(bytes).0
    } else {
        section_at(sections_step(bytes).1, (i - 1) as nat)
    }
}

/// True of a payload that consists of exactly `n` sections.
pub open spec fn well_framed(bytes: Seq<u8>, n: nat) -> bool {
    sections_ok(bytes, n) && sections_after(bytes, n).len() == 0
}

/// A section that is followed by at least one more byte is framed in the
/// same way when the last byte of the input is taken away.
proof fn lemma_take_section_prefix(s: Seq<u8>)
    requires
        take_section(s) is Ok,
        take_section(s)->Ok_0.1.len() > 0,
    ensures
        take_section(s.drop_last()) == Ok::<(SectionView, Seq<u8>), Error>(
            (take_section(s)->Ok_0.0, take_section(s)->Ok_0.1.drop_last()),
        ),
{
    let cut = s.drop_last();
    let r1 = take_varuint(s)->Ok_0.1;
    let len = take_varuint(r1)->Ok_0.0;
    let r2 = take_varuint(r1)->Ok_0.1;
    let rest = take_section(s)->Ok_0.1;
    lemma_take_varuint_tail(s);
    lemma_take_varuint_tail(r1);
    assert(rest == r2.skip(len as int));
    lemma_take_varuint_prefix(s, s.len() - 1);
    assert(r1.take(r1.len() - 1) =~= r1.drop_last());
    assert(s.take(s.len() - 1) =~= cut);
    lemma_take_varuint_prefix(r1, r1.len() - 1);
    assert(r2.take(r2.len() - 1) =~= r2.drop_last());
    assert(r2.drop_last().take(len as int) =~= r2.take(len as int));
    assert(r2.drop_last().skip(len as int) =~= rest.drop_last());
}

/// A section that ends where the input ends cannot be framed when the last
/// byte of the input is taken away: its declared length then runs past the
/// end.
proof fn lemma_take_section_cut(s: Seq<u8>)
    requires
        take_section(s) is Ok,
        take_section(s)->Ok_0.1.len() == 0,
    ensures
        s.len() >= 2,
        take_section(s.drop_last()) == Err::<(SectionView, Seq<u8>), Error>(Error::Eof),
{
    let cut = s.drop_last();
    let r1 = take_varuint(s)->Ok_0.1;
    let len = take_varuint(r1)->Ok_0.0;
    let r2 = take_varuint(r1)->Ok_0.1;
    lemma_take_varuint_tail(s);
    lemma_take_varuint_tail(r1);
    assert(take_bytes(r2, len as int) is Ok);
    assert(r2.skip(len as int).len() == 0);
    lemma_take_varuint_prefix(s, s.len() - 1);
    assert(r1.take(r1.len() - 1) =~= r1.drop_last());
    assert(s.take(s.len() - 1) =~= cut);
    if r2.len() == 0 {
        lemma_take_varuint_cut(r1, r1.len() - 1);
    } else {
        lemma_take_varuint_prefix(r1, r1.len() - 1);
        assert(r2.take(r2.len() - 1) =~= r2.drop_last());
    }
}

/// Of a payload of `n` sections with its last byte taken away, the first
/// `n - 1` sections are decoded as before, and the last one fails because
/// the input is cut short.
pub proof fn lemma_truncated_payload_fails(bytes: Seq<u8>, n: nat)
    requires
        n >= 1,
        well_framed(bytes, n),
    ensures
        bytes.len() >= 2,
        sections_ok(bytes.drop_last(), (n - 1) as nat),
        forall|i: nat| i < n - 1 ==> section_at(bytes.drop_last(), i) == section_at(bytes, i),
        section_at(bytes.drop_last(), (n - 1) as nat) == Some(
            Err::<SectionView, Error>(Error::Eof),
        ),
    decreases n,
{
    let cut = bytes.drop_last();
    let rest = take_section(bytes)->Ok_0.1;
    if n == 1 {
        assert(sections_after(rest, 0) == rest);
        lemma_take_section_cut(bytes);
    } else {
        assert(sections_ok(rest, (n - 1) as nat));
        lemma_take_section_prefix(bytes);
        lemma_truncated_payload_fails(rest, (n - 1) as nat);
        assert(sections_step(cut).1 == rest.drop_last());
        assert forall|i: nat| i < n - 1 implies section_at(cut, i) == section_at(bytes, i) by {
            if i > 0 {
                assert(section_at(rest.drop_last(), (i - 1) as nat) == section_at(
                    rest,
                    (i - 1) as nat,
                ));
            }
        }
    }
}

/// Of a module that consists of a header and exactly `n` sections, with its
/// last byte taken away: without sections, the header itself is cut short;
/// otherwise the header is read as before and the last section fails
/// because the input is cut short. Nothing is decoded in place of what was
/// there.
pub proof fn lemma_truncated_module_fails(module: Seq<u8>, n: nat)
    requires
        module_header(module) is Ok,
        well_framed(module_header(module)->Ok_0.1, n),
    ensures
        n == 0 ==> module_header(module.drop_last()) == Err::<(u32, Seq<u8>), Error>(Error::Eof),
        n >= 1 ==> module_header(module.drop_last()) == Ok::<(u32, Seq<u8>), Error>(
            (module_header(module)->Ok_0.0, module_header(module)->Ok_0.1.drop_last()),
        ),
        n >= 1 ==> section_at(module_header(module)->Ok_0.1.drop_last(), (n - 1) as nat) == Some(
            Err::<SectionView, Error>(Error::Eof),
        ),
        forall|i: nat|
            i + 1 < n ==> section_at(module_header(module)->Ok_0.1.drop_last(), i) == section_at(
                module_header(module)->Ok_0.1,
                i,
            ),
{
    let payload = module_header(module)->Ok_0.1;
    let cut = module.drop_last();
    if n == 0 {
        assert(sections_after(payload, 0) == payload);
        assert(module.len() == 8);
        assert(cut.skip(4).len() == 3);
    } else {
        lemma_truncated_payload_fails(payload, n);
        assert(cut.skip(4) =~= module.skip(4).drop_last());
        assert(cut.skip(4).skip(4) =~= payload.drop_last());
        assert(crate::varint::little_endian(cut.skip(4), 4) == crate::varint::little_endian(
            module.skip(4),
            4,
        )) by {
            lemma_little_endian_prefix(module.skip(4), module.skip(4).len() - 1, 4);
        }
    }
}

/// The number that the first `n` bytes spell does not depend on the bytes
/// after them.
proof fn lemma_little_endian_prefix(s: Seq<u8>, k: int, n: int)
    requires
        0 <= n <= k <= s.len(),
    ensures
        crate::varint::little_endian(s.take(k), n) == crate::varint::little_endian(s, n),
    decreases n,
{
    if n > 0 {
        assert(s.take(k).skip(1) =~= s.skip(1).take(k - 1));
        lemma_little_endian_prefix(s.skip(1), k - 1, n - 1);
    }
}

/// Every pull is a function of the cursor's state: two cursors in the same
/// state, pulled once each, yield the same item and are left in the same
/// state. Here `step` is the function that the contract of a `next` method
/// names, and the two equations are what that contract says of the two
/// pulls.
pub proof fn lemma_pulls_agree<S, T>(
    step: spec_fn(S) -> (T, S),
    first: S,
    second: S,
    first_item: T,
    second_item: T,
    first_after: S,
    second_after: S,
)
    requires
        first == second,
        step(first) == (first_item, first_after),
        step(second) == (second_item, second_after),
    ensures
        first_item == second_item,
        first_after == second_after,
{
}

/// Two buffers that hold the same bytes are decoded alike: the same header
/// or the same failure, and pull after pull the same sections with the
/// same contents.
pub proof fn lemma_same_bytes_same_sections(first: Seq<u8>, second: Seq<u8>, i: nat)
    requires
        first =~= second,
    ensures
        module_header(first) == module_header(second),
        module_header(first) matches Ok((_, payload)) ==> {
            &&& section_at(payload, i) == section_at(module_header(second)->Ok_0.1, i)
            &&& section_at(payload, i) matches Some(Ok(section)) ==> section_content(section)
                == section_content(section_at(module_header(second)->Ok_0.1, i)->Some_0->Ok_0)
        },
{
}

} // verus!
