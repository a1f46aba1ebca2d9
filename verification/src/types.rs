//! The type section: function signatures.

use crate::entries::{entries_step, item_view, Entries};
use crate::enums::ValueType;
use crate::error::Error;
use crate::varint::{
    is_tail, lemma_tail_of_tail, lemma_take_varuint_tail, read_bytes, read_u8, read_varuint,
    take_bytes, take_u8, take_varuint,
};
use vstd::prelude::*;

verus! {

/// The form tag that marks a type entry as a function signature.
pub const FUNCTION_FORM: u64 = 0x40;

/// The type section: the bytes of its entries and their number.
pub struct TypeSection<'a>(pub &'a [u8], pub usize);

/// A cursor over the entries of a type section.
pub struct TypeEntryIterator<'a>(&'a [u8], usize);

/// One entry of the type section.
pub enum TypeEntry<'a> {
    Function(FunctionType<'a>),
}

/// A function signature: parameter types, one byte each and still encoded,
/// and at most one return type.
pub struct FunctionType<'a> {
    params_count: usize,
    params_raw: &'a [u8],
    pub return_type: Option<ValueType>,
}

/// A cursor over the parameter types of a signature.
pub struct ParamsIterator<'a>(&'a [u8], usize);

/// What a `FunctionType` holds.
pub struct FunctionTypeView {
    pub params_count: nat,
    pub params_raw: Seq<u8>,
    pub return_type: Option<ValueType>,
}

/// What a `TypeEntry` holds.
pub enum TypeEntryView {
    Function(FunctionTypeView),
}

impl<'a> View for FunctionType<'a> {
    type V = FunctionTypeView;

    closed spec fn view(&self) -> FunctionTypeView {
        FunctionTypeView {
            params_count: self.params_count as nat,
            params_raw: self.params_raw@,
            return_type: self.return_type,
        }
    }
}

impl<'a> View for TypeEntry<'a> {
    type V = TypeEntryView;

    open spec fn view(&self) -> TypeEntryView {
        match self {
            TypeEntry::Function(f) => TypeEntryView::Function(f@),
        }
    }
}

impl<'a> View for TypeSection<'a> {
    type V = Entries;

    open spec fn view(&self) -> Entries {
        Entries { count: self.1 as nat, bytes: self.0@ }
    }
}

impl<'a> View for TypeEntryIterator<'a> {
    type V = Entries;

    closed spec fn view(&self) -> Entries {
        Entries { count: self.1 as nat, bytes: self.0@ }
    }
}

impl<'a> View for ParamsIterator<'a> {
    type V = Entries;

    closed spec fn view(&self) -> Entries {
        Entries { count: self.1 as nat, bytes: self.0@ }
    }
}

/// A value type at the start of `s`, and the bytes after it.
pub open spec fn take_value_type(s: Seq<u8>) -> Result<(ValueType, Seq<u8>), Error> {
    match take_u8(s) {
        Err(e) => Err(e),
        Ok((b, rest)) => match ValueType::spec_from_int(b) {
            None => Err(Error::UnknownVariant("value type")),
            Some(t) => Ok((t, rest)),
        },
    }
}

/// A type entry at the start of `s`, and the bytes after it: the form tag,
/// the parameter count and that many bytes, then the return count and,
/// unless it is zero, one return type.
pub open spec fn take_type_entry(s: Seq<u8>) -> Result<(TypeEntryView, Seq<u8>), Error> {
    match take_varuint(s) {
        Err(e) => Err(e),
        Ok((form, r1)) => if form != FUNCTION_FORM {
            Err(Error::UnknownVariant("type entry form"))
        } else {
            match take_varuint(r1) {
                Err(e) => Err(e),
                Ok((param_count, r2)) => match take_bytes(r2, param_count as int) {
                    Err(e) => Err(e),
                    Ok((params, r3)) => match take_varuint(r3) {
                        Err(e) => Err(e),
                        Ok((return_count, r4)) => if return_count == 0 {
                            Ok(
                                (
                                    TypeEntryView::Function(
                                        FunctionTypeView {
                                            params_count: param_count as nat,
                                            params_raw: params,
                                            return_type: None,
                                        },
                                    ),
                                    r4,
                                ),
                            )
                        } else {
                            match take_value_type(r4) {
                                Err(e) => Err(e),
                                Ok((t, r5)) => Ok(
                                    (
                                        TypeEntryView::Function(
                                            FunctionTypeView {
                                                params_count: param_count as nat,
                                                params_raw: params,
                                                return_type: Some(t),
                                            },
                                        ),
                                        r5,
                                    ),
                                ),
                            }
                        },
                    },
                },
            }
        },
    }
}

/// Reads one value type byte.
pub(crate) fn read_value_type(iter: &mut &[u8]) -> (r: Result<ValueType, Error>)
    ensures
        match take_value_type(old(iter)@) {
            Ok((t, rest)) => r == Ok::<ValueType, Error>(t) && final(iter)@ == rest,
            Err(e) => r == Err::<ValueType, Error>(e),
        },
{
    let b = match read_u8(iter) {
        Ok(b) => b,
        Err(e) => return Err(e),
    };
    match ValueType::from_int(b) {
        Some(t) => Ok(t),
        None => Err(Error::UnknownVariant("value type")),
    }
}

/// Reads one type entry.
fn read_type_entry<'a>(iter: &mut &'a [u8]) -> (r: Result<TypeEntry<'a>, Error>)
    ensures
        match take_type_entry(old(iter)@) {
            Ok((t, rest)) => r is Ok && r->Ok_0@ == t && final(iter)@ == rest,
            Err(e) => r is Err && r->Err_0 == e,
        },
{
    let form = read_varuint(iter)?;
    if form != FUNCTION_FORM {
        return Err(Error::UnknownVariant("type entry form"));
    }
    let param_count = read_varuint(iter)?;
    let params = read_bytes(iter, param_count)?;
    let return_count = read_varuint(iter)?;
    let return_type = if return_count > 0 {
        Some(read_value_type(iter)?)
    } else {
        None
    };
    Ok(
        TypeEntry::Function(
            FunctionType { params_count: params.len(), params_raw: params, return_type },
        ),
    )
}

/// One pull on the entries of a type section: nothing once the count is
/// used up, else the next entry. A failure is yielded once and leaves the
/// sequence exhausted.
pub open spec fn types_step(st: Entries) -> (Option<Result<TypeEntryView, Error>>, Entries) {
    entries_step(st, |s: Seq<u8>| take_type_entry(s))
}

/// One pull on the parameters of a signature: nothing once the count is
/// used up, else the next parameter type. A failure is yielded once and
/// leaves the sequence exhausted.
pub open spec fn params_step(st: Entries) -> (Option<Result<ValueType, Error>>, Entries) {
    entries_step(st, |s: Seq<u8>| take_value_type(s))
}

impl<'a> TypeSection<'a> {
    /// A fresh cursor over the entries, at the first one.
    pub fn entries(&self) -> (r: TypeEntryIterator<'a>)
        ensures
            r@ == self@,
    {
        TypeEntryIterator(self.0, self.1)
    }
}

impl<'a> TypeEntryIterator<'a> {
    /// The next type entry.
    pub fn next(&mut self) -> (r: Option<Result<TypeEntry<'a>, Error>>)
        ensures
            types_step(old(self)@) == (
                item_view(r),
                final(self)@,
            ),
    {
        if self.1 == 0 {
            return None;
        }
        let mut cur = self.0;
        match read_type_entry(&mut cur) {
            Ok(v) => {
                self.0 = cur;
                self.1 = self.1 - 1;
                Some(Ok(v))
            },
            Err(e) => {
                self.1 = 0;
                Some(Err(e))
            },
        }
    }
}

impl<'a> FunctionType<'a> {
    /// A fresh cursor over the parameter types, at the first one.
    pub fn params(&self) -> (r: ParamsIterator<'a>)
        ensures
            r@ == (Entries { count: self@.params_count, bytes: self@.params_raw }),
    {
        ParamsIterator(self.params_raw, self.params_count)
    }
}

impl<'a> ParamsIterator<'a> {
    /// The next parameter type.
    pub fn next(&mut self) -> (r: Option<Result<ValueType, Error>>)
        ensures
            params_step(old(self)@) == (r, final(self)@),
    {
        if self.1 == 0 {
            return None;
        }
        let mut cur = self.0;
        match read_value_type(&mut cur) {
            Ok(v) => {
                self.0 = cur;
                self.1 = self.1 - 1;
                Some(Ok(v))
            },
            Err(e) => {
                self.1 = 0;
                Some(Err(e))
            },
        }
    }
}

/// What `take_type_entry` leaves is a tail of the input, shorter than it.
pub proof fn lemma_take_type_entry_tail(s: Seq<u8>)
    requires
        take_type_entry(s) is Ok,
    ensures
        is_tail(take_type_entry(s)->Ok_0.1, s),
        take_type_entry(s)->Ok_0.1.len() < s.len(),
{
    lemma_take_varuint_tail(s);
    let r1 = take_varuint(s)->Ok_0.1;
    lemma_take_varuint_tail(r1);
    let r2 = take_varuint(r1)->Ok_0.1;
    lemma_tail_of_tail(r2, r1, s);
    let n = take_varuint(r1)->Ok_0.0;
    let r3 = take_bytes(r2, n as int)->Ok_0.1;
    lemma_tail_of_tail(r3, r2, s);
    lemma_take_varuint_tail(r3);
    let r4 = take_varuint(r3)->Ok_0.1;
    lemma_tail_of_tail(r4, r3, s);
    if take_varuint(r3)->Ok_0.0 != 0 {
        lemma_tail_of_tail(r4.skip(1), r4, s);
    }
}

/// A decoded signature holds one byte for each parameter it declares, no
/// fewer and no more.
pub proof fn lemma_params_are_all_there(s: Seq<u8>)
    requires
        take_type_entry(s) is Ok,
    ensures
        take_type_entry(s)->Ok_0.0 matches TypeEntryView::Function(f) && f.params_raw.len()
            == f.params_count,
{
}

} // verus!
