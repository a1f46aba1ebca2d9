//! Instructions: the opcode table, the operands of each opcode, and the
//! cursor that turns a byte range into a sequence of instructions.

use crate::entries::item_view;
use crate::enums::InlineSignatureType;
use crate::error::Error;
use crate::functions::read_index;
use crate::varint::{
    read_u32_le, read_u64_le, read_u8, read_varint, read_varuint, take_u32_le, take_u64_le,
    lemma_take_varint_tail, lemma_take_varuint_tail, take_u8, take_varint, take_varuint,
};
use vstd::prelude::*;
use vstd::slice::slice_subrange;

verus! {

/// The immediate of a load or store: alignment flags and byte offset.
#[derive(Debug, Clone)]
pub struct MemoryImmediate {
    pub flags: u32,
    pub offset: u32,
}

/// The immediate of a branch table: its arms, still encoded, and the
/// default target.
#[derive(Debug, Clone)]
pub struct BrTable<'a> {
    pub count: u32,
    raw: &'a [u8],
    pub default: u32,
}

/// What a `BrTable` holds: the declared number of arms, the bytes that
/// encode them, and the default target.
pub struct BrTableView {
    pub count: u32,
    pub raw: Seq<u8>,
    pub default: u32,
}

/// A cursor over the arms of a branch table.
#[derive(Debug, Clone)]
pub struct BrTableArmIterator<'a> {
    count: u32,
    iter: &'a [u8],
}

/// What a `BrTableArmIterator` holds: the arms still to come and the bytes
/// they are read from.
pub struct ArmsView {
    pub count: u32,
    pub bytes: Seq<u8>,
}

/// One decoded instruction with its immediate operands.
#[derive(Clone, Debug)]
pub enum Op<'a> {
    // control flow
    Unreachable,
    Nop,
    Block(InlineSignatureType),
    Loop(InlineSignatureType),
    If(InlineSignatureType),
    Else,
    End,
    Br(u32),
    BrIf(u32),
    BrTable(BrTable<'a>),
    Return,
    // calls
    Call(u32),
    CallIndirect(u32, bool),
    // parametric operators
    Drop,
    Select,
    // variable access
    GetLocal(u32),
    SetLocal(u32),
    TeeLocal(u32),
    GetGlobal(u32),
    SetGlobal(u32),
    // memory access
    I32Load(MemoryImmediate),
    I64Load(MemoryImmediate),
    F32Load(MemoryImmediate),
    F64Load(MemoryImmediate),
    I32Load8S(MemoryImmediate),
    I32Load8U(MemoryImmediate),
    I32Load16S(MemoryImmediate),
    I32Load16U(MemoryImmediate),
    I64Load8S(MemoryImmediate),
    I64Load8U(MemoryImmediate),
    I64Load16S(MemoryImmediate),
    I64Load16U(MemoryImmediate),
    I64Load32S(MemoryImmediate),
    I64Load32U(MemoryImmediate),
    I32Store(MemoryImmediate),
    I64Store(MemoryImmediate),
    F32Store(MemoryImmediate),
    F64Store(MemoryImmediate),
    I32Store8(MemoryImmediate),
    I32Store16(MemoryImmediate),
    I64Store8(MemoryImmediate),
    I64Store16(MemoryImmediate),
    I64Store32(MemoryImmediate),
    CurrentMemory(bool),
    GrowMemory(bool),
    // constants
    I32Const(i32),
    I64Const(i64),
    /// The constant, as the bits of an IEEE 754 single.
    F32Const(u32),
    /// The constant, as the bits of an IEEE 754 double.
    F64Const(u64),
    // comparisons
    I32Eqz,
    I32Eq,
    I32Ne,
    I32LtS,
    I32LtU,
    I32GtS,
    I32GtU,
    I32LeS,
    I32LeU,
    I32GeS,
    I32GeU,
    I64Eqz,
    I64Eq,
    I64Ne,
    I64LtS,
    I64LtU,
    I64GtS,
    I64GtU,
    I64LeS,
    I64LeU,
    I64GeS,
    I64GeU,
    F32Eq,
    F32Ne,
    F32Lt,
    F32Gt,
    F32Le,
    F32Ge,
    F64Eq,
    F64Ne,
    F64Lt,
    F64Gt,
    F64Le,
    F64Ge,
    // numeric operators
    I32Clz,
    I32Ctz,
    I32Popcnt,
    I32Add,
    I32Sub,
    I32Mul,
    I32DivS,
    I32DivU,
    I32RemS,
    I32RemU,
    I32And,
    I32Or,
    I32Xor,
    I32Shl,
    I32ShrS,
    I32ShrU,
    I32Rotl,
    I32Rotr,
    I64Clz,
    I64Ctz,
    I64Popcnt,
    I64Add,
    I64Sub,
    I64Mul,
    I64DivS,
    I64DivU,
    I64RemS,
    I64RemU,
    I64And,
    I64Or,
    I64Xor,
    I64Shl,
    I64ShrS,
    I64ShrU,
    I64Rotl,
    I64Rotr,
    F32Abs,
    F32Neg,
    F32Ceil,
    F32Floor,
    F32Trunc,
    F32Nearest,
    F32Sqrt,
    F32Add,
    F32Sub,
    F32Mul,
    F32Div,
    F32Min,
    F32Max,
    F32Copysign,
    F64Abs,
    F64Neg,
    F64Ceil,
    F64Floor,
    F64Trunc,
    F64Nearest,
    F64Sqrt,
    F64Add,
    F64Sub,
    F64Mul,
    F64Div,
    F64Min,
    F64Max,
    F64Copysign,
    // conversions
    I32WrapI64,
    I32TruncSF32,
    I32TruncUF32,
    I32TruncSF64,
    I32TruncUF64,
    I64ExtendSI32,
    I64ExtendUI32,
    I64TruncSF32,
    I64TruncUF32,
    I64TruncSF64,
    I64TruncUF64,
    F32ConvertSI32,
    F32ConvertUI32,
    F32ConvertSI64,
    F32ConvertUI64,
    F32DemoteF64,
    F64ConvertSI32,
    F64ConvertUI32,
    F64ConvertSI64,
    F64ConvertUI64,
    F64PromoteF32,
    // reinterpretations
    I32ReinterpretF32,
    I64ReinterpretF64,
    F32ReinterpretI32,
    F64ReinterpretI64,
}

/// The immediate operands that follow an opcode byte.
pub enum Imm {
    Empty,
    Sig(InlineSignatureType),
    Index(u32),
    Indirect(u32, bool),
    Flag(bool),
    Memory(MemoryImmediate),
    Table(BrTableView),
    I32(i32),
    I64(i64),
    F32(u32),
    F64(u64),
}

/// An instruction as its opcode byte and its immediate operands.
pub struct OpView {
    pub code: u8,
    pub imm: Imm,
}

/// The layout of the immediate operands of an opcode.
pub enum Shape {
    /// No operand.
    Plain,
    /// One inline signature byte.
    Sig,
    /// One unsigned varint index.
    Index,
    /// An unsigned varint index and a reserved unsigned varint.
    Indirect,
    /// A reserved unsigned varint.
    Flag,
    /// Two unsigned varints: alignment flags and offset.
    Memory,
    /// An unsigned varint arm count, that many unsigned varint targets, and
    /// an unsigned varint default target.
    Table,
    /// A signed varint, kept as 32 bits.
    I32,
    /// A signed varint.
    I64,
    /// Four bytes, little-endian.
    F32,
    /// Eight bytes, little-endian.
    F64,
}

/// The opcode table: which operands follow opcode byte `code`, or `None`
/// where the byte is no opcode.
pub open spec fn operand_shape(code: u8) -> Option<Shape> {
    if 0x02 <= code <= 0x04 {
        Some(Shape::Sig)
    } else if code == 0x0c || code == 0x0d || code == 0x10 || 0x20 <= code <= 0x24 {
        Some(Shape::Index)
    } else if code == 0x0e {
        Some(Shape::Table)
    } else if code == 0x11 {
        Some(Shape::Indirect)
    } else if 0x28 <= code <= 0x3e {
        Some(Shape::Memory)
    } else if code == 0x3f || code == 0x40 {
        Some(Shape::Flag)
    } else if code == 0x41 {
        Some(Shape::I32)
    } else if code == 0x42 {
        Some(Shape::I64)
    } else if code == 0x43 {
        Some(Shape::F32)
    } else if code == 0x44 {
        Some(Shape::F64)
    } else if code <= 0x01 || code == 0x05 || code == 0x0b || code == 0x0f || code == 0x1a
        || code == 0x1b || 0x45 <= code <= 0xbf {
        Some(Shape::Plain)
    } else {
        None
    }
}

/// True of the opcodes that open a scope: block, loop and if.
pub open spec fn opens_scope(code: u8) -> bool {
    0x02 <= code <= 0x04
}

/// True of the opcode that closes a scope.
pub open spec fn closes_scope(code: u8) -> bool {
    code == 0x0b
}

impl<'a> View for BrTable<'a> {
    type V = BrTableView;

    closed spec fn view(&self) -> BrTableView {
        BrTableView { count: self.count, raw: self.raw@, default: self.default }
    }
}

impl<'a> View for BrTableArmIterator<'a> {
    type V = ArmsView;

    closed spec fn view(&self) -> ArmsView {
        ArmsView { count: self.count, bytes: self.iter@ }
    }
}

impl<'a> Op<'a> {
    /// The opcode byte of this instruction.
    pub open spec fn code(self) -> u8 {
        match self {
            Op::Unreachable => 0x00,
            Op::Nop => 0x01,
            Op::Block(_) => 0x02,
            Op::Loop(_) => 0x03,
            Op::If(_) => 0x04,
            Op::Else => 0x05,
            Op::End => 0x0b,
            Op::Br(_) => 0x0c,
            Op::BrIf(_) => 0x0d,
            Op::BrTable(_) => 0x0e,
            Op::Return => 0x0f,
            Op::Call(_) => 0x10,
            Op::CallIndirect(_, _) => 0x11,
            Op::Drop => 0x1a,
            Op::Select => 0x1b,
            Op::GetLocal(_) => 0x20,
            Op::SetLocal(_) => 0x21,
            Op::TeeLocal(_) => 0x22,
            Op::GetGlobal(_) => 0x23,
            Op::SetGlobal(_) => 0x24,
            Op::I32Load(_) => 0x28,
            Op::I64Load(_) => 0x29,
            Op::F32Load(_) => 0x2a,
            Op::F64Load(_) => 0x2b,
            Op::I32Load8S(_) => 0x2c,
            Op::I32Load8U(_) => 0x2d,
            Op::I32Load16S(_) => 0x2e,
            Op::I32Load16U(_) => 0x2f,
            Op::I64Load8S(_) => 0x30,
            Op::I64Load8U(_) => 0x31,
            Op::I64Load16S(_) => 0x32,
            Op::I64Load16U(_) => 0x33,
            Op::I64Load32S(_) => 0x34,
            Op::I64Load32U(_) => 0x35,
            Op::I32Store(_) => 0x36,
            Op::I64Store(_) => 0x37,
            Op::F32Store(_) => 0x38,
            Op::F64Store(_) => 0x39,
            Op::I32Store8(_) => 0x3a,
            Op::I32Store16(_) => 0x3b,
            Op::I64Store8(_) => 0x3c,
            Op::I64Store16(_) => 0x3d,
            Op::I64Store32(_) => 0x3e,
            Op::CurrentMemory(_) => 0x3f,
            Op::GrowMemory(_) => 0x40,
            Op::I32Const(_) => 0x41,
            Op::I64Const(_) => 0x42,
            Op::F32Const(_) => 0x43,
            Op::F64Const(_) => 0x44,
            Op::I32Eqz => 0x45,
            Op::I32Eq => 0x46,
            Op::I32Ne => 0x47,
            Op::I32LtS => 0x48,
            Op::I32LtU => 0x49,
            Op::I32GtS => 0x4a,
            Op::I32GtU => 0x4b,
            Op::I32LeS => 0x4c,
            Op::I32LeU => 0x4d,
            Op::I32GeS => 0x4e,
            Op::I32GeU => 0x4f,
            Op::I64Eqz => 0x50,
            Op::I64Eq => 0x51,
            Op::I64Ne => 0x52,
            Op::I64LtS => 0x53,
            Op::I64LtU => 0x54,
            Op::I64GtS => 0x55,
            Op::I64GtU => 0x56,
            Op::I64LeS => 0x57,
            Op::I64LeU => 0x58,
            Op::I64GeS => 0x59,
            Op::I64GeU => 0x5a,
            Op::F32Eq => 0x5b,
            Op::F32Ne => 0x5c,
            Op::F32Lt => 0x5d,
            Op::F32Gt => 0x5e,
            Op::F32Le => 0x5f,
            Op::F32Ge => 0x60,
            Op::F64Eq => 0x61,
            Op::F64Ne => 0x62,
            Op::F64Lt => 0x63,
            Op::F64Gt => 0x64,
            Op::F64Le => 0x65,
            Op::F64Ge => 0x66,
            Op::I32Clz => 0x67,
            Op::I32Ctz => 0x68,
            Op::I32Popcnt => 0x69,
            Op::I32Add => 0x6a,
            Op::I32Sub => 0x6b,
            Op::I32Mul => 0x6c,
            Op::I32DivS => 0x6d,
            Op::I32DivU => 0x6e,
            Op::I32RemS => 0x6f,
            Op::I32RemU => 0x70,
            Op::I32And => 0x71,
            Op::I32Or => 0x72,
            Op::I32Xor => 0x73,
            Op::I32Shl => 0x74,
            Op::I32ShrS => 0x75,
            Op::I32ShrU => 0x76,
            Op::I32Rotl => 0x77,
            Op::I32Rotr => 0x78,
            Op::I64Clz => 0x79,
            Op::I64Ctz => 0x7a,
            Op::I64Popcnt => 0x7b,
            Op::I64Add => 0x7c,
            Op::I64Sub => 0x7d,
            Op::I64Mul => 0x7e,
            Op::I64DivS => 0x7f,
            Op::I64DivU => 0x80,
            Op::I64RemS => 0x81,
            Op::I64RemU => 0x82,
            Op::I64And => 0x83,
            Op::I64Or => 0x84,
            Op::I64Xor => 0x85,
            Op::I64Shl => 0x86,
            Op::I64ShrS => 0x87,
            Op::I64ShrU => 0x88,
            Op::I64Rotl => 0x89,
            Op::I64Rotr => 0x8a,
            Op::F32Abs => 0x8b,
            Op::F32Neg => 0x8c,
            Op::F32Ceil => 0x8d,
            Op::F32Floor => 0x8e,
            Op::F32Trunc => 0x8f,
            Op::F32Nearest => 0x90,
            Op::F32Sqrt => 0x91,
            Op::F32Add => 0x92,
            Op::F32Sub => 0x93,
            Op::F32Mul => 0x94,
            Op::F32Div => 0x95,
            Op::F32Min => 0x96,
            Op::F32Max => 0x97,
            Op::F32Copysign => 0x98,
            Op::F64Abs => 0x99,
            Op::F64Neg => 0x9a,
            Op::F64Ceil => 0x9b,
            Op::F64Floor => 0x9c,
            Op::F64Trunc => 0x9d,
            Op::F64Nearest => 0x9e,
            Op::F64Sqrt => 0x9f,
            Op::F64Add => 0xa0,
            Op::F64Sub => 0xa1,
            Op::F64Mul => 0xa2,
            Op::F64Div => 0xa3,
            Op::F64Min => 0xa4,
            Op::F64Max => 0xa5,
            Op::F64Copysign => 0xa6,
            Op::I32WrapI64 => 0xa7,
            Op::I32TruncSF32 => 0xa8,
            Op::I32TruncUF32 => 0xa9,
            Op::I32TruncSF64 => 0xaa,
            Op::I32TruncUF64 => 0xab,
            Op::I64ExtendSI32 => 0xac,
            Op::I64ExtendUI32 => 0xad,
            Op::I64TruncSF32 => 0xae,
            Op::I64TruncUF32 => 0xaf,
            Op::I64TruncSF64 => 0xb0,
            Op::I64TruncUF64 => 0xb1,
            Op::F32ConvertSI32 => 0xb2,
            Op::F32ConvertUI32 => 0xb3,
            Op::F32ConvertSI64 => 0xb4,
            Op::F32ConvertUI64 => 0xb5,
            Op::F32DemoteF64 => 0xb6,
            Op::F64ConvertSI32 => 0xb7,
            Op::F64ConvertUI32 => 0xb8,
            Op::F64ConvertSI64 => 0xb9,
            Op::F64ConvertUI64 => 0xba,
            Op::F64PromoteF32 => 0xbb,
            Op::I32ReinterpretF32 => 0xbc,
            Op::I64ReinterpretF64 => 0xbd,
            Op::F32ReinterpretI32 => 0xbe,
            Op::F64ReinterpretI64 => 0xbf,
        }
    }

    /// The immediate operands of this instruction.
    pub open spec fn imm(self) -> Imm {
        match self {
            Op::Block(t)
            | Op::Loop(t)
            | Op::If(t) => Imm::Sig(t),
            Op::Br(v)
            | Op::BrIf(v)
            | Op::Call(v)
            | Op::GetLocal(v)
            | Op::SetLocal(v)
            | Op::TeeLocal(v)
            | Op::GetGlobal(v)
            | Op::SetGlobal(v) => Imm::Index(v),
            Op::CallIndirect(v, b) => Imm::Indirect(v, b),
            Op::CurrentMemory(b)
            | Op::GrowMemory(b) => Imm::Flag(b),
            Op::I32Load(m)
            | Op::I64Load(m)
            | Op::F32Load(m)
            | Op::F64Load(m)
            | Op::I32Load8S(m)
            | Op::I32Load8U(m)
            | Op::I32Load16S(m)
            | Op::I32Load16U(m)
            | Op::I64Load8S(m)
            | Op::I64Load8U(m)
            | Op::I64Load16S(m)
            | Op::I64Load16U(m)
            | Op::I64Load32S(m)
            | Op::I64Load32U(m)
            | Op::I32Store(m)
            | Op::I64Store(m)
            | Op::F32Store(m)
            | Op::F64Store(m)
            | Op::I32Store8(m)
            | Op::I32Store16(m)
            | Op::I64Store8(m)
            | Op::I64Store16(m)
            | Op::I64Store32(m) => Imm::Memory(m),
            Op::BrTable(t) => Imm::Table(t@),
            Op::I32Const(v) => Imm::I32(v),
            Op::I64Const(v) => Imm::I64(v),
            Op::F32Const(v) => Imm::F32(v),
            Op::F64Const(v) => Imm::F64(v),
            _ => Imm::Empty,
        }
    }
}

impl<'a> View for Op<'a> {
    type V = OpView;

    open spec fn view(&self) -> OpView {
        OpView { code: self.code(), imm: self.imm() }
    }
}

/// The bytes that are left of `s` after `n` unsigned varints.
pub open spec fn skip_varuints(s: Seq<u8>, n: nat) -> Result<Seq<u8>, Error>
    decreases n,
{
    if n == 0 {
        Ok(s)
    } else {
        match skip_varuints(s, (n - 1) as nat) {
            Err(e) => Err(e),
            Ok(r) => match take_varuint(r) {
                Err(e) => Err(e),
                Ok((_, rest)) => Ok(rest),
            },
        }
    }
}

/// A memory immediate at the start of `s`, and the bytes after it.
pub open spec fn take_memory_immediate(s: Seq<u8>) -> Result<(MemoryImmediate, Seq<u8>), Error> {
    match take_varuint(s) {
        Err(e) => Err(e),
        Ok((flags, r1)) => match take_varuint(r1) {
            Err(e) => Err(e),
            Ok((offset, r2)) => Ok(
                (MemoryImmediate { flags: flags as u32, offset: offset as u32 }, r2),
            ),
        },
    }
}

/// A branch table at the start of `s`, and the bytes after it. The table
/// keeps the bytes of its arms, which have been checked to hold as many
/// unsigned varints as the count says.
pub open spec fn take_table(s: Seq<u8>) -> Result<(BrTableView, Seq<u8>), Error> {
    match take_varuint(s) {
        Err(e) => Err(e),
        Ok((count, r1)) => match skip_varuints(r1, (count as u32) as nat) {
            Err(e) => Err(e),
            Ok(r2) => match take_varuint(r2) {
                Err(e) => Err(e),
                Ok((default, r3)) => Ok(
                    (
                        BrTableView {
                            count: count as u32,
                            raw: r1.take(r1.len() - r2.len()),
                            default: default as u32,
                        },
                        r3,
                    ),
                ),
            },
        },
    }
}

/// The operands of the given shape at the start of `s`, and the bytes after
/// them.
pub open spec fn take_imm(shape: Shape, s: Seq<u8>) -> Result<(Imm, Seq<u8>), Error> {
    match shape {
        Shape::Plain => Ok((Imm::Empty, s)),
        Shape::Sig => match take_u8(s) {
            Err(e) => Err(e),
            Ok((b, rest)) => match InlineSignatureType::spec_from_int(b) {
                None => Err(Error::UnknownVariant("inline signature type")),
                Some(t) => Ok((Imm::Sig(t), rest)),
            },
        },
        Shape::Index => match take_varuint(s) {
            Err(e) => Err(e),
            Ok((v, rest)) => Ok((Imm::Index(v as u32), rest)),
        },
        Shape::Indirect => match take_varuint(s) {
            Err(e) => Err(e),
            Ok((v, r1)) => match take_varuint(r1) {
                Err(e) => Err(e),
                Ok((reserved, r2)) => Ok((Imm::Indirect(v as u32, reserved != 0), r2)),
            },
        },
        Shape::Flag => match take_varuint(s) {
            Err(e) => Err(e),
            Ok((reserved, rest)) => Ok((Imm::Flag(reserved != 0), rest)),
        },
        Shape::Memory => match take_memory_immediate(s) {
            Err(e) => Err(e),
            Ok((m, rest)) => Ok((Imm::Memory(m), rest)),
        },
        Shape::Table => match take_table(s) {
            Err(e) => Err(e),
            Ok((t, rest)) => Ok((Imm::Table(t), rest)),
        },
        Shape::I32 => match take_varint(s) {
            Err(e) => Err(e),
            Ok((v, rest)) => Ok((Imm::I32(v as i32), rest)),
        },
        Shape::I64 => match take_varint(s) {
            Err(e) => Err(e),
            Ok((v, rest)) => Ok((Imm::I64(v), rest)),
        },
        Shape::F32 => match take_u32_le(s) {
            Err(e) => Err(e),
            Ok((v, rest)) => Ok((Imm::F32(v), rest)),
        },
        Shape::F64 => match take_u64_le(s) {
            Err(e) => Err(e),
            Ok((v, rest)) => Ok((Imm::F64(v), rest)),
        },
    }
}

/// The instruction at the start of `s`, and the bytes after it: one opcode
/// byte, looked up in the opcode table, and the operands that the table
/// asks for.
pub open spec fn take_op(s: Seq<u8>) -> Result<(OpView, Seq<u8>), Error> {
    match take_u8(s) {
        Err(e) => Err(e),
        Ok((code, r1)) => match operand_shape(code) {
            None => Err(Error::UnknownVariant("opcode")),
            Some(shape) => match take_imm(shape, r1) {
                Err(e) => Err(e),
                Ok((imm, r2)) => Ok((OpView { code, imm }, r2)),
            },
        },
    }
}

/// Where skipping `i` varints fails, skipping more fails in the same way.
pub proof fn lemma_skip_varuints_fails(s: Seq<u8>, i: nat, n: nat)
    requires
        i <= n,
        skip_varuints(s, i) is Err,
    ensures
        skip_varuints(s, n) == skip_varuints(s, i),
    decreases n,
{
    if i < n {
        lemma_skip_varuints_fails(s, i, (n - 1) as nat);
    }
}

/// What is left after `n` varints is a tail of `s`.
pub proof fn lemma_skip_varuints_tail(s: Seq<u8>, n: nat)
    requires
        skip_varuints(s, n) is Ok,
    ensures
        skip_varuints(s, n)->Ok_0.len() <= s.len(),
        skip_varuints(s, n)->Ok_0 == s.skip(s.len() - skip_varuints(s, n)->Ok_0.len()),
    decreases n,
{
    if n > 0 {
        lemma_skip_varuints_tail(s, (n - 1) as nat);
        let r = skip_varuints(s, (n - 1) as nat)->Ok_0;
        lemma_take_varuint_tail(r);
        let rest = take_varuint(r)->Ok_0.1;
        assert(rest =~= s.skip(s.len() - rest.len()));
    } else {
        assert(s =~= s.skip(0));
    }
}

impl MemoryImmediate {
    /// Reads the alignment flags and the offset, both unsigned varints kept
    /// as 32 bits, and moves `iter` past them. On failure `iter` stays where
    /// it was.
    pub fn read(iter: &mut &[u8]) -> (r: Result<MemoryImmediate, Error>)
        ensures
            match take_memory_immediate(old(iter)@) {
                Ok((m, rest)) => r == Ok::<MemoryImmediate, Error>(m) && final(iter)@ == rest,
                Err(e) => r == Err::<MemoryImmediate, Error>(e) && final(iter)@ == old(iter)@,
            },
    {
        let mut cur = *iter;
        let flags = match read_varuint(&mut cur) {
            Ok(v) => v,
            Err(e) => return Err(e),
        };
        let offset = match read_varuint(&mut cur) {
            Ok(v) => v,
            Err(e) => return Err(e),
        };
        *iter = cur;
        Ok(MemoryImmediate { flags: flags as u32, offset: offset as u32 })
    }
}

/// Reads a reserved unsigned varint as a flag.
fn read_flag(iter: &mut &[u8]) -> (r: Result<bool, Error>)
    ensures
        match take_varuint(old(iter)@) {
            Ok((v, rest)) => r == Ok::<bool, Error>(v != 0) && final(iter)@ == rest,
            Err(e) => r == Err::<bool, Error>(e),
        },
{
    match read_varuint(iter) {
        Ok(v) => Ok(v != 0),
        Err(e) => Err(e),
    }
}

/// Reads the inline signature byte of a block, loop or if.
fn read_signature(iter: &mut &[u8]) -> (r: Result<InlineSignatureType, Error>)
    ensures
        match take_imm(Shape::Sig, old(iter)@) {
            Ok((imm, rest)) => r is Ok && imm == Imm::Sig(r->Ok_0) && final(iter)@ == rest,
            Err(e) => r == Err::<InlineSignatureType, Error>(e),
        },
{
    let b = match read_u8(iter) {
        Ok(b) => b,
        Err(e) => return Err(e),
    };
    match InlineSignatureType::from_int(b) {
        Some(t) => Ok(t),
        None => Err(Error::UnknownVariant("inline signature type")),
    }
}

/// Reads a branch table: checks that its arms are there and keeps their
/// bytes for `arms`.
fn read_table<'a>(iter: &mut &'a [u8]) -> (r: Result<BrTable<'a>, Error>)
    ensures
        match take_table(old(iter)@) {
            Ok((t, rest)) => r is Ok && r->Ok_0@ == t && final(iter)@ == rest,
            Err(e) => r is Err && r->Err_0 == e,
        },
{
    let count = match read_index(iter) {
        Ok(v) => v,
        Err(e) => return Err(e),
    };
    let start = *iter;
    let mut cur = start;
    let mut i: u32 = 0;
    while i < count
        invariant
            i <= count,
            take_varuint(old(iter)@) is Ok,
            take_varuint(old(iter)@)->Ok_0.0 as u32 == count,
            take_varuint(old(iter)@)->Ok_0.1 == start@,
            skip_varuints(start@, i as nat) == Ok::<Seq<u8>, Error>(cur@),
        decreases count - i,
    {
        let ghost before = cur@;
        match read_varuint(&mut cur) {
            Ok(_) => {},
            Err(e) => {
                proof {
                    assert(take_varuint(before) == Err::<(u64, Seq<u8>), Error>(e));
                    assert(skip_varuints(start@, (i + 1) as nat) == Err::<Seq<u8>, Error>(e));
                    lemma_skip_varuints_fails(start@, (i + 1) as nat, count as nat);
                }
                return Err(e);
            },
        }
        i = i + 1;
    }
    proof {
        lemma_skip_varuints_tail(start@, count as nat);
    }
    let raw = slice_subrange(start, 0, start.len() - cur.len());
    let default = match read_index(&mut cur) {
        Ok(v) => v,
        Err(e) => return Err(e),
    };
    *iter = cur;
    Ok(BrTable { count, raw, default })
}

/// The instruction that opcode byte `code` is by itself, where it takes no
/// operand.
fn plain_op<'a>(code: u8) -> (r: Option<Op<'a>>)
    ensures
        r is Some <==> operand_shape(code) == Some(Shape::Plain),
        r matches Some(op) ==> op@ == (OpView { code, imm: Imm::Empty }),
{
    Some(
        match code {
            0x00 => Op::Unreachable,
            0x01 => Op::Nop,
            0x05 => Op::Else,
            0x0b => Op::End,
            0x0f => Op::Return,
            0x1a => Op::Drop,
            0x1b => Op::Select,
            0x45 => Op::I32Eqz,
            0x46 => Op::I32Eq,
            0x47 => Op::I32Ne,
            0x48 => Op::I32LtS,
            0x49 => Op::I32LtU,
            0x4a => Op::I32GtS,
            0x4b => Op::I32GtU,
            0x4c => Op::I32LeS,
            0x4d => Op::I32LeU,
            0x4e => Op::I32GeS,
            0x4f => Op::I32GeU,
            0x50 => Op::I64Eqz,
            0x51 => Op::I64Eq,
            0x52 => Op::I64Ne,
            0x53 => Op::I64LtS,
            0x54 => Op::I64LtU,
            0x55 => Op::I64GtS,
            0x56 => Op::I64GtU,
            0x57 => Op::I64LeS,
            0x58 => Op::I64LeU,
            0x59 => Op::I64GeS,
            0x5a => Op::I64GeU,
            0x5b => Op::F32Eq,
            0x5c => Op::F32Ne,
            0x5d => Op::F32Lt,
            0x5e => Op::F32Gt,
            0x5f => Op::F32Le,
            0x60 => Op::F32Ge,
            0x61 => Op::F64Eq,
            0x62 => Op::F64Ne,
            0x63 => Op::F64Lt,
            0x64 => Op::F64Gt,
            0x65 => Op::F64Le,
            0x66 => Op::F64Ge,
            0x67 => Op::I32Clz,
            0x68 => Op::I32Ctz,
            0x69 => Op::I32Popcnt,
            0x6a => Op::I32Add,
            0x6b => Op::I32Sub,
            0x6c => Op::I32Mul,
            0x6d => Op::I32DivS,
            0x6e => Op::I32DivU,
            0x6f => Op::I32RemS,
            0x70 => Op::I32RemU,
            0x71 => Op::I32And,
            0x72 => Op::I32Or,
            0x73 => Op::I32Xor,
            0x74 => Op::I32Shl,
            0x75 => Op::I32ShrS,
            0x76 => Op::I32ShrU,
            0x77 => Op::I32Rotl,
            0x78 => Op::I32Rotr,
            0x79 => Op::I64Clz,
            0x7a => Op::I64Ctz,
            0x7b => Op::I64Popcnt,
            0x7c => Op::I64Add,
            0x7d => Op::I64Sub,
            0x7e => Op::I64Mul,
            0x7f => Op::I64DivS,
            0x80 => Op::I64DivU,
            0x81 => Op::I64RemS,
            0x82 => Op::I64RemU,
            0x83 => Op::I64And,
            0x84 => Op::I64Or,
            0x85 => Op::I64Xor,
            0x86 => Op::I64Shl,
            0x87 => Op::I64ShrS,
            0x88 => Op::I64ShrU,
            0x89 => Op::I64Rotl,
            0x8a => Op::I64Rotr,
            0x8b => Op::F32Abs,
            0x8c => Op::F32Neg,
            0x8d => Op::F32Ceil,
            0x8e => Op::F32Floor,
            0x8f => Op::F32Trunc,
            0x90 => Op::F32Nearest,
            0x91 => Op::F32Sqrt,
            0x92 => Op::F32Add,
            0x93 => Op::F32Sub,
            0x94 => Op::F32Mul,
            0x95 => Op::F32Div,
            0x96 => Op::F32Min,
            0x97 => Op::F32Max,
            0x98 => Op::F32Copysign,
            0x99 => Op::F64Abs,
            0x9a => Op::F64Neg,
            0x9b => Op::F64Ceil,
            0x9c => Op::F64Floor,
            0x9d => Op::F64Trunc,
            0x9e => Op::F64Nearest,
            0x9f => Op::F64Sqrt,
            0xa0 => Op::F64Add,
            0xa1 => Op::F64Sub,
            0xa2 => Op::F64Mul,
            0xa3 => Op::F64Div,
            0xa4 => Op::F64Min,
            0xa5 => Op::F64Max,
            0xa6 => Op::F64Copysign,
            0xa7 => Op::I32WrapI64,
            0xa8 => Op::I32TruncSF32,
            0xa9 => Op::I32TruncUF32,
            0xaa => Op::I32TruncSF64,
            0xab => Op::I32TruncUF64,
            0xac => Op::I64ExtendSI32,
            0xad => Op::I64ExtendUI32,
            0xae => Op::I64TruncSF32,
            0xaf => Op::I64TruncUF32,
            0xb0 => Op::I64TruncSF64,
            0xb1 => Op::I64TruncUF64,
            0xb2 => Op::F32ConvertSI32,
            0xb3 => Op::F32ConvertUI32,
            0xb4 => Op::F32ConvertSI64,
            0xb5 => Op::F32ConvertUI64,
            0xb6 => Op::F32DemoteF64,
            0xb7 => Op::F64ConvertSI32,
            0xb8 => Op::F64ConvertUI32,
            0xb9 => Op::F64ConvertSI64,
            0xba => Op::F64ConvertUI64,
            0xbb => Op::F64PromoteF32,
            0xbc => Op::I32ReinterpretF32,
            0xbd => Op::I64ReinterpretF64,
            0xbe => Op::F32ReinterpretI32,
            0xbf => Op::F64ReinterpretI64,
            _ => return None,
        },
    )
}

/// Reads one instruction and moves `iter` past it.
fn read_op<'a>(iter: &mut &'a [u8]) -> (r: Result<Op<'a>, Error>)
    ensures
        match take_op(old(iter)@) {
            Ok((op, rest)) => r is Ok && r->Ok_0@ == op && final(iter)@ == rest,
            Err(e) => r is Err && r->Err_0 == e,
        },
{
    let code = match read_u8(iter) {
        Ok(b) => b,
        Err(e) => return Err(e),
    };
    Ok(
        match code {
            0x02 => Op::Block(read_signature(iter)?),
            0x03 => Op::Loop(read_signature(iter)?),
            0x04 => Op::If(read_signature(iter)?),
            0x0c => Op::Br(read_index(iter)?),
            0x0d => Op::BrIf(read_index(iter)?),
            0x10 => Op::Call(read_index(iter)?),
            0x20 => Op::GetLocal(read_index(iter)?),
            0x21 => Op::SetLocal(read_index(iter)?),
            0x22 => Op::TeeLocal(read_index(iter)?),
            0x23 => Op::GetGlobal(read_index(iter)?),
            0x24 => Op::SetGlobal(read_index(iter)?),
            0x0e => Op::BrTable(read_table(iter)?),
            0x11 => {
                let index = read_index(iter)?;
                let reserved = read_flag(iter)?;
                Op::CallIndirect(index, reserved)
            },
            0x28 => Op::I32Load(MemoryImmediate::read(iter)?),
            0x29 => Op::I64Load(MemoryImmediate::read(iter)?),
            0x2a => Op::F32Load(MemoryImmediate::read(iter)?),
            0x2b => Op::F64Load(MemoryImmediate::read(iter)?),
            0x2c => Op::I32Load8S(MemoryImmediate::read(iter)?),
            0x2d => Op::I32Load8U(MemoryImmediate::read(iter)?),
            0x2e => Op::I32Load16S(MemoryImmediate::read(iter)?),
            0x2f => Op::I32Load16U(MemoryImmediate::read(iter)?),
            0x30 => Op::I64Load8S(MemoryImmediate::read(iter)?),
            0x31 => Op::I64Load8U(MemoryImmediate::read(iter)?),
            0x32 => Op::I64Load16S(MemoryImmediate::read(iter)?),
            0x33 => Op::I64Load16U(MemoryImmediate::read(iter)?),
            0x34 => Op::I64Load32S(MemoryImmediate::read(iter)?),
            0x35 => Op::I64Load32U(MemoryImmediate::read(iter)?),
            0x36 => Op::I32Store(MemoryImmediate::read(iter)?),
            0x37 => Op::I64Store(MemoryImmediate::read(iter)?),
            0x38 => Op::F32Store(MemoryImmediate::read(iter)?),
            0x39 => Op::F64Store(MemoryImmediate::read(iter)?),
            0x3a => Op::I32Store8(MemoryImmediate::read(iter)?),
            0x3b => Op::I32Store16(MemoryImmediate::read(iter)?),
            0x3c => Op::I64Store8(MemoryImmediate::read(iter)?),
            0x3d => Op::I64Store16(MemoryImmediate::read(iter)?),
            0x3e => Op::I64Store32(MemoryImmediate::read(iter)?),
            0x3f => Op::CurrentMemory(read_flag(iter)?),
            0x40 => Op::GrowMemory(read_flag(iter)?),
            0x41 => Op::I32Const(read_varint(iter)? as i32),
            0x42 => Op::I64Const(read_varint(iter)?),
            0x43 => Op::F32Const(read_u32_le(iter)?),
            0x44 => Op::F64Const(read_u64_le(iter)?),
            _ => match plain_op(code) {
                Some(op) => op,
                None => return Err(Error::UnknownVariant("opcode")),
            },
        },
    )
}

/// One pull on the arms of a branch table: nothing once the declared count
/// has been yielded, else the next unsigned varint, kept as 32 bits. A
/// failure is yielded once and leaves the sequence exhausted.
pub open spec fn arms_step(st: ArmsView) -> (Option<Result<u32, Error>>, ArmsView) {
    if st.count == 0 {
        (None, st)
    } else {
        match take_varuint(st.bytes) {
            Ok((v, rest)) => (
                Some(Ok(v as u32)),
                ArmsView { count: (st.count - 1) as u32, bytes: rest },
            ),
            Err(e) => (Some(Err(e)), ArmsView { count: 0, bytes: st.bytes }),
        }
    }
}

impl<'a> BrTable<'a> {
    /// A fresh cursor over the arms, at the first one.
    pub fn arms(&self) -> (r: BrTableArmIterator<'a>)
        ensures
            r@ == (ArmsView { count: self@.count, bytes: self@.raw }),
    {
        BrTableArmIterator { count: self.count, iter: self.raw }
    }
}

impl<'a> BrTableArmIterator<'a> {
    /// The next arm's target.
    pub fn next(&mut self) -> (r: Option<Result<u32, Error>>)
        ensures
            arms_step(old(self)@) == (r, final(self)@),
    {
        if self.count == 0 {
            return None;
        }
        let mut cur = self.iter;
        match read_varuint(&mut cur) {
            Ok(v) => {
                self.count = self.count - 1;
                self.iter = cur;
                Some(Ok(v as u32))
            },
            Err(e) => {
                self.count = 0;
                Some(Err(e))
            },
        }
    }
}

/// A cursor over an instruction stream.
///
/// The stream starts inside one implicit scope and ends with the instruction
/// that closes it.
pub struct OpIterator<'a> {
    iter: &'a [u8],
    nesting: usize,
}

/// What an `OpIterator` holds: the bytes not yet decoded and the number of
/// scopes that are open. At nesting `0` the stream has ended.
pub struct OpIterView {
    pub bytes: Seq<u8>,
    pub nesting: nat,
}

impl<'a> View for OpIterator<'a> {
    type V = OpIterView;

    closed spec fn view(&self) -> OpIterView {
        OpIterView { bytes: self.iter@, nesting: self.nesting as nat }
    }
}

/// The number of open scopes after an instruction with opcode `code` was
/// decoded at nesting `n`.
pub open spec fn nesting_after(n: nat, code: u8) -> nat {
    if opens_scope(code) {
        n + 1
    } else if closes_scope(code) && n > 0 {
        (n - 1) as nat
    } else {
        n
    }
}

/// The next instruction of a stream, and the stream after it: the bytes
/// that follow the instruction, with one scope more or less open where the
/// instruction opens or closes one.
pub open spec fn take_next_op(st: OpIterView) -> Result<(OpView, OpIterView), Error> {
    match take_op(st.bytes) {
        Ok((op, rest)) => Ok(
            (op, OpIterView { bytes: rest, nesting: nesting_after(st.nesting, op.code) }),
        ),
        Err(e) => Err(e),
    }
}

/// One pull on an instruction stream: nothing once the outermost scope has
/// closed, else the next instruction. A failure is yielded once and leaves
/// the stream ended, with its bytes where the failed instruction began.
pub open spec fn op_step(st: OpIterView) -> (Option<Result<OpView, Error>>, OpIterView) {
    if st.nesting == 0 {
        (None, st)
    } else {
        match take_next_op(st) {
            Ok((op, after)) => (Some(Ok(op)), after),
            Err(e) => (Some(Err(e)), OpIterView { bytes: st.bytes, nesting: 0 }),
        }
    }
}

/// What `take_table` leaves is a tail of the input, shorter than it.
proof fn lemma_take_table_tail(s: Seq<u8>)
    requires
        take_table(s) is Ok,
    ensures
        take_table(s)->Ok_0.1.len() < s.len(),
        take_table(s)->Ok_0.1 == s.skip(s.len() - take_table(s)->Ok_0.1.len()),
{
    lemma_take_varuint_tail(s);
    let r1 = take_varuint(s)->Ok_0.1;
    let count = take_varuint(s)->Ok_0.0;
    lemma_skip_varuints_tail(r1, (count as u32) as nat);
    let r2 = skip_varuints(r1, (count as u32) as nat)->Ok_0;
    lemma_take_varuint_tail(r2);
    let r3 = take_varuint(r2)->Ok_0.1;
    assert(r3 =~= s.skip(s.len() - r3.len()));
}

/// Decoding operands never makes the input longer, and what is left is a
/// tail of it.
pub proof fn lemma_take_imm_tail(shape: Shape, s: Seq<u8>)
    requires
        take_imm(shape, s) is Ok,
    ensures
        take_imm(shape, s)->Ok_0.1.len() <= s.len(),
        shape is Sig ==> take_imm(shape, s)->Ok_0.1.len() < s.len(),
        take_imm(shape, s)->Ok_0.1 == s.skip(s.len() - take_imm(shape, s)->Ok_0.1.len()),
{
    let rest = take_imm(shape, s)->Ok_0.1;
    match shape {
        Shape::Plain => {},
        Shape::Sig => {},
        Shape::Index | Shape::Flag => {
            lemma_take_varuint_tail(s);
        },
        Shape::Indirect | Shape::Memory => {
            lemma_take_varuint_tail(s);
            lemma_take_varuint_tail(take_varuint(s)->Ok_0.1);
        },
        Shape::Table => {
            lemma_take_table_tail(s);
        },
        Shape::I32 | Shape::I64 => {
            lemma_take_varint_tail(s);
        },
        Shape::F32 => {},
        Shape::F64 => {},
    }
    assert(rest =~= s.skip(s.len() - rest.len()));
}

/// A decoded instruction uses at least one byte, two if it opens a scope,
/// and what is left is a tail of the input.
pub proof fn lemma_take_op_tail(s: Seq<u8>)
    requires
        take_op(s) is Ok,
    ensures
        take_op(s)->Ok_0.1.len() < s.len(),
        opens_scope(take_op(s)->Ok_0.0.code) ==> take_op(s)->Ok_0.1.len() + 2 <= s.len(),
        take_op(s)->Ok_0.1 == s.skip(s.len() - take_op(s)->Ok_0.1.len()),
{
    let code = s[0];
    let shape = operand_shape(code)->Some_0;
    lemma_take_imm_tail(shape, s.skip(1));
    let rest = take_op(s)->Ok_0.1;
    assert(rest =~= s.skip(s.len() - rest.len()));
}

impl<'a> OpIterator<'a> {
    /// Every scope that is open beyond the first took two bytes to open, so
    /// the count cannot outgrow the machine word.
    #[verifier::type_invariant]
    spec fn bounded(self) -> bool {
        self.nesting == 0 || 2 * (self.nesting - 1) + self.iter@.len() <= usize::MAX
    }

    /// A cursor at the start of `data`, inside the implicit outer scope.
    pub fn new(data: &'a [u8]) -> (r: OpIterator<'a>)
        ensures
            r@ == (OpIterView { bytes: data@, nesting: 1 }),
    {
        assert(data@.len() == data.len());
        OpIterator { iter: data, nesting: 1 }
    }

    /// A cursor over `data` that has ended and yields nothing.
    pub(crate) fn ended(data: &'a [u8]) -> (r: OpIterator<'a>)
        ensures
            r@ == (OpIterView { bytes: data@, nesting: 0 }),
    {
        OpIterator { iter: data, nesting: 0 }
    }

    /// The bytes that have not been decoded yet.
    pub fn remaining(&self) -> (r: &'a [u8])
        ensures
            r@ == self@.bytes,
    {
        self.iter
    }

    /// True once the outermost scope has closed or a failure was yielded.
    pub fn is_done(&self) -> (r: bool)
        ensures
            r == (self@.nesting == 0),
    {
        self.nesting == 0
    }

    /// The next instruction.
    pub fn next(&mut self) -> (r: Option<Result<Op<'a>, Error>>)
        ensures
            op_step(old(self)@) == (item_view(r), final(self)@),
    {
        proof {
            use_type_invariant(&*self);
        }
        if self.nesting == 0 {
            return None;
        }
        let mut cur = self.iter;
        match read_op(&mut cur) {
            Ok(op) => {
                proof {
                    lemma_take_op_tail(self.iter@);
                }
                self.iter = cur;
                match op {
                    Op::Block(_) | Op::Loop(_) | Op::If(_) => {
                        self.nesting = self.nesting + 1;
                    },
                    Op::End => {
                        self.nesting = self.nesting - 1;
                    },
                    _ => {},
                }
                Some(Ok(op))
            },
            Err(e) => {
                self.nesting = 0;
                Some(Err(e))
            },
        }
    }
}

} // verus!
