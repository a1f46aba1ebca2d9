use wasm_reader::{Error, InlineSignatureType, Op, OpIterator};

fn decode(bytes: &[u8]) -> (Vec<Op<'_>>, Option<Error>, usize) {
    let mut it = OpIterator::new(bytes);
    let mut ops = Vec::new();
    let mut failure = None;
    while let Some(item) = it.next() {
        match item {
            Ok(op) => ops.push(op),
            Err(e) => failure = Some(e),
        }
    }
    (ops, failure, it.remaining().len())
}

#[test]
fn constant_then_end() {
    let bytes = [0x41, 0x05, 0x0b];
    let mut it = OpIterator::new(&bytes);
    assert!(matches!(it.next(), Some(Ok(Op::I32Const(5)))));
    assert!(!it.is_done());
    assert!(matches!(it.next(), Some(Ok(Op::End))));
    assert!(it.is_done());
    assert!(it.next().is_none());
    assert!(it.next().is_none());
}

#[test]
fn stream_stops_at_the_closing_end_whatever_follows() {
    let bytes = [0x01, 0x0b, 0x01, 0x01, 0xff];
    let (ops, failure, left) = decode(&bytes);
    assert_eq!(ops.len(), 2);
    assert!(failure.is_none());
    assert_eq!(left, 3);
}

#[test]
fn nested_scopes_need_one_end_each_and_one_more() {
    // block (empty) ; loop i32 ; if f64 ; else ; end ; end ; end ; end ; nop
    let bytes = [0x02, 0x40, 0x03, 0x7f, 0x04, 0x7c, 0x05, 0x0b, 0x0b, 0x0b, 0x0b, 0x01];
    let (ops, failure, left) = decode(&bytes);
    assert!(failure.is_none());
    assert_eq!(left, 1);
    assert_eq!(ops.len(), 8);
    assert!(matches!(ops[0], Op::Block(InlineSignatureType::Empty)));
    assert!(matches!(ops[1], Op::Loop(InlineSignatureType::I32)));
    assert!(matches!(ops[2], Op::If(InlineSignatureType::F64)));
    assert!(matches!(ops[3], Op::Else));
    let opens = ops
        .iter()
        .filter(|op| matches!(op, Op::Block(_) | Op::Loop(_) | Op::If(_)))
        .count();
    let closes = ops.iter().filter(|op| matches!(op, Op::End)).count();
    assert_eq!(closes, opens + 1);
    assert!(matches!(ops[7], Op::End));
}

#[test]
fn stream_without_closing_end_is_cut_short() {
    let bytes = [0x02, 0x40, 0x0b];
    let mut it = OpIterator::new(&bytes);
    assert!(matches!(it.next(), Some(Ok(Op::Block(_)))));
    assert!(matches!(it.next(), Some(Ok(Op::End))));
    assert!(matches!(it.next(), Some(Err(Error::Eof))));
    assert!(it.is_done());
    assert!(it.next().is_none());
}

#[test]
fn empty_stream_is_cut_short() {
    let mut it = OpIterator::new(&[]);
    assert!(matches!(it.next(), Some(Err(Error::Eof))));
    assert!(it.next().is_none());
}

#[test]
fn unknown_opcode() {
    for code in [0x06u8, 0x0a, 0x12, 0x19, 0x1c, 0x1f, 0x25, 0x27, 0xc0, 0xff] {
        let bytes = [code, 0x0b];
        let mut it = OpIterator::new(&bytes);
        assert!(matches!(it.next(), Some(Err(Error::UnknownVariant("opcode")))));
        assert!(it.next().is_none());
        assert_eq!(it.remaining(), &bytes);
    }
}

#[test]
fn unknown_inline_signature() {
    let bytes = [0x02, 0x41, 0x0b];
    let mut it = OpIterator::new(&bytes);
    assert!(matches!(it.next(), Some(Err(Error::UnknownVariant("inline signature type")))));
    assert!(it.next().is_none());
}

#[test]
fn block_without_signature_is_cut_short() {
    let mut it = OpIterator::new(&[0x04]);
    assert!(matches!(it.next(), Some(Err(Error::Eof))));
    assert!(it.next().is_none());
}

#[test]
fn index_operands() {
    let bytes = [
        0x0c, 0x01, 0x0d, 0x02, 0x10, 0x03, 0x20, 0x04, 0x21, 0x05, 0x22, 0x06, 0x23, 0x07, 0x24,
        0x80, 0x01, 0x0b,
    ];
    let (ops, failure, left) = decode(&bytes);
    assert!(failure.is_none());
    assert_eq!(left, 0);
    assert_eq!(ops.len(), 9);
    assert!(matches!(ops[0], Op::Br(1)));
    assert!(matches!(ops[1], Op::BrIf(2)));
    assert!(matches!(ops[2], Op::Call(3)));
    assert!(matches!(ops[3], Op::GetLocal(4)));
    assert!(matches!(ops[4], Op::SetLocal(5)));
    assert!(matches!(ops[5], Op::TeeLocal(6)));
    assert!(matches!(ops[6], Op::GetGlobal(7)));
    assert!(matches!(ops[7], Op::SetGlobal(128)));
}

#[test]
fn call_indirect_has_an_index_and_a_reserved_flag() {
    let bytes = [0x11, 0x09, 0x00, 0x11, 0x0a, 0x01, 0x0b];
    let (ops, failure, _) = decode(&bytes);
    assert!(failure.is_none());
    assert!(matches!(ops[0], Op::CallIndirect(9, false)));
    assert!(matches!(ops[1], Op::CallIndirect(10, true)));
}

#[test]
fn memory_size_and_grow_have_a_reserved_flag() {
    let bytes = [0x3f, 0x00, 0x40, 0x01, 0x0b];
    let (ops, failure, _) = decode(&bytes);
    assert!(failure.is_none());
    assert!(matches!(ops[0], Op::CurrentMemory(false)));
    assert!(matches!(ops[1], Op::GrowMemory(true)));
}

#[test]
fn loads_and_stores_have_a_memory_immediate() {
    let bytes = [0x28, 0x02, 0x10, 0x36, 0x03, 0x80, 0x01, 0x3e, 0x00, 0x00, 0x0b];
    let (ops, failure, left) = decode(&bytes);
    assert!(failure.is_none());
    assert_eq!(left, 0);
    match &ops[0] {
        Op::I32Load(m) => assert_eq!((m.flags, m.offset), (2, 16)),
        other => panic!("unexpected {:?}", other),
    }
    match &ops[1] {
        Op::I32Store(m) => assert_eq!((m.flags, m.offset), (3, 128)),
        other => panic!("unexpected {:?}", other),
    }
    match &ops[2] {
        Op::I64Store32(m) => assert_eq!((m.flags, m.offset), (0, 0)),
        other => panic!("unexpected {:?}", other),
    }
}

#[test]
fn every_load_and_store_opcode_takes_two_varints() {
    for code in 0x28..=0x3eu8 {
        let bytes = [code, 0x01, 0x02, 0x0b];
        let (ops, failure, left) = decode(&bytes);
        assert!(failure.is_none());
        assert_eq!(ops.len(), 2);
        assert_eq!(left, 0);
    }
}

#[test]
fn every_plain_opcode_takes_no_operand() {
    let plain: Vec<u8> = [0x00u8, 0x01, 0x05, 0x0f, 0x1a, 0x1b]
        .into_iter()
        .chain(0x45..=0xbfu8)
        .collect();
    assert_eq!(plain.len(), 129);
    for code in plain {
        let bytes = [code, 0x0b, 0x77];
        let (ops, failure, left) = decode(&bytes);
        assert!(failure.is_none(), "opcode {:#x}", code);
        assert_eq!(ops.len(), 2, "opcode {:#x}", code);
        assert_eq!(left, 1, "opcode {:#x}", code);
    }
}

#[test]
fn some_plain_opcodes_by_name() {
    let bytes = [0x00, 0x01, 0x0f, 0x1a, 0x1b, 0x45, 0x6a, 0x7c, 0xa7, 0xbc, 0xbf, 0x0b];
    let (ops, failure, _) = decode(&bytes);
    assert!(failure.is_none());
    assert!(matches!(ops[0], Op::Unreachable));
    assert!(matches!(ops[1], Op::Nop));
    assert!(matches!(ops[2], Op::Return));
    assert!(matches!(ops[3], Op::Drop));
    assert!(matches!(ops[4], Op::Select));
    assert!(matches!(ops[5], Op::I32Eqz));
    assert!(matches!(ops[6], Op::I32Add));
    assert!(matches!(ops[7], Op::I64Add));
    assert!(matches!(ops[8], Op::I32WrapI64));
    assert!(matches!(ops[9], Op::I32ReinterpretF32));
    assert!(matches!(ops[10], Op::F64ReinterpretI64));
    assert!(matches!(ops[11], Op::End));
}

#[test]
fn float_constants_are_little_endian_bits() {
    let mut bytes = vec![0x43];
    bytes.extend_from_slice(&1.5f32.to_le_bytes());
    bytes.push(0x44);
    bytes.extend_from_slice(&(-2.25f64).to_le_bytes());
    bytes.push(0x0b);
    let (ops, failure, left) = decode(&bytes);
    assert!(failure.is_none());
    assert_eq!(left, 0);
    match ops[0] {
        Op::F32Const(bits) => {
            assert_eq!(bits, 0x3fc0_0000);
            assert_eq!(f32::from_bits(bits), 1.5);
        }
        ref other => panic!("unexpected {:?}", other),
    }
    match ops[1] {
        Op::F64Const(bits) => assert_eq!(f64::from_bits(bits), -2.25),
        ref other => panic!("unexpected {:?}", other),
    }
}

#[test]
fn float_constant_that_is_cut_short() {
    let mut it = OpIterator::new(&[0x43, 0x00, 0x00, 0x00]);
    assert!(matches!(it.next(), Some(Err(Error::Eof))));
    let mut it = OpIterator::new(&[0x44, 0, 0, 0, 0, 0, 0, 0]);
    assert!(matches!(it.next(), Some(Err(Error::Eof))));
}

#[test]
fn i64_constant() {
    let bytes = [0x42, 0xc7, 0x9f, 0x7f, 0x0b];
    let mut it = OpIterator::new(&bytes);
    assert!(matches!(it.next(), Some(Ok(Op::I64Const(-12345)))));
}

#[test]
fn branch_table_with_three_arms() {
    // br_table 3 arms: 1, 200, 0 ; default 7 ; then end
    let bytes = [0x0e, 0x03, 0x01, 0xc8, 0x01, 0x00, 0x07, 0x0b];
    let mut it = OpIterator::new(&bytes);
    let table = match it.next() {
        Some(Ok(Op::BrTable(t))) => t,
        other => panic!("unexpected {:?}", other),
    };
    assert_eq!(table.count, 3);
    assert_eq!(table.default, 7);
    let mut arms = table.arms();
    assert!(matches!(arms.next(), Some(Ok(1))));
    assert!(matches!(arms.next(), Some(Ok(200))));
    assert!(matches!(arms.next(), Some(Ok(0))));
    assert!(arms.next().is_none());
    assert!(arms.next().is_none());
    // the default is there whether or not the arms were read
    assert_eq!(table.default, 7);
    // and the arms can be read again from a fresh cursor
    let again: Vec<u32> = {
        let mut arms = table.arms();
        let mut v = Vec::new();
        while let Some(Ok(t)) = arms.next() {
            v.push(t);
        }
        v
    };
    assert_eq!(again, vec![1, 200, 0]);
    assert!(matches!(it.next(), Some(Ok(Op::End))));
    assert!(it.next().is_none());
}

#[test]
fn branch_table_default_is_there_with_arms_half_read() {
    let bytes = [0x0e, 0x02, 0x05, 0x06, 0x09, 0x0b];
    let mut it = OpIterator::new(&bytes);
    let table = match it.next() {
        Some(Ok(Op::BrTable(t))) => t,
        other => panic!("unexpected {:?}", other),
    };
    let mut arms = table.arms();
    assert!(matches!(arms.next(), Some(Ok(5))));
    assert_eq!(table.default, 9);
    assert_eq!(table.count, 2);
}

#[test]
fn branch_table_without_arms() {
    let bytes = [0x0e, 0x00, 0x04, 0x0b];
    let mut it = OpIterator::new(&bytes);
    let table = match it.next() {
        Some(Ok(Op::BrTable(t))) => t,
        other => panic!("unexpected {:?}", other),
    };
    assert_eq!(table.count, 0);
    assert_eq!(table.default, 4);
    assert!(table.arms().next().is_none());
}

#[test]
fn branch_table_that_is_cut_short() {
    // three arms declared, two present
    let mut it = OpIterator::new(&[0x0e, 0x03, 0x01, 0x02]);
    assert!(matches!(it.next(), Some(Err(Error::Eof))));
    assert!(it.next().is_none());
    // arms present, default missing
    let mut it = OpIterator::new(&[0x0e, 0x01, 0x01]);
    assert!(matches!(it.next(), Some(Err(Error::Eof))));
}

#[test]
fn two_cursors_over_one_buffer_agree() {
    let bytes = [0x02, 0x40, 0x41, 0x2a, 0x1a, 0x0b, 0x20, 0x00, 0x0b];
    let (a, fa, la) = decode(&bytes);
    let (b, fb, lb) = decode(&bytes);
    assert_eq!(format!("{:?}", a), format!("{:?}", b));
    assert!(fa.is_none() && fb.is_none());
    assert_eq!(la, lb);
}
