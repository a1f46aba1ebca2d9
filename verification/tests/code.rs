use wasm_reader::{
    CodeSection, Error, FunctionPart, Local, Module, Op, SectionContent, ValueType,
};

#[test]
fn body_of_a_constant_and_an_end() {
    // header; code section of 6 bytes: 1 body of 4 bytes: 0 locals, i32.const 5, end
    let buf = [
        0x00, 0x61, 0x73, 0x6d, 0x01, 0x00, 0x00, 0x00, 0x0a, 0x06, 0x01, 0x04, 0x00, 0x41, 0x05,
        0x0b,
    ];
    let module = Module::new(&buf).unwrap();
    let section = module.sections().next().unwrap().unwrap();
    let code = match section.content().unwrap() {
        SectionContent::Code(c) => c,
        _ => panic!("not a code section"),
    };
    let mut bodies = code.entries();
    let body = bodies.next().unwrap().unwrap();
    let mut parts = body.contents();
    assert!(matches!(parts.next(), Some(Ok(FunctionPart::Op(Op::I32Const(5))))));
    assert!(matches!(parts.next(), Some(Ok(FunctionPart::Op(Op::End)))));
    assert!(parts.next().is_none());
    assert!(parts.next().is_none());
    assert!(bodies.next().is_none());
}

#[test]
fn locals_come_before_the_instructions() {
    let raw = [
        0x07, 0x02, 0x03, 0x7f, 0x01, 0x7c, 0x01, 0x0b, // 2 declarations, nop, end
        0x02, 0x00, 0x0b, // no declaration, end
    ];
    let section = CodeSection { count: 2, entries_raw: &raw };
    let mut bodies = section.entries();
    let body = bodies.next().unwrap().unwrap();
    let mut parts = body.contents();
    assert!(matches!(
        parts.next(),
        Some(Ok(FunctionPart::Local(Local { count: 3, ty: ValueType::I32 })))
    ));
    assert!(matches!(
        parts.next(),
        Some(Ok(FunctionPart::Local(Local { count: 1, ty: ValueType::F64 })))
    ));
    assert!(matches!(parts.next(), Some(Ok(FunctionPart::Op(Op::Nop)))));
    assert!(matches!(parts.next(), Some(Ok(FunctionPart::Op(Op::End)))));
    assert!(parts.next().is_none());
    let body = bodies.next().unwrap().unwrap();
    let mut parts = body.contents();
    assert!(matches!(parts.next(), Some(Ok(FunctionPart::Op(Op::End)))));
    assert!(parts.next().is_none());
    assert!(bodies.next().is_none());
}

#[test]
fn a_body_does_not_read_into_the_next_one() {
    // the first body lacks its end; the second body begins with an end byte
    let raw = [0x02, 0x00, 0x01, 0x02, 0x00, 0x0b];
    let section = CodeSection { count: 2, entries_raw: &raw };
    let mut bodies = section.entries();
    let body = bodies.next().unwrap().unwrap();
    let mut parts = body.contents();
    assert!(matches!(parts.next(), Some(Ok(FunctionPart::Op(Op::Nop)))));
    assert!(matches!(parts.next(), Some(Err(Error::Eof))));
    assert!(parts.next().is_none());
    assert!(matches!(bodies.next(), Some(Ok(_))));
    assert!(bodies.next().is_none());
}

#[test]
fn body_size_past_the_end_is_cut_short() {
    let raw = [0x09, 0x00, 0x0b];
    let section = CodeSection { count: 1, entries_raw: &raw };
    let mut bodies = section.entries();
    assert!(matches!(bodies.next(), Some(Err(Error::Eof))));
    assert!(bodies.next().is_none());
}

#[test]
fn body_without_local_count_is_cut_short() {
    let raw = [0x00];
    let section = CodeSection { count: 1, entries_raw: &raw };
    assert!(matches!(section.entries().next(), Some(Err(Error::Eof))));
}

#[test]
fn local_with_unknown_type() {
    let raw = [0x04, 0x01, 0x02, 0x00, 0x0b];
    let section = CodeSection { count: 1, entries_raw: &raw };
    let body = section.entries().next().unwrap().unwrap();
    let mut parts = body.contents();
    assert!(matches!(parts.next(), Some(Err(Error::UnknownVariant("value type")))));
    assert!(parts.next().is_none());
    assert!(parts.next().is_none());
}

#[test]
fn more_locals_declared_than_present() {
    let raw = [0x03, 0x02, 0x01, 0x7f];
    let section = CodeSection { count: 1, entries_raw: &raw };
    let body = section.entries().next().unwrap().unwrap();
    let mut parts = body.contents();
    assert!(matches!(parts.next(), Some(Ok(FunctionPart::Local(_)))));
    assert!(matches!(parts.next(), Some(Err(Error::Eof))));
    assert!(parts.next().is_none());
}
