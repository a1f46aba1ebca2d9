use wasm_reader::{Error, Module, SectionContent, TypeEntry, TypeSection, ValueType};

#[test]
fn function_type_without_params_returning_i32() {
    // header, then a type section: one entry, form, 0 params, 1 result i32
    let buf = [
        0x00, 0x61, 0x73, 0x6d, 0x01, 0x00, 0x00, 0x00, 0x01, 0x05, 0x01, 0x40, 0x00, 0x01, 0x7f,
    ];
    let module = Module::new(&buf).unwrap();
    let section = module.sections().next().unwrap().unwrap();
    let types = match section.content().unwrap() {
        SectionContent::Type(t) => t,
        _ => panic!("not a type section"),
    };
    let mut entries = types.entries();
    let TypeEntry::Function(f) = entries.next().unwrap().unwrap();
    assert_eq!(f.return_type, Some(ValueType::I32));
    assert!(f.params().next().is_none());
    assert!(entries.next().is_none());
}

#[test]
fn function_type_with_params_and_no_result() {
    let raw = [0x40, 0x03, 0x7f, 0x7e, 0x7c, 0x00, 0x40, 0x01, 0x7d, 0x01, 0x7e];
    let section = TypeSection(&raw, 2);
    let mut entries = section.entries();
    let TypeEntry::Function(f) = entries.next().unwrap().unwrap();
    assert_eq!(f.return_type, None);
    let mut params = f.params();
    assert!(matches!(params.next(), Some(Ok(ValueType::I32))));
    assert!(matches!(params.next(), Some(Ok(ValueType::I64))));
    assert!(matches!(params.next(), Some(Ok(ValueType::F64))));
    assert!(params.next().is_none());
    let TypeEntry::Function(g) = entries.next().unwrap().unwrap();
    assert_eq!(g.return_type, Some(ValueType::I64));
    let mut params = g.params();
    assert!(matches!(params.next(), Some(Ok(ValueType::F32))));
    assert!(params.next().is_none());
    assert!(entries.next().is_none());
}

#[test]
fn entries_stop_at_the_count_whatever_follows() {
    let raw = [0x40, 0x00, 0x00, 0xff, 0xff];
    let section = TypeSection(&raw, 1);
    let mut entries = section.entries();
    assert!(matches!(entries.next(), Some(Ok(_))));
    assert!(entries.next().is_none());
}

#[test]
fn unknown_form_tag() {
    let raw = [0x60, 0x00, 0x00];
    let section = TypeSection(&raw, 1);
    let mut entries = section.entries();
    assert!(matches!(entries.next(), Some(Err(Error::UnknownVariant("type entry form")))));
    assert!(entries.next().is_none());
}

#[test]
fn param_count_past_the_end_is_cut_short() {
    let raw = [0x40, 0x05, 0x7f, 0x7f];
    let section = TypeSection(&raw, 1);
    let mut entries = section.entries();
    assert!(matches!(entries.next(), Some(Err(Error::Eof))));
    assert!(entries.next().is_none());
}

#[test]
fn missing_return_type_is_cut_short() {
    let raw = [0x40, 0x00, 0x01];
    let section = TypeSection(&raw, 1);
    assert!(matches!(section.entries().next(), Some(Err(Error::Eof))));
}

#[test]
fn unknown_return_type() {
    let raw = [0x40, 0x00, 0x01, 0x7b];
    let section = TypeSection(&raw, 1);
    assert!(matches!(
        section.entries().next(),
        Some(Err(Error::UnknownVariant("value type")))
    ));
}

#[test]
fn unknown_param_type_shows_when_the_param_is_read() {
    let raw = [0x40, 0x02, 0x7f, 0x01, 0x00];
    let section = TypeSection(&raw, 1);
    let TypeEntry::Function(f) = section.entries().next().unwrap().unwrap();
    let mut params = f.params();
    assert!(matches!(params.next(), Some(Ok(ValueType::I32))));
    assert!(matches!(params.next(), Some(Err(Error::UnknownVariant("value type")))));
    assert!(params.next().is_none());
}

#[test]
fn more_entries_declared_than_present() {
    let raw = [0x40, 0x00, 0x00];
    let section = TypeSection(&raw, 2);
    let mut entries = section.entries();
    assert!(matches!(entries.next(), Some(Ok(_))));
    assert!(matches!(entries.next(), Some(Err(Error::Eof))));
    assert!(entries.next().is_none());
}
