use wasm_reader::{ExternalKind, InlineSignatureType, LanguageType, SectionType, ValueType};

#[test]
fn section_ids_run_from_zero_to_eleven() {
    let kinds = [
        SectionType::Named,
        SectionType::Type,
        SectionType::Import,
        SectionType::Function,
        SectionType::Table,
        SectionType::Memory,
        SectionType::Global,
        SectionType::Export,
        SectionType::Start,
        SectionType::Element,
        SectionType::Code,
        SectionType::Data,
    ];
    for (id, kind) in kinds.iter().enumerate() {
        assert_eq!(SectionType::from_int(id as u8), Some(*kind));
    }
    for id in 12..=255u8 {
        assert_eq!(SectionType::from_int(id), None);
    }
}

#[test]
fn value_types_have_the_final_numbering() {
    assert_eq!(ValueType::from_int(0x7f), Some(ValueType::I32));
    assert_eq!(ValueType::from_int(0x7e), Some(ValueType::I64));
    assert_eq!(ValueType::from_int(0x7d), Some(ValueType::F32));
    assert_eq!(ValueType::from_int(0x7c), Some(ValueType::F64));
    for v in 0..=255u8 {
        if !(0x7c..=0x7f).contains(&v) {
            assert_eq!(ValueType::from_int(v), None);
        }
    }
}

#[test]
fn external_kinds_run_from_zero_to_three() {
    assert_eq!(ExternalKind::from_int(0), Some(ExternalKind::Function));
    assert_eq!(ExternalKind::from_int(1), Some(ExternalKind::Table));
    assert_eq!(ExternalKind::from_int(2), Some(ExternalKind::Memory));
    assert_eq!(ExternalKind::from_int(3), Some(ExternalKind::Global));
    for v in 4..=255u8 {
        assert_eq!(ExternalKind::from_int(v), None);
    }
}

#[test]
fn inline_signatures_are_value_types_or_empty() {
    assert_eq!(InlineSignatureType::from_int(0x7f), Some(InlineSignatureType::I32));
    assert_eq!(InlineSignatureType::from_int(0x7e), Some(InlineSignatureType::I64));
    assert_eq!(InlineSignatureType::from_int(0x7d), Some(InlineSignatureType::F32));
    assert_eq!(InlineSignatureType::from_int(0x7c), Some(InlineSignatureType::F64));
    assert_eq!(InlineSignatureType::from_int(0x40), Some(InlineSignatureType::Empty));
    assert_eq!(InlineSignatureType::from_int(0x00), None);
    assert_eq!(InlineSignatureType::from_int(0x70), None);
    assert_eq!(InlineSignatureType::from_int(0x41), None);
}

#[test]
fn language_types_cover_every_constructor() {
    assert_eq!(LanguageType::from_int(0x7f), Some(LanguageType::I32));
    assert_eq!(LanguageType::from_int(0x7e), Some(LanguageType::I64));
    assert_eq!(LanguageType::from_int(0x7d), Some(LanguageType::F32));
    assert_eq!(LanguageType::from_int(0x7c), Some(LanguageType::F64));
    assert_eq!(LanguageType::from_int(0x70), Some(LanguageType::AnyFunc));
    assert_eq!(LanguageType::from_int(0x60), Some(LanguageType::Func));
    assert_eq!(LanguageType::from_int(0x40), Some(LanguageType::Void));
    assert_eq!(LanguageType::from_int(0x00), None);
    assert_eq!(LanguageType::from_int(0x61), None);
}
