use wasm_reader::{Error, Module, SectionContent, SectionType};

fn module(payload: &[u8]) -> Vec<u8> {
    let mut buf = vec![0x00, 0x61, 0x73, 0x6d, 0x01, 0x00, 0x00, 0x00];
    buf.extend_from_slice(payload);
    buf
}

#[test]
fn sections_come_in_order_with_their_payloads() {
    let buf = module(&[0x01, 0x02, 0xaa, 0xbb, 0x03, 0x00, 0x0a, 0x01, 0xcc]);
    let m = Module::new(&buf).unwrap();
    let mut it = m.sections();
    let s = it.next().unwrap().unwrap();
    assert_eq!(s.id, SectionType::Type);
    assert_eq!(s.name, "");
    assert_eq!(s.payload, &[0xaa, 0xbb]);
    let s = it.next().unwrap().unwrap();
    assert_eq!(s.id, SectionType::Function);
    assert!(s.payload.is_empty());
    let s = it.next().unwrap().unwrap();
    assert_eq!(s.id, SectionType::Code);
    assert_eq!(s.payload, &[0xcc]);
    assert!(it.next().is_none());
    assert!(it.next().is_none());
}

#[test]
fn declared_length_past_the_end_is_cut_short() {
    // a type section that declares ten bytes, with four there
    let buf = module(&[0x01, 0x0a, 0x01, 0x02, 0x03, 0x04]);
    let m = Module::new(&buf).unwrap();
    let mut it = m.sections();
    assert!(matches!(it.next(), Some(Err(Error::Eof))));
    assert!(it.next().is_none());
}

#[test]
fn section_without_length_is_cut_short() {
    let buf = module(&[0x01]);
    let m = Module::new(&buf).unwrap();
    let mut it = m.sections();
    assert!(matches!(it.next(), Some(Err(Error::Eof))));
    assert!(it.next().is_none());
}

#[test]
fn unknown_section_id() {
    for id in [0x0cu8, 0x0d, 0x40, 0x7f] {
        let buf = module(&[id, 0x00]);
        let m = Module::new(&buf).unwrap();
        let mut it = m.sections();
        assert!(matches!(it.next(), Some(Err(Error::UnknownVariant("section type")))));
        assert!(it.next().is_none());
    }
}

#[test]
fn section_id_above_a_byte_is_unknown() {
    // 256 as a varint
    let buf = module(&[0x80, 0x02, 0x00]);
    let m = Module::new(&buf).unwrap();
    let mut it = m.sections();
    assert!(matches!(it.next(), Some(Err(Error::UnknownVariant("section type")))));
}

#[test]
fn sections_before_a_failure_are_yielded() {
    let buf = module(&[0x08, 0x01, 0x05, 0x0c, 0x00, 0x08, 0x01, 0x05]);
    let m = Module::new(&buf).unwrap();
    let mut it = m.sections();
    assert!(matches!(it.next(), Some(Ok(_))));
    assert!(matches!(it.next(), Some(Err(Error::UnknownVariant("section type")))));
    assert!(it.next().is_none());
}

#[test]
fn named_section_carries_its_name_inside_its_length() {
    // id 0, length 7: name length 4, "demo", two payload bytes; then a start section
    let buf = module(&[0x00, 0x07, 0x04, b'd', b'e', b'm', b'o', 0x11, 0x22, 0x08, 0x01, 0x03]);
    let m = Module::new(&buf).unwrap();
    let mut it = m.sections();
    let s = it.next().unwrap().unwrap();
    assert_eq!(s.id, SectionType::Named);
    assert_eq!(s.name, "demo");
    assert_eq!(s.payload, &[0x11, 0x22]);
    let s = it.next().unwrap().unwrap();
    assert_eq!(s.id, SectionType::Start);
    assert_eq!(s.payload, &[0x03]);
    assert!(it.next().is_none());
}

#[test]
fn named_section_with_non_ascii_name() {
    let name = "héllo";
    let mut payload = vec![0x00, (1 + name.len()) as u8, name.len() as u8];
    payload.extend_from_slice(name.as_bytes());
    let buf = module(&payload);
    let m = Module::new(&buf).unwrap();
    let s = m.sections().next().unwrap().unwrap();
    assert_eq!(s.name, "héllo");
    assert!(s.payload.is_empty());
}

#[test]
fn named_section_with_bad_utf8() {
    let buf = module(&[0x00, 0x03, 0x02, 0xc3, 0x28]);
    let m = Module::new(&buf).unwrap();
    let mut it = m.sections();
    assert!(matches!(it.next(), Some(Err(Error::InvalidUtf8))));
    assert!(it.next().is_none());
}

#[test]
fn name_longer_than_its_section_is_cut_short() {
    // the section declares two bytes, the name inside it declares five
    let buf = module(&[0x00, 0x02, 0x05, b'a', b'b', b'c', b'd', b'e']);
    let m = Module::new(&buf).unwrap();
    let mut it = m.sections();
    assert!(matches!(it.next(), Some(Err(Error::Eof))));
    assert!(it.next().is_none());
}

#[test]
fn start_section_holds_one_index() {
    let buf = module(&[0x08, 0x02, 0x85, 0x01]);
    let m = Module::new(&buf).unwrap();
    let s = m.sections().next().unwrap().unwrap();
    assert!(matches!(s.content(), Ok(SectionContent::Start(133))));
}

#[test]
fn content_follows_the_section_id() {
    let cases: [(u8, fn(&SectionContent) -> bool); 10] = [
        (1, |c| matches!(c, SectionContent::Type(s) if s.1 == 3 && s.0 == [0xee])),
        (2, |c| matches!(c, SectionContent::Import(s) if s.1 == 3 && s.0 == [0xee])),
        (3, |c| matches!(c, SectionContent::Function(s) if s.1 == 3 && s.0 == [0xee])),
        (4, |c| matches!(c, SectionContent::Table(s) if s.count == 3 && s.entries_raw == [0xee])),
        (5, |c| matches!(c, SectionContent::Memory(s) if s.count == 3 && s.entries_raw == [0xee])),
        (6, |c| matches!(c, SectionContent::Global(s) if s.count == 3 && s.entries_raw == [0xee])),
        (7, |c| matches!(c, SectionContent::Export(s) if s.count == 3 && s.entries_raw == [0xee])),
        (9, |c| {
            matches!(c, SectionContent::Elements(s) if s.count == 3 && s.entries_raw == [0xee])
        }),
        (10, |c| matches!(c, SectionContent::Code(s) if s.count == 3 && s.entries_raw == [0xee])),
        (11, |c| matches!(c, SectionContent::Data(s) if s.count == 3 && s.entries_raw == [0xee])),
    ];
    for (id, is_expected) in cases {
        let buf = module(&[id, 0x02, 0x03, 0xee]);
        let m = Module::new(&buf).unwrap();
        let s = m.sections().next().unwrap().unwrap();
        let c = s.content().unwrap();
        assert!(is_expected(&c), "section id {}", id);
    }
}

#[test]
fn content_without_a_count_is_cut_short() {
    let buf = module(&[0x01, 0x00]);
    let m = Module::new(&buf).unwrap();
    let s = m.sections().next().unwrap().unwrap();
    assert!(matches!(s.content(), Err(Error::Eof)));
}

#[test]
fn content_with_a_malformed_count() {
    let buf =
        module(&[0x07, 0x0b, 0x80, 0x80, 0x80, 0x80, 0x80, 0x80, 0x80, 0x80, 0x80, 0x80, 0x00]);
    let m = Module::new(&buf).unwrap();
    let s = m.sections().next().unwrap().unwrap();
    assert!(matches!(s.content(), Err(Error::MalformedVarint)));
}

#[test]
fn only_the_name_section_among_named_ones_has_content() {
    let buf = module(&[0x00, 0x06, 0x04, b'n', b'a', b'm', b'e', 0x02]);
    let m = Module::new(&buf).unwrap();
    let s = m.sections().next().unwrap().unwrap();
    assert!(matches!(
        s.content(),
        Ok(SectionContent::Name(n)) if n.count == 2 && n.entries_raw.is_empty()
    ));

    for other in ["nam", "names", "Name", "demo", ""] {
        let mut payload = vec![0x00, (2 + other.len()) as u8, other.len() as u8];
        payload.extend_from_slice(other.as_bytes());
        payload.push(0x02);
        let buf = module(&payload);
        let m = Module::new(&buf).unwrap();
        let s = m.sections().next().unwrap().unwrap();
        assert_eq!(s.name, other);
        assert!(matches!(s.content(), Err(Error::UnknownVariant("section type"))));
    }
}

#[test]
fn two_walks_over_one_module_agree() {
    let buf = module(&[0x01, 0x02, 0xaa, 0xbb, 0x00, 0x03, 0x01, b'x', 0x09, 0x08, 0x01, 0x00]);
    let a = Module::new(&buf).unwrap();
    let b = Module::new(&buf).unwrap();
    let (mut ia, mut ib) = (a.sections(), b.sections());
    loop {
        match (ia.next(), ib.next()) {
            (None, None) => break,
            (Some(Ok(x)), Some(Ok(y))) => {
                assert_eq!(x.id, y.id);
                assert_eq!(x.name, y.name);
                assert_eq!(x.payload, y.payload);
            }
            other => panic!("walks differ: {:?}", other.0.is_some()),
        }
    }
}
