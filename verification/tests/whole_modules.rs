use wasm_reader::{Error, Module, SectionContent, SectionType, TypeEntry};

fn section(id: u8, payload: &[u8]) -> Vec<u8> {
    assert!(payload.len() < 128);
    let mut v = vec![id, payload.len() as u8];
    v.extend_from_slice(payload);
    v
}

fn sample_sections() -> Vec<Vec<u8>> {
    vec![
        // types: () -> i32 ; (i32, i64) -> ()
        section(1, &[0x02, 0x40, 0x00, 0x01, 0x7f, 0x40, 0x02, 0x7f, 0x7e, 0x00]),
        // imports: env.f : function type 0
        section(2, &[0x01, 0x03, b'e', b'n', b'v', 0x01, b'f', 0x00, 0x00]),
        // functions: two, of types 0 and 1
        section(3, &[0x02, 0x00, 0x01]),
        // tables: one, anyfunc, 2..2
        section(4, &[0x01, 0x70, 0x01, 0x02, 0x02]),
        // memories: one, 1..
        section(5, &[0x01, 0x00, 0x01]),
        // globals: i32 immutable = 7
        section(6, &[0x01, 0x7f, 0x00, 0x41, 0x07, 0x0b]),
        // exports: "run" function 1
        section(7, &[0x01, 0x03, b'r', b'u', b'n', 0x00, 0x01]),
        // start: function 1
        section(8, &[0x01]),
        // elements: table 0 at 0: functions 0, 1
        section(9, &[0x01, 0x00, 0x41, 0x00, 0x0b, 0x02, 0x00, 0x01]),
        // code: two bodies
        section(
            10,
            &[
                0x02, // two bodies
                0x04, 0x00, 0x41, 0x05, 0x0b, // i32.const 5 ; end
                // one local; block ; get_local 0 ; end ; end
                0x09, 0x01, 0x01, 0x7f, 0x02, 0x40, 0x20, 0x00, 0x0b, 0x0b,
            ],
        ),
        // data: memory 0 at 8: "hi"
        section(11, &[0x01, 0x00, 0x41, 0x08, 0x0b, 0x02, b'h', b'i']),
        // names: "f" with local "x"
        section(0, &[0x04, b'n', b'a', b'm', b'e', 0x01, 0x01, b'f', 0x01, 0x01, b'x']),
    ]
}

fn sample_module(sections: &[Vec<u8>]) -> Vec<u8> {
    let mut buf = vec![0x00, 0x61, 0x73, 0x6d, 0x01, 0x00, 0x00, 0x00];
    for s in sections {
        buf.extend_from_slice(s);
    }
    buf
}

/// Pulls every entry of a section's content. Returns the number of items
/// and the failure that ended the walk, if one did.
fn walk(content: SectionContent) -> (usize, Option<Error>) {
    let mut n = 0;
    let mut failure = None;
    walk_into(content, &mut n, &mut failure);
    (n, failure)
}

fn note<T>(item: Result<T, Error>, n: &mut usize, failure: &mut Option<Error>) {
    match item {
        Ok(_) => *n += 1,
        Err(e) => *failure = Some(e),
    }
}

fn walk_into(content: SectionContent, n: &mut usize, failure: &mut Option<Error>) {
    match content {
        SectionContent::Type(s) => {
            let mut it = s.entries();
            while let Some(item) = it.next() {
                if let Ok(TypeEntry::Function(f)) = &item {
                    let mut params = f.params();
                    while let Some(p) = params.next() {
                        note(p, n, failure);
                    }
                }
                note(item, n, failure);
            }
        }
        SectionContent::Import(s) => {
            let mut it = s.entries();
            while let Some(item) = it.next() {
                note(item, n, failure);
            }
        }
        SectionContent::Function(s) => {
            let mut it = s.types();
            while let Some(item) = it.next() {
                note(item, n, failure);
            }
        }
        SectionContent::Table(s) => {
            let mut it = s.entries();
            while let Some(item) = it.next() {
                note(item, n, failure);
            }
        }
        SectionContent::Memory(s) => {
            let mut it = s.entries();
            while let Some(item) = it.next() {
                note(item, n, failure);
            }
        }
        SectionContent::Global(s) => {
            let mut it = s.entries();
            while let Some(item) = it.next() {
                note(item, n, failure);
            }
        }
        SectionContent::Export(s) => {
            let mut it = s.entries();
            while let Some(item) = it.next() {
                note(item, n, failure);
            }
        }
        SectionContent::Start(_) => *n += 1,
        SectionContent::Elements(s) => {
            let mut it = s.entries();
            while let Some(item) = it.next() {
                note(item, n, failure);
            }
        }
        SectionContent::Code(s) => {
            let mut it = s.entries();
            while let Some(item) = it.next() {
                if let Ok(body) = &item {
                    let mut parts = body.contents();
                    while let Some(part) = parts.next() {
                        note(part, n, failure);
                    }
                }
                note(item, n, failure);
            }
        }
        SectionContent::Data(s) => {
            let mut it = s.entries();
            while let Some(item) = it.next() {
                note(item, n, failure);
            }
        }
        SectionContent::Name(s) => {
            let mut it = s.entries();
            while let Some(item) = it.next() {
                note(item, n, failure);
            }
        }
    }
}

#[test]
fn a_module_with_every_section_decodes() {
    let buf = sample_module(&sample_sections());
    let module = Module::new(&buf).unwrap();
    let mut sections = module.sections();
    let expected = [
        (SectionType::Type, 2 + 2),
        (SectionType::Import, 1),
        (SectionType::Function, 2),
        (SectionType::Table, 1),
        (SectionType::Memory, 1),
        (SectionType::Global, 3),
        (SectionType::Export, 1),
        (SectionType::Start, 1),
        (SectionType::Element, 5),
        (SectionType::Code, 2 + 2 + 5),
        (SectionType::Data, 4),
        (SectionType::Named, 2),
    ];
    for (id, items) in expected {
        let s = sections.next().unwrap().unwrap();
        assert_eq!(s.id, id);
        let (n, failure) = walk(s.content().unwrap());
        assert!(failure.is_none(), "{:?}: {:?}", id, failure);
        assert_eq!(n, items, "{:?}", id);
    }
    assert!(sections.next().is_none());
}

#[test]
fn entries_use_up_the_payload_of_their_section() {
    // With one entry more declared than the payload holds, every entry that
    // is there decodes and the pull after them finds no byte left.
    for mut s in sample_sections() {
        if s[0] == 8 {
            continue;
        }
        let count_at = if s[0] == 0 { 2 + 5 } else { 2 };
        s[count_at] += 1;
        let buf = sample_module(&[s]);
        let module = Module::new(&buf).unwrap();
        let section = module.sections().next().unwrap().unwrap();
        let id = section.id;
        let (_, failure) = walk(section.content().unwrap());
        assert!(matches!(failure, Some(Error::Eof)), "{:?}: {:?}", id, failure);
    }
}

#[test]
fn cutting_the_last_byte_fails_the_last_section() {
    let all = sample_sections();
    for k in 1..=all.len() {
        let whole = sample_module(&all[..k]);
        let cut = &whole[..whole.len() - 1];
        let a = Module::new(&whole).unwrap();
        let b = Module::new(cut).unwrap();
        let (mut ia, mut ib) = (a.sections(), b.sections());
        for _ in 0..k - 1 {
            let x = ia.next().unwrap().unwrap();
            let y = ib.next().unwrap().unwrap();
            assert_eq!((x.id, x.name, x.payload), (y.id, y.name, y.payload));
        }
        assert!(matches!(ia.next(), Some(Ok(_))));
        assert!(matches!(ib.next(), Some(Err(Error::Eof))));
        assert!(ia.next().is_none());
        assert!(ib.next().is_none());
    }
}

#[test]
fn cutting_the_last_byte_of_a_bare_header_fails_the_header() {
    let whole = sample_module(&[]);
    assert!(Module::new(&whole).is_ok());
    assert!(matches!(Module::new(&whole[..7]), Err(Error::Eof)));
}

#[test]
fn cutting_the_last_byte_of_a_payload_fails_its_entries() {
    for s in sample_sections() {
        let payload = &s[2..s.len() - 1];
        let mut framed = vec![s[0], payload.len() as u8];
        framed.extend_from_slice(payload);
        let buf = sample_module(&[framed]);
        let module = Module::new(&buf).unwrap();
        let section = module.sections().next().unwrap().unwrap();
        let id = section.id;
        match section.content() {
            Err(e) => assert!(matches!(e, Error::Eof), "{:?}", id),
            Ok(content) => {
                let (_, failure) = walk(content);
                assert!(matches!(failure, Some(Error::Eof)), "{:?}: {:?}", id, failure);
            }
        }
    }
}

#[test]
fn decoding_twice_gives_the_same_items() {
    let buf = sample_module(&sample_sections());
    let first = Module::new(&buf).unwrap();
    let second = Module::new(&buf).unwrap();
    let (mut ia, mut ib) = (first.sections(), second.sections());
    while let Some(a) = ia.next() {
        let a = a.unwrap();
        let b = ib.next().unwrap().unwrap();
        assert_eq!((a.id, a.name, a.payload), (b.id, b.name, b.payload));
        assert_eq!(walk(a.content().unwrap()).0, walk(b.content().unwrap()).0);
    }
    assert!(ib.next().is_none());
}
