use wasm_reader::{Error, Module};

fn header(version: u32) -> Vec<u8> {
    let mut buf = vec![0x00, 0x61, 0x73, 0x6d];
    buf.extend_from_slice(&version.to_le_bytes());
    buf
}

#[test]
fn header_only_module_has_no_sections() {
    let buf = header(1);
    let module = Module::new(&buf).unwrap();
    assert_eq!(module.version, 1);
    assert!(module.payload.is_empty());
    let mut sections = module.sections();
    assert!(sections.next().is_none());
    assert!(sections.next().is_none());
}

#[test]
fn version_is_little_endian() {
    let buf = [0x00, 0x61, 0x73, 0x6d, 0x0d, 0x0c, 0x0b, 0x0a, 0xff];
    let module = Module::new(&buf).unwrap();
    assert_eq!(module.version, 0x0a0b0c0d);
    assert_eq!(module.payload, &[0xff]);
}

#[test]
fn every_version_is_returned_as_written() {
    for version in [0u32, 1, 0x0d, 0xff, 0x100, 0x8000_0000, u32::MAX] {
        let buf = header(version);
        assert_eq!(Module::new(&buf).unwrap().version, version);
    }
}

#[test]
fn wrong_magic_is_not_wasm() {
    let buf = [0x00, 0x61, 0x73, 0x6e, 0x01, 0x00, 0x00, 0x00];
    assert!(matches!(Module::new(&buf), Err(Error::NotWasm)));
    let buf = [0x01, 0x61, 0x73, 0x6d, 0x01, 0x00, 0x00, 0x00, 0x00];
    assert!(matches!(Module::new(&buf), Err(Error::NotWasm)));
}

#[test]
fn short_buffer_is_not_wasm() {
    assert!(matches!(Module::new(&[]), Err(Error::NotWasm)));
    assert!(matches!(Module::new(&[0x00, 0x61, 0x73]), Err(Error::NotWasm)));
}

#[test]
fn magic_without_version_is_cut_short() {
    assert!(matches!(Module::new(&[0x00, 0x61, 0x73, 0x6d]), Err(Error::Eof)));
    assert!(matches!(Module::new(&[0x00, 0x61, 0x73, 0x6d, 0x01, 0x00, 0x00]), Err(Error::Eof)));
}

#[test]
fn same_buffer_gives_same_module() {
    let buf = [0x00, 0x61, 0x73, 0x6d, 0x01, 0x00, 0x00, 0x00, 0x08, 0x01, 0x05];
    let a = Module::new(&buf).unwrap();
    let b = Module::new(&buf).unwrap();
    assert_eq!(a.version, b.version);
    assert_eq!(a.payload, b.payload);
}
