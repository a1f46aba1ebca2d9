use wasm_reader::{Error, NameEntry, NameSection};

#[test]
fn functions_with_their_locals() {
    let raw = [
        0x03, b'a', b'd', b'd', 0x02, 0x01, b'x', 0x01, b'y', // add(x, y)
        0x04, b'm', b'a', b'i', b'n', 0x00, // main()
    ];
    let section = NameSection { count: 2, entries_raw: &raw };
    let mut it = section.entries();
    assert!(matches!(it.next(), Some(Ok(NameEntry::Function("add")))));
    assert!(matches!(it.next(), Some(Ok(NameEntry::Local("x")))));
    assert!(matches!(it.next(), Some(Ok(NameEntry::Local("y")))));
    assert!(matches!(it.next(), Some(Ok(NameEntry::Function("main")))));
    assert!(it.next().is_none());
    assert!(it.next().is_none());
}

#[test]
fn locals_of_the_last_function_are_yielded() {
    let raw = [0x01, b'f', 0x01, 0x01, b'a'];
    let section = NameSection { count: 1, entries_raw: &raw };
    let mut it = section.entries();
    assert!(matches!(it.next(), Some(Ok(NameEntry::Function("f")))));
    assert!(matches!(it.next(), Some(Ok(NameEntry::Local("a")))));
    assert!(it.next().is_none());
}

#[test]
fn name_with_bad_utf8() {
    let raw = [0x01, 0xff, 0x00];
    let section = NameSection { count: 1, entries_raw: &raw };
    let mut it = section.entries();
    assert!(matches!(it.next(), Some(Err(Error::InvalidUtf8))));
    assert!(it.next().is_none());
}

#[test]
fn name_without_local_count_is_cut_short() {
    let raw = [0x01, b'f'];
    let section = NameSection { count: 1, entries_raw: &raw };
    let mut it = section.entries();
    assert!(matches!(it.next(), Some(Err(Error::Eof))));
    assert!(it.next().is_none());
}

#[test]
fn local_name_that_is_cut_short() {
    let raw = [0x01, b'f', 0x02, 0x01, b'a', 0x05, b'b'];
    let section = NameSection { count: 1, entries_raw: &raw };
    let mut it = section.entries();
    assert!(matches!(it.next(), Some(Ok(NameEntry::Function("f")))));
    assert!(matches!(it.next(), Some(Ok(NameEntry::Local("a")))));
    assert!(matches!(it.next(), Some(Err(Error::Eof))));
    assert!(it.next().is_none());
}
