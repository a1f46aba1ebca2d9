use wasm_reader::Error;

#[test]
fn each_failure_has_its_description() {
    assert_eq!(Error::NotWasm.description(), "Not a valid WebAssembly binary");
    assert_eq!(Error::Eof.description(), "Unexpected end of input");
    assert_eq!(Error::MalformedVarint.description(), "Malformed LEB128 integer");
    assert_eq!(Error::UnknownVariant("opcode").description(), "Unknown enum variant");
    assert_eq!(Error::InvalidUtf8.description(), "UTF-8 error");
}

#[test]
fn only_an_unknown_variant_names_its_domain() {
    assert_eq!(Error::UnknownVariant("value type").domain(), Some("value type"));
    assert_eq!(Error::NotWasm.domain(), None);
    assert_eq!(Error::Eof.domain(), None);
    assert_eq!(Error::MalformedVarint.domain(), None);
    assert_eq!(Error::InvalidUtf8.domain(), None);
}
