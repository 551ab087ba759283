use fil_webapi::scheduler::{AccessResource, Empty, ExecResult, ResourceResult, ResourceToken};
use fil_webapi::wire::{read_all_fields, read_varint_at, write_varint, Field};

fn access(rr: &str, name: &str) -> AccessResource {
    let mut m = AccessResource::new();
    m.set_request_resource(rr.to_string());
    m.set_name(name.to_string());
    m
}

#[test]
fn varint_encoding_examples() {
    let mut out = Vec::new();
    write_varint(&mut out, 0);
    assert_eq!(out, vec![0]);
    let mut out = Vec::new();
    write_varint(&mut out, 300);
    assert_eq!(out, vec![0xac, 0x02]);
    let mut out = Vec::new();
    write_varint(&mut out, u64::MAX);
    assert_eq!(out, vec![0xff, 0xff, 0xff, 0xff, 0xff, 0xff, 0xff, 0xff, 0xff, 0x01]);
    assert_eq!(read_varint_at(&out, 0), Some((u64::MAX, 10)));
}

#[test]
fn varint_reading_limits() {
    assert_eq!(read_varint_at(&[0xac, 0x02, 7], 0), Some((300, 2)));
    assert_eq!(read_varint_at(&[5, 0xac, 0x02], 1), Some((300, 3)));
    assert_eq!(read_varint_at(&[0x80], 0), None);
    assert_eq!(read_varint_at(&[], 0), None);
    // eleven bytes is too long
    assert_eq!(read_varint_at(&[0x80; 10].iter().copied().chain([1]).collect::<Vec<u8>>(), 0), None);
    // ten bytes whose value exceeds u64::MAX: the bits above the 64th are dropped
    assert_eq!(
        read_varint_at(&[0xff, 0xff, 0xff, 0xff, 0xff, 0xff, 0xff, 0xff, 0xff, 0x02], 0),
        Some((u64::MAX >> 1, 10))
    );
    assert_eq!(
        read_varint_at(&[0x80, 0x80, 0x80, 0x80, 0x80, 0x80, 0x80, 0x80, 0x80, 0x7e], 0),
        Some((0, 10))
    );
}

#[test]
fn fields_are_read_in_order() {
    let bytes = [0x08, 0x96, 0x01, 0x12, 0x02, b'h', b'i', 0x1d, 1, 2, 3, 4, 0x21, 0, 0, 0, 0, 0, 0, 0, 0];
    let fields = read_all_fields(&bytes).unwrap();
    assert_eq!(fields.len(), 4);
    assert!(matches!(fields[0], Field::Varint(1, 150)));
    match &fields[1] {
        Field::Bytes(2, p) => assert_eq!(p, &b"hi".to_vec()),
        _ => panic!("expected a length-delimited field"),
    }
    assert!(matches!(fields[2], Field::Fixed(3)));
    assert!(matches!(fields[3], Field::Fixed(4)));
    assert!(read_all_fields(&[0x12, 0x05, b'a']).is_none());
    // wire types 6 and 7 are refused
    assert!(read_all_fields(&[0x0e]).is_none());
    assert!(read_all_fields(&[0x00, 0x01]).is_none());
    assert!(read_all_fields(&[0x0b]).is_none());
}

#[test]
fn access_resource_wire_examples() {
    assert_eq!(access("C2", "x").write_to_bytes(), vec![10, 2, b'C', b'2', 18, 1, b'x']);
    assert_eq!(access("", "").write_to_bytes(), Vec::<u8>::new());
    assert_eq!(access("", "n").write_to_bytes(), vec![18, 1, b'n']);
    let m = AccessResource::parse_from_bytes(&[18, 1, b'n', 10, 2, b'C', b'2', 0x18, 7]).unwrap();
    assert_eq!(m.request_resource, "C2");
    assert_eq!(m.name, "n");
    // a later occurrence wins
    let m = AccessResource::parse_from_bytes(&[10, 1, b'a', 10, 1, b'b']).unwrap();
    assert_eq!(m.request_resource, "b");
    // wrong wire type for a known field, invalid UTF-8
    assert!(AccessResource::parse_from_bytes(&[8, 1]).is_none());
    assert!(AccessResource::parse_from_bytes(&[10, 1, 0xff]).is_none());
}

#[test]
fn access_resource_roundtrip() {
    for (rr, name) in [("C2", "C2-1600000000"), ("", "only-name"), ("é€😀", ""), ("", "")] {
        let m = access(rr, name);
        let back = AccessResource::parse_from_bytes(&m.write_to_bytes()).unwrap();
        assert_eq!(back.request_resource, rr);
        assert_eq!(back.name, name);
    }
}

#[test]
fn token_and_result_wire_examples() {
    assert_eq!(ResourceToken { token: 0 }.write_to_bytes(), Vec::<u8>::new());
    assert_eq!(ResourceToken { token: 300 }.write_to_bytes(), vec![8, 0xac, 0x02]);
    assert_eq!(ResourceToken::parse_from_bytes(&[8, 0xac, 0x02]), Some(ResourceToken { token: 300 }));
    assert_eq!(ResourceToken::parse_from_bytes(&[]), Some(ResourceToken { token: 0 }));
    assert_eq!(ResourceToken::parse_from_bytes(&[10, 0]), None);

    let r = ResourceResult { token: Some(ResourceToken { token: 1 }) };
    assert_eq!(r.write_to_bytes(), vec![10, 2, 8, 1]);
    assert_eq!(ResourceResult { token: None }.write_to_bytes(), Vec::<u8>::new());
    assert_eq!(ResourceResult { token: Some(ResourceToken { token: 0 }) }.write_to_bytes(), vec![10, 0]);
    assert_eq!(ResourceResult::parse_from_bytes(&[10, 2, 8, 1]), Some(r));
    assert_eq!(ResourceResult::parse_from_bytes(&[]), Some(ResourceResult { token: None }));
    // occurrences of the message field merge
    assert_eq!(
        ResourceResult::parse_from_bytes(&[10, 2, 8, 1, 10, 2, 8, 5]),
        Some(ResourceResult { token: Some(ResourceToken { token: 5 }) })
    );
    assert_eq!(ResourceResult::parse_from_bytes(&[8, 1]), None);
}

#[test]
fn token_and_result_roundtrip() {
    for t in [0u64, 1, 127, 128, 300, u64::MAX] {
        let tok = ResourceToken { token: t };
        assert_eq!(ResourceToken::parse_from_bytes(&tok.write_to_bytes()), Some(tok));
        let r = ResourceResult { token: Some(tok) };
        assert_eq!(ResourceResult::parse_from_bytes(&r.write_to_bytes()), Some(r));
    }
}

#[test]
fn empty_messages() {
    assert!(Empty::new().write_to_bytes().is_empty());
    assert!(ExecResult::new().write_to_bytes().is_empty());
    assert_eq!(Empty::parse_from_bytes(&[8, 1, 18, 0]), Some(Empty {}));
    assert_eq!(ExecResult::parse_from_bytes(&[]), Some(ExecResult {}));
    assert_eq!(ExecResult::parse_from_bytes(&[8]), None);
}

#[test]
fn groups_are_skipped_as_a_whole() {
    // field 3 as a group holding a varint and a string, then field 1 as a varint
    let bytes = [0x1b, 0x08, 0x01, 0x12, 0x01, b'x', 0x1c, 0x08, 0x05];
    let fields = read_all_fields(&bytes).unwrap();
    assert_eq!(fields.len(), 2);
    assert!(matches!(fields[0], Field::Group(3)));
    assert!(matches!(fields[1], Field::Varint(1, 5)));
    assert_eq!(ResourceToken::parse_from_bytes(&bytes), Some(ResourceToken { token: 5 }));
    // an unclosed group, a nested group and a stray end-group key are refused
    assert!(read_all_fields(&[0x1b, 0x08, 0x01]).is_none());
    assert!(read_all_fields(&[0x1b, 0x23, 0x24, 0x1c]).is_none());
    assert!(read_all_fields(&[0x1c]).is_none());
    // a group under a known field number is refused
    assert!(ResourceToken::parse_from_bytes(&[0x0b, 0x0c]).is_none());
    assert!(AccessResource::parse_from_bytes(&[0x13, 0x14]).is_none());
}

#[test]
fn keys_and_lengths_are_cut_to_32_bits() {
    // key 0x1_0000_0008 cuts to 8: field 1, varint
    let bytes = [0x88, 0x80, 0x80, 0x80, 0x10, 0x07];
    assert_eq!(ResourceToken::parse_from_bytes(&bytes), Some(ResourceToken { token: 7 }));
    // length 0x1_0000_0001 cuts to 1
    let bytes = [0x12, 0x81, 0x80, 0x80, 0x80, 0x10, b'n'];
    let m = AccessResource::parse_from_bytes(&bytes).unwrap();
    assert_eq!(m.name, "n");
}
