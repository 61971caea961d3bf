use tracing_slf4j::runtime_text::decode;

#[test]
fn plain_text_is_read_as_it_stands() {
    assert_eq!(decode(&b"hello world".to_vec()), Some(String::from("hello world")));
    assert_eq!(decode(&Vec::new()), Some(String::new()));
}

#[test]
fn every_length_of_character_is_read() {
    let bytes = vec![0x41, 0xc3, 0xa9, 0xe2, 0x82, 0xac, 0xed, 0xa0, 0xbd, 0xed, 0xb8, 0x80, 0x5a];
    assert_eq!(decode(&bytes), Some(String::from("A\u{e9}\u{20ac}\u{1f600}Z")));
}

#[test]
fn two_surrogate_pairs_in_a_row_are_two_characters() {
    let bytes = vec![0xed, 0xa0, 0xbd, 0xed, 0xb8, 0x80, 0xed, 0xa0, 0xbc, 0xed, 0xbc, 0x8d];
    assert_eq!(decode(&bytes), Some(String::from("\u{1f600}\u{1f30d}")));
}

#[test]
fn a_fault_at_the_end_spoils_the_whole_text() {
    assert_eq!(decode(&vec![0x61, 0x62, 0x63, 0xed, 0xa0, 0xbd]), None);
    assert_eq!(decode(&vec![0x61, 0x62, 0x63, 0xc0]), None);
    assert_eq!(decode(&vec![0x61, 0x62, 0x63, 0xf8]), None);
}

#[test]
fn a_second_byte_out_of_place_is_a_fault() {
    assert_eq!(decode(&vec![0xc3, 0x28]), None);
    assert_eq!(decode(&vec![0xc3, 0xc3]), None);
    assert_eq!(decode(&vec![0xe2, 0x28, 0xa1]), None);
    assert_eq!(decode(&vec![0xe2, 0x82, 0x28]), None);
}
