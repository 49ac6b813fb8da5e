use spirvcross::{bytes_to_words, words_to_bytes};

#[test]
fn whole_words_are_read() {
    let bytes = [0x01u8, 0x00, 0x00, 0x00, 0x00, 0x01, 0x00, 0x00];
    let words = bytes_to_words(&bytes).unwrap();
    assert_eq!(words.len(), bytes.len() / 4);
    assert_eq!(words, vec![1, 0x100]);
}

#[test]
fn word_is_least_significant_byte_first() {
    let bytes = [0x01u8, 0x02, 0x03, 0x04];
    let words = bytes_to_words(&bytes).unwrap();
    assert_eq!(words, vec![0x0403_0201]);
}

#[test]
fn empty_buffer_gives_no_words() {
    let words = bytes_to_words(&[]).unwrap();
    assert!(words.is_empty());
}

#[test]
fn ragged_buffers_are_rejected() {
    assert!(bytes_to_words(&[1]).is_none());
    assert!(bytes_to_words(&[1, 2]).is_none());
    assert!(bytes_to_words(&[1, 2, 3]).is_none());
    assert!(bytes_to_words(&[1, 2, 3, 4, 5]).is_none());
    assert!(bytes_to_words(&[1, 2, 3, 4, 5, 6, 7]).is_none());
}

#[test]
fn words_lay_back_out_as_bytes() {
    let bytes = words_to_bytes(&[0x0403_0201, 0xdead_beef]);
    assert_eq!(bytes, vec![0x01, 0x02, 0x03, 0x04, 0xef, 0xbe, 0xad, 0xde]);
}

#[test]
fn round_trip_reproduces_the_buffer() {
    let original: Vec<u8> = (0u8..=255).chain(0u8..=255).collect();
    assert_eq!(original.len() % 4, 0);
    let words = bytes_to_words(&original).unwrap();
    let back = words_to_bytes(&words);
    assert_eq!(back, original);
}
