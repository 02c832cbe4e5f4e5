use winfw::{decode_text, encode_text, text_eq, Error, TEXT_CAPACITY};

fn slot_with(bytes: &[u8]) -> [u8; TEXT_CAPACITY] {
    let mut slot = [0u8; TEXT_CAPACITY];
    slot[..bytes.len()].copy_from_slice(bytes);
    slot
}

#[test]
fn capacity_is_1024_bytes() {
    assert_eq!(TEXT_CAPACITY, 1024);
}

#[test]
fn decode_reads_up_to_the_zero_padding() {
    let slot = slot_with(b"2400-2450");
    assert_eq!(decode_text(&slot), Ok("2400-2450".to_string()));
}

#[test]
fn encode_of_empty_text_leaves_the_slot_zero() {
    let mut slot = [0u8; TEXT_CAPACITY];
    assert_eq!(encode_text("", &mut slot), Ok(()));
    assert!(slot.iter().all(|b| *b == 0));
}

#[test]
fn encode_copies_the_bytes_from_the_start() {
    let mut slot = [0u8; TEXT_CAPACITY];
    assert_eq!(encode_text("2400-2450", &mut slot), Ok(()));
    assert_eq!(&slot[..9], b"2400-2450");
    assert!(slot[9..].iter().all(|b| *b == 0));
}

#[test]
fn encode_writes_no_terminator() {
    let mut slot = [0x41u8; TEXT_CAPACITY];
    assert_eq!(encode_text("LAN", &mut slot), Ok(()));
    assert_eq!(&slot[..3], b"LAN");
    assert!(slot[3..].iter().all(|b| *b == 0x41));
    assert_eq!(decode_text(&slot), Err(Error::Decode));
}

#[test]
fn encode_of_empty_text_touches_nothing() {
    let mut slot = [0x41u8; TEXT_CAPACITY];
    assert_eq!(encode_text("", &mut slot), Ok(()));
    assert!(slot.iter().all(|b| *b == 0x41));
}

#[test]
fn encode_then_decode_gives_the_text_back() {
    let mut slot = [0u8; TEXT_CAPACITY];
    assert_eq!(encode_text("Sample Rule Group", &mut slot), Ok(()));
    assert_eq!(decode_text(&slot), Ok("Sample Rule Group".to_string()));
}

#[test]
fn text_of_several_bytes_per_character_round_trips() {
    let text = "r\u{e8}gle \u{2014} \u{9632}\u{706b}\u{5899} \u{1f525}";
    let mut slot = [0u8; TEXT_CAPACITY];
    assert_eq!(encode_text(text, &mut slot), Ok(()));
    assert_eq!(&slot[..text.len()], text.as_bytes());
    assert_eq!(slot[text.len()], 0);
    assert_eq!(decode_text(&slot), Ok(text.to_string()));
}

#[test]
fn longest_text_that_fits_has_1023_bytes() {
    let text = "a".repeat(1023);
    let mut slot = [0u8; TEXT_CAPACITY];
    assert_eq!(encode_text(&text, &mut slot), Ok(()));
    assert_eq!(slot[1022], b'a');
    assert_eq!(slot[1023], 0);
    assert_eq!(decode_text(&slot), Ok(text));
}

#[test]
fn text_of_1024_bytes_is_refused_and_the_slot_untouched() {
    let text = "a".repeat(1024);
    let mut slot = [0u8; TEXT_CAPACITY];
    assert_eq!(encode_text(&text, &mut slot), Err(Error::TooLong));
    assert!(slot.iter().all(|b| *b == 0));
}

#[test]
fn longer_text_is_refused() {
    let text = "\u{e9}".repeat(600);
    let mut slot = [7u8; TEXT_CAPACITY];
    assert_eq!(encode_text(&text, &mut slot), Err(Error::TooLong));
    assert!(slot.iter().all(|b| *b == 7));
}

#[test]
fn decode_of_a_blank_slot_is_the_empty_text() {
    let slot = [0u8; TEXT_CAPACITY];
    assert_eq!(decode_text(&slot), Ok(String::new()));
}

#[test]
fn decode_without_terminator_fails() {
    let slot = [b'x'; TEXT_CAPACITY];
    assert_eq!(decode_text(&slot), Err(Error::Decode));
}

#[test]
fn decode_of_ill_formed_bytes_fails() {
    let slot = slot_with(&[b'a', 0xff, b'b']);
    assert_eq!(decode_text(&slot), Err(Error::Decode));
    let cut_short = slot_with(&[0xe2, 0x82]);
    assert_eq!(decode_text(&cut_short), Err(Error::Decode));
    let surrogate = slot_with(&[0xed, 0xa0, 0x80]);
    assert_eq!(decode_text(&surrogate), Err(Error::Decode));
    let overlong = slot_with(&[0xc0, 0xaf]);
    assert_eq!(decode_text(&overlong), Err(Error::Decode));
}

#[test]
fn decode_ignores_what_follows_the_first_zero() {
    let mut slot = slot_with(b"LAN");
    slot[4] = 0xff;
    slot[5] = b'z';
    assert_eq!(decode_text(&slot), Ok("LAN".to_string()));
}

#[test]
fn decode_reads_the_bytes_and_not_the_slot() {
    let slot = slot_with("\u{20ac}".as_bytes());
    let text = decode_text(&slot).unwrap();
    assert_eq!(text.chars().count(), 1);
    assert_eq!(text, "\u{20ac}");
}

#[test]
fn text_with_nul_inside_is_cut_at_the_nul() {
    let mut slot = [0u8; TEXT_CAPACITY];
    assert_eq!(encode_text("a\0b", &mut slot), Ok(()));
    assert_eq!(&slot[..3], b"a\0b");
    assert_eq!(decode_text(&slot), Ok("a".to_string()));
}

#[test]
fn text_eq_compares_character_by_character() {
    assert!(text_eq("TEST_RULE", "TEST_RULE"));
    assert!(text_eq("", ""));
    assert!(!text_eq("TEST_RULE", "test_rule"));
    assert!(!text_eq("TEST_RULE", "TEST_RULE "));
    assert!(!text_eq("TEST_RULE", "TEST_RULF"));
    assert!(!text_eq("", "X"));
}
