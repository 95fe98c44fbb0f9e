use solana_twitter::Pubkey;
use solana_twitter::Tweet;

fn record(topic: &str, content: &str, author_byte: u8, timestamp: i64) -> Tweet {
    let author = Pubkey::new(vec![author_byte; 32]).unwrap();
    let allocator = Pubkey::new(
        anchor_lang::solana_program::system_program::ID.to_bytes().to_vec(),
    )
    .unwrap();
    solana_twitter::send_tweet(
        topic.to_string(),
        content.to_string(),
        author,
        &allocator,
        timestamp,
    )
    .unwrap()
}

#[test]
fn fixed_total_size() {
    assert_eq!(Tweet::LEN, 1376);
    assert_eq!(record("a", "b", 0, 0).serialize().len(), 1376);
    // The size never depends on the payload lengths.
    assert_eq!(
        record(&"t".repeat(50), &"c".repeat(280), 0, 0).serialize().len(),
        1376
    );
    assert_eq!(record("", "", 0, 0).serialize().len(), 1376);
}

#[test]
fn exact_byte_image() {
    let bytes = record("hello", "world", 7, 42).serialize();
    // Leading record-type discriminator.
    assert_eq!(&bytes[0..8], &[84, 119, 101, 101, 116, 82, 101, 99]);
    // Author identity.
    assert_eq!(&bytes[8..40], &[7u8; 32]);
    // Timestamp, little endian.
    assert_eq!(&bytes[40..48], &[42, 0, 0, 0, 0, 0, 0, 0]);
    // Topic: byte-length prefix, bytes, zero padding.
    assert_eq!(&bytes[48..52], &[5, 0, 0, 0]);
    assert_eq!(&bytes[52..57], b"hello");
    assert!(bytes[57..252].iter().all(|&b| b == 0));
    // Content: byte-length prefix, bytes, zero padding.
    assert_eq!(&bytes[252..256], &[5, 0, 0, 0]);
    assert_eq!(&bytes[256..261], b"world");
    assert!(bytes[261..1376].iter().all(|&b| b == 0));
}

#[test]
fn multibyte_text_is_really_encoded() {
    // A 2-character topic of 3-byte characters: the prefix counts 6 bytes,
    // and the stored bytes are the UTF-8 encoding, not the characters.
    let bytes = record("\u{20ac}\u{20ac}", "", 0, 0).serialize();
    assert_eq!(&bytes[48..52], &[6, 0, 0, 0]);
    assert_eq!(&bytes[52..58], "\u{20ac}\u{20ac}".as_bytes());
    // Empty content: zero prefix, all padding.
    assert_eq!(&bytes[252..256], &[0, 0, 0, 0]);
    assert!(bytes[256..1376].iter().all(|&b| b == 0));
}

#[test]
fn stored_texts_round_trip() {
    let topic = "caf\u{e9} corner";
    let content = "a post with caf\u{e9} and \u{20ac} signs";
    let bytes = record(topic, content, 3, 99).serialize();
    let tlen = u32::from_le_bytes(bytes[48..52].try_into().unwrap()) as usize;
    let clen = u32::from_le_bytes(bytes[252..256].try_into().unwrap()) as usize;
    assert_eq!(
        std::str::from_utf8(&bytes[52..52 + tlen]).unwrap(),
        topic
    );
    assert_eq!(
        std::str::from_utf8(&bytes[256..256 + clen]).unwrap(),
        content
    );
}

#[test]
fn slot_is_overwritten_in_place() {
    let t = record("topic", "content", 5, 1);
    let mut slot = vec![0xaau8; Tweet::LEN];
    t.write_to_slot(&mut slot);
    assert_eq!(slot, t.serialize());
    assert_eq!(slot.len(), Tweet::LEN);
}
