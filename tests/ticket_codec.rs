use iroh::{EndpointAddr, SecretKey};
use iroh_blobs::ticket::BlobTicket;
use iroh_blobs::BlobFormat;
use p2p_share::ticket::{decode, encode, BlobData, TicketError};

fn sample_ticket(seed: u8, content: &[u8]) -> BlobTicket {
    let id = SecretKey::from_bytes(&[seed; 32]).public();
    BlobTicket::new(EndpointAddr::new(id), iroh_blobs::Hash::new(content), BlobFormat::Raw)
}

#[test]
fn encode_notes_txt() {
    let t = sample_ticket(1, b"hello");
    let s = encode(t.clone(), "notes.txt".to_string());
    assert_eq!(s, format!("{}!bm90ZXMudHh0", t));
    let (data, name) = decode(&s).unwrap();
    assert_eq!(name, "notes.txt");
    assert_eq!(data.locator, t.to_string());
    assert_eq!(data.ticket(), t);
}

#[test]
fn new_encodes_the_name() {
    let t = sample_ticket(2, b"data");
    let data = BlobData::new(t.clone(), "notes.txt".to_string());
    assert_eq!(data.encoded_name, "bm90ZXMudHh0");
    assert_eq!(data.locator, t.to_string());
    assert!(!data.locator.contains('!'));
    assert_eq!(data.decode_name().unwrap(), "notes.txt");
    assert_eq!(data.to_string(), format!("{}!bm90ZXMudHh0", t));
}

#[test]
fn round_trip_ascii_names() {
    let t = sample_ticket(3, b"x");
    for name in ["a", "report-2024_final.pdf", "with space.txt", "x!y.bin", ""] {
        let s = encode(t.clone(), name.to_string());
        let (data, back) = decode(&s).unwrap();
        assert_eq!(back, name);
        assert_eq!(data.ticket(), t);
    }
}

#[test]
fn empty_name_encodes_empty() {
    let t = sample_ticket(4, b"x");
    let s = encode(t.clone(), String::new());
    assert_eq!(s, format!("{}!", t));
}

#[test]
fn multi_byte_name_decodes_byte_by_byte() {
    let t = sample_ticket(5, b"x");
    let s = encode(t, "é".to_string());
    let (_, back) = decode(&s).unwrap();
    assert_eq!(back, "\u{c3}\u{a9}");
}

#[test]
fn decode_without_separator() {
    let t = sample_ticket(6, b"x");
    assert_eq!(decode(&t.to_string()).err(), Some(TicketError::MissingSeparator));
    assert_eq!(decode("").err(), Some(TicketError::MissingSeparator));
    assert_eq!(BlobData::from_str("abc").err(), Some(TicketError::MissingSeparator));
}

#[test]
fn decode_malformed_locator() {
    assert_eq!(decode("notaticket!bm90ZXMudHh0").err(), Some(TicketError::MalformedLocator));
    assert_eq!(decode("!bm90ZXMudHh0").err(), Some(TicketError::MalformedLocator));
}

#[test]
fn decode_malformed_name() {
    let t = sample_ticket(7, b"x");
    let s = format!("{}!@@@", t);
    assert_eq!(decode(&s).err(), Some(TicketError::MalformedName));
}

#[test]
fn split_keeps_everything_after_the_first_separator() {
    let t = sample_ticket(8, b"x");
    let s = format!("{}!abc!def", t);
    let data = BlobData::from_str(&s).unwrap();
    assert_eq!(data.locator, t.to_string());
    assert_eq!(data.encoded_name, "abc!def");
    assert_eq!(data.decode_name().err(), Some(TicketError::MalformedName));
}

#[test]
fn decode_name_refuses_bad_alphabet_and_length() {
    let t = sample_ticket(10, b"x");
    for bad in ["bm90=", "a+b/", "abcde", "é"] {
        let data = BlobData::from_str(&format!("{}!{}", t, bad)).unwrap();
        assert_eq!(data.decode_name().err(), Some(TicketError::MalformedName));
    }
}

#[test]
fn encoded_name_length() {
    let t = sample_ticket(11, b"x");
    for (name, len) in [("a", 2), ("ab", 3), ("abc", 4), ("notes.txt", 12)] {
        let data = BlobData::new(t.clone(), name.to_string());
        assert_eq!(data.encoded_name.len(), len);
    }
}

#[test]
fn ticket_reads_back_the_locator() {
    let t = sample_ticket(12, b"content");
    let other = sample_ticket(13, b"content");
    let data = BlobData::from_str(&format!("{}!YQ", t)).unwrap();
    assert_eq!(data.ticket(), t);
    assert_ne!(data.ticket(), other);
}
