use mailbox::{decode, encode, identify, MailboxError, Message};
use mailbox::{ADDRESS_LEN, HEADER_LEN, MAILBOX_VERSION, MESSAGE_ID_LEN};

fn ping(nonce: u32) -> Message {
    Message {
        version: 3,
        nonce,
        origin_domain: 1,
        sender: vec![0x11; 32],
        destination_domain: 2,
        recipient: vec![0x22; 32],
        body: b"ping".to_vec(),
    }
}

fn ping_bytes() -> Vec<u8> {
    let mut bytes: Vec<u8> = vec![3, 0, 0, 0, 0, 0, 0, 0, 1];
    bytes.extend(vec![0x11u8; 32]);
    bytes.extend(vec![0, 0, 0, 2]);
    bytes.extend(vec![0x22u8; 32]);
    bytes.extend(b"ping".to_vec());
    bytes
}

#[test]
fn constants_have_the_protocol_values() {
    assert_eq!(MAILBOX_VERSION, 3);
    assert_eq!(ADDRESS_LEN, 32);
    assert_eq!(HEADER_LEN, 77);
    assert_eq!(MESSAGE_ID_LEN, 32);
}

#[test]
fn encode_lays_the_fields_out_in_order() {
    assert_eq!(encode(&ping(0)), ping_bytes());
    assert_eq!(encode(&ping(0)).len(), 81);
}

#[test]
fn encode_writes_numbers_big_endian() {
    let mut message = ping(0x0a0b_0c0d);
    message.origin_domain = 0x0102_0304;
    message.destination_domain = 0xfffe_fdfc;
    let bytes = encode(&message);
    assert_eq!(&bytes[0..1], &[3]);
    assert_eq!(&bytes[1..5], &[0x0a, 0x0b, 0x0c, 0x0d]);
    assert_eq!(&bytes[5..9], &[1, 2, 3, 4]);
    assert_eq!(&bytes[41..45], &[0xff, 0xfe, 0xfd, 0xfc]);
    let mut edges = ping(u32::MAX);
    edges.origin_domain = 0;
    edges.destination_domain = 256;
    let bytes = encode(&edges);
    assert_eq!(&bytes[1..5], &[255, 255, 255, 255]);
    assert_eq!(&bytes[5..9], &[0, 0, 0, 0]);
    assert_eq!(&bytes[41..45], &[0, 0, 1, 0]);
}

#[test]
fn decode_inverts_encode() {
    let message = ping(7);
    assert_eq!(decode(&encode(&message)), Ok(message));
    let mut other = ping(u32::MAX);
    other.version = 0;
    other.body = vec![];
    assert_eq!(decode(&encode(&other)), Ok(other));
    let mut long = ping(1);
    long.body = vec![0xab; 1000];
    assert_eq!(decode(&encode(&long)), Ok(long));
}

#[test]
fn encode_inverts_decode() {
    let bytes: Vec<u8> = (0..200u32).map(|i| (i * 7 % 256) as u8).collect();
    let message = decode(&bytes).unwrap();
    assert_eq!(message.version, 0);
    assert_eq!(message.sender.len(), 32);
    assert_eq!(message.recipient.len(), 32);
    assert_eq!(message.body.len(), 200 - 77);
    assert_eq!(encode(&message), bytes);
}

#[test]
fn decode_reads_the_fields() {
    let message = decode(&ping_bytes()).unwrap();
    assert_eq!(message, ping(0));
    assert_eq!(message.body, b"ping".to_vec());
}

#[test]
fn decode_reads_numbers_big_endian() {
    let mut bytes = ping_bytes();
    bytes[1..5].copy_from_slice(&[0xde, 0xad, 0xbe, 0xef]);
    bytes[5..9].copy_from_slice(&[0, 0, 1, 0]);
    bytes[41..45].copy_from_slice(&[255, 255, 255, 255]);
    let message = decode(&bytes).unwrap();
    assert_eq!(message.nonce, 0xdead_beef);
    assert_eq!(message.origin_domain, 256);
    assert_eq!(message.destination_domain, u32::MAX);
    assert_eq!(message.sender, vec![0x11; 32]);
}

#[test]
fn decode_takes_a_bare_header() {
    let bytes: Vec<u8> = ping_bytes()[..77].to_vec();
    let message = decode(&bytes).unwrap();
    assert_eq!(message.body, Vec::<u8>::new());
    assert_eq!(message.recipient, vec![0x22; 32]);
}

#[test]
fn decode_refuses_short_input() {
    assert_eq!(decode(&vec![]), Err(MailboxError::MalformedMessage));
    assert_eq!(decode(&vec![3]), Err(MailboxError::MalformedMessage));
    assert_eq!(decode(&ping_bytes()[..76].to_vec()), Err(MailboxError::MalformedMessage));
}

#[test]
fn decode_does_not_judge_the_version() {
    let mut bytes = ping_bytes();
    bytes[0] = 200;
    assert_eq!(decode(&bytes).unwrap().version, 200);
}

#[test]
fn identify_is_the_keccak_digest_of_the_encoding() {
    let expected: Vec<u8> = vec![
        152, 173, 152, 241, 85, 230, 35, 201, 44, 245, 174, 194, 74, 237, 141, 30, 130, 175, 6, 81,
        214, 83, 187, 107, 71, 13, 181, 43, 16, 180, 248, 236,
    ];
    assert_eq!(identify(&ping(0)), expected);
    let next: Vec<u8> = vec![
        174, 104, 9, 237, 169, 214, 127, 13, 226, 98, 31, 107, 158, 69, 102, 178, 243, 88, 3, 35,
        198, 125, 89, 193, 33, 12, 38, 78, 242, 212, 149, 102,
    ];
    assert_eq!(identify(&ping(1)), next);
}

#[test]
fn identify_is_deterministic_and_fixed_width() {
    let id = identify(&ping(5));
    assert_eq!(id.len(), 32);
    assert_eq!(identify(&ping(5)), id);
    assert_eq!(identify(&decode(&encode(&ping(5))).unwrap()), id);
    assert_ne!(id, encode(&ping(5)));
}

#[test]
fn identify_tells_messages_apart_field_by_field() {
    let base = identify(&ping(0));
    let mut m = ping(0);
    m.version = 4;
    assert_ne!(identify(&m), base);
    assert_ne!(identify(&ping(1)), base);
    let mut m = ping(0);
    m.origin_domain = 9;
    assert_ne!(identify(&m), base);
    let mut m = ping(0);
    m.sender[31] = 0x12;
    assert_ne!(identify(&m), base);
    let mut m = ping(0);
    m.destination_domain = 9;
    assert_ne!(identify(&m), base);
    let mut m = ping(0);
    m.recipient[0] = 0x23;
    assert_ne!(identify(&m), base);
    let mut m = ping(0);
    m.body.push(0);
    assert_ne!(identify(&m), base);
}

#[test]
fn well_formed_means_both_addresses_have_the_canonical_width() {
    assert!(ping(0).is_well_formed());
    let mut short_sender = ping(0);
    short_sender.sender = vec![0x11; 20];
    assert!(!short_sender.is_well_formed());
    let mut long_recipient = ping(0);
    long_recipient.recipient = vec![0x22; 33];
    assert!(!long_recipient.is_well_formed());
    let mut empty_body = ping(0);
    empty_body.body = vec![];
    assert!(empty_body.is_well_formed());
}
