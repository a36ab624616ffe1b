use base64::Engine;
use crypto::buffer::{BufferResult, ReadBuffer, WriteBuffer};
use crypto::digest::Digest;
use simplepush_rs::{Message, SimplePush};

fn sha1_first_16(text: &str) -> Vec<u8> {
    let mut hasher = crypto::sha1::Sha1::new();
    hasher.input_str(text);
    let mut digest = [0u8; 20];
    hasher.result(&mut digest);
    digest[0..16].to_vec()
}

fn iv_from_hex(iv_hex: &str) -> Vec<u8> {
    assert_eq!(iv_hex.len(), 32);
    let raw = iv_hex.as_bytes();
    let mut iv = Vec::new();
    for i in 0..16 {
        let hexpair = std::str::from_utf8(&raw[2 * i..2 * i + 2]).unwrap();
        iv.push(u8::from_str_radix(hexpair, 16).unwrap());
    }
    iv
}

fn decrypt_field(key: &[u8], iv: &[u8], field: &str) -> String {
    let cipherbytes = base64::engine::general_purpose::URL_SAFE
        .decode(field)
        .unwrap();
    let mut dec = crypto::aes::cbc_decryptor(
        crypto::aes::KeySize::KeySize128,
        key,
        iv,
        crypto::blockmodes::PkcsPadding,
    );
    let mut out = Vec::<u8>::new();
    let mut read_buffer = crypto::buffer::RefReadBuffer::new(&cipherbytes);
    let mut buffer = [0u8; 4096];
    let mut write_buffer = crypto::buffer::RefWriteBuffer::new(&mut buffer);
    loop {
        let result = dec.decrypt(&mut read_buffer, &mut write_buffer, true).unwrap();
        out.extend(
            write_buffer
                .take_read_buffer()
                .take_remaining()
                .iter()
                .copied(),
        );
        if let BufferResult::BufferUnderflow = result {
            break;
        }
    }
    String::from_utf8(out).unwrap()
}

#[test]
fn plaintext_scenario() {
    let m = Message::new("K1", None, "hello", None, None);
    let p = SimplePush::process_message(&m).unwrap();
    assert_eq!(p.key, "K1");
    assert_eq!(p.msg, "hello");
    assert!(p.title.is_none());
    assert!(p.event.is_none());
    assert!(p.actions.is_none());
    assert!(p.encrypted.is_none());
    assert!(p.iv.is_none());
}

#[test]
fn plaintext_fields_pass_through() {
    let m = Message::new(
        "key",
        Some("title"),
        "body",
        Some("alert"),
        Some(vec!["yes", "no"]),
    );
    let p = SimplePush::process_message(&m).unwrap();
    assert_eq!(p.key, "key");
    assert_eq!(p.title.as_deref(), Some("title"));
    assert_eq!(p.msg, "body");
    assert_eq!(p.event.as_deref(), Some("alert"));
    assert_eq!(
        p.actions,
        Some(vec![String::from("yes"), String::from("no")])
    );
    assert!(p.encrypted.is_none());
    assert!(p.iv.is_none());
}

#[test]
fn encrypted_scenario() {
    let m = Message::new_with_encryption("K1", Some("Hi"), "secret", None, None, "pw", Some("SALTX"));
    let p = SimplePush::process_message(&m).unwrap();
    assert_eq!(p.key, "K1");
    assert_eq!(p.encrypted.as_deref(), Some("true"));
    let iv_hex = p.iv.clone().unwrap();
    assert_eq!(iv_hex.len(), 32);
    assert!(iv_hex
        .chars()
        .all(|c| c.is_ascii_hexdigit() && !c.is_ascii_lowercase()));
    // "secret" is 6 bytes: PKCS padding fills one 16-byte block, and
    // padded base64 turns 16 bytes into 24 characters.
    assert_eq!(p.msg.len(), 24);
    let key = sha1_first_16("pwSALTX");
    let iv = iv_from_hex(&iv_hex);
    assert_eq!(decrypt_field(&key, &iv, &p.msg), "secret");
    assert_eq!(decrypt_field(&key, &iv, p.title.as_deref().unwrap()), "Hi");
    assert!(p.event.is_none());
    assert!(p.actions.is_none());
}

#[test]
fn encrypted_round_trip_with_actions() {
    let m = Message::new_with_encryption(
        "key",
        Some("title"),
        "a longer message body, spanning more than one cipher block.",
        Some("alert"),
        Some(vec!["yes", "no"]),
        "password",
        None,
    );
    let p = SimplePush::process_message(&m).unwrap();
    // The default salt takes part in key derivation when none is given.
    let key = sha1_first_16("passwordA9F361C70BCB6182");
    let iv = iv_from_hex(p.iv.as_deref().unwrap());
    assert_eq!(
        decrypt_field(&key, &iv, &p.msg),
        "a longer message body, spanning more than one cipher block."
    );
    assert_eq!(decrypt_field(&key, &iv, p.title.as_deref().unwrap()), "title");
    // `key` and `event` pass through in the clear by design.
    assert_eq!(p.key, "key");
    assert_eq!(p.event.as_deref(), Some("alert"));
    let actions = p.actions.unwrap();
    assert_eq!(actions.len(), 2);
    assert_eq!(decrypt_field(&key, &iv, &actions[0]), "yes");
    assert_eq!(decrypt_field(&key, &iv, &actions[1]), "no");
}

#[test]
fn encrypted_empty_body_round_trips() {
    let m = Message::new_with_encryption("key", Some("t"), "", None, None, "pw", Some("s"));
    let p = SimplePush::process_message(&m).unwrap();
    // A zero-length body yields a zero-length ciphertext: this engine
    // emits no padding block for empty input.
    assert_eq!(p.msg.len(), 0);
    let key = sha1_first_16("pws");
    let iv = iv_from_hex(p.iv.as_deref().unwrap());
    assert_eq!(decrypt_field(&key, &iv, &p.msg), "");
}

#[test]
fn key_derivation_is_deterministic() {
    let a = simplepush_rs::cipher::derive_key("pw", "SALTX");
    let b = simplepush_rs::cipher::derive_key("pw", "SALTX");
    assert_eq!(a, b);
    let c = simplepush_rs::cipher::derive_key("pw", "SALTY");
    assert_ne!(a, c);
}

#[test]
fn key_derivation_matches_sha1() {
    // SHA1("abc") = A9993E364706816ABA3E25717850C26C9CD0D89D; the key keeps
    // the first 16 bytes and the concatenation order is password || salt.
    let key = simplepush_rs::cipher::derive_key("a", "bc");
    assert_eq!(
        key,
        vec![
            0xA9, 0x99, 0x3E, 0x36, 0x47, 0x06, 0x81, 0x6A, 0xBA, 0x3E, 0x25, 0x71, 0x78, 0x50,
            0xC2, 0x6C
        ]
    );
}

#[test]
fn iv_differs_between_messages() {
    let m = Message::new_with_encryption("key", None, "body", None, None, "pw", Some("s"));
    let p1 = SimplePush::process_message(&m).unwrap();
    let p2 = SimplePush::process_message(&m).unwrap();
    assert_ne!(p1.iv.unwrap(), p2.iv.unwrap());
}

#[test]
fn same_plaintexts_differ_under_one_iv_reuse() {
    // Body and title are encrypted as independent CBC streams from the same
    // IV, so equal plaintexts give equal ciphertexts within one message.
    let m = Message::new_with_encryption("key", Some("same"), "same", None, None, "pw", Some("s"));
    let p = SimplePush::process_message(&m).unwrap();
    assert_eq!(p.msg, p.title.unwrap());
}

#[test]
fn hexify_exact() {
    assert_eq!(SimplePush::hexify(vec![]), "");
    assert_eq!(SimplePush::hexify(vec![0x00, 0x0F, 0xAB, 0xFF]), "000FABFF");
}

#[test]
fn message_constructors_fill_fields() {
    let m = Message::new("k", Some("t"), "b", Some("e"), Some(vec!["a1"]));
    assert_eq!(m.key, "k");
    assert_eq!(m.title.as_deref(), Some("t"));
    assert_eq!(m.message, "b");
    assert_eq!(m.event.as_deref(), Some("e"));
    assert_eq!(m.actions, Some(vec![String::from("a1")]));
    assert!(!m.encrypt);
    assert!(m.password.is_none());
    assert!(m.salt.is_none());

    let e = Message::new_with_encryption("k", None, "b", None, None, "pw", None);
    assert!(e.encrypt);
    assert_eq!(e.password.as_deref(), Some("pw"));
    assert_eq!(e.salt.as_deref(), Some("A9F361C70BCB6182"));

    let s = Message::new_with_encryption("k", None, "b", None, None, "pw", Some("mine"));
    assert_eq!(s.salt.as_deref(), Some("mine"));
}
