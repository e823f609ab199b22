use crypto::buffer::ReadBuffer;
use crypto::buffer::WriteBuffer;
use enpass_vault::cipher::encrypt_record_bytes;
use enpass_vault::errors::DecryptionError;
use enpass_vault::identity::IdentityMetadata;
use enpass_vault::identity::VaultFormatVersion;
use enpass_vault::record::decrypt;
use enpass_vault::record::decrypt_records;
use enpass_vault::record::parse_record;

fn test_vector_identity() -> IdentityMetadata {
    let mut info = vec![0u8; 48];
    for i in 0..16 {
        info[32 + i] = (i + 1) as u8;
    }
    IdentityMetadata {
        id: 1,
        version: 5,
        signature: String::from("sig"),
        sync_uuid: String::from("uuid"),
        hmac_key_material: b"testhash".to_vec(),
        info,
    }
}

fn encrypt_with_crate_pkcs(key: &[u8], iv: &[u8], data: &[u8]) -> Vec<u8> {
    let mut enc = crypto::aes::cbc_encryptor(
        crypto::aes::KeySize::KeySize256,
        key,
        iv,
        crypto::blockmodes::PkcsPadding,
    );
    let mut buf = vec![0u8; data.len() + 32];
    let mut read = crypto::buffer::RefReadBuffer::new(data);
    let mut write = crypto::buffer::RefWriteBuffer::new(&mut buf);
    enc.encrypt(&mut read, &mut write, true).unwrap();
    let mut out = Vec::new();
    out.extend_from_slice(write.take_read_buffer().take_remaining());
    out
}

fn title_x_tree() -> serde_json::Value {
    let mut map = serde_json::Map::new();
    map.insert(
        String::from("title"),
        serde_json::Value::String(String::from("x")),
    );
    serde_json::Value::Object(map)
}

#[test]
fn end_to_end_known_vector() {
    let identity = test_vector_identity();
    let km = enpass_vault::kdf::derive(&identity, "master", VaultFormatVersion::V5).unwrap();
    assert_eq!(km.iv, vec![0u8; 16]);
    let plaintext = b"{\"title\":\"x\"}";
    let ciphertext = encrypt_with_crate_pkcs(&km.key, &km.iv, plaintext);
    let tree = decrypt(&ciphertext, &km).unwrap();
    assert_eq!(tree, title_x_tree());
}

#[test]
fn payload_format_error_on_non_json_plaintext() {
    let identity = test_vector_identity();
    let km = enpass_vault::kdf::derive(&identity, "master", VaultFormatVersion::V5).unwrap();
    let ciphertext = encrypt_record_bytes(&[0xff, 0xfe, 0x00, 0x01], &km);
    let r = decrypt(&ciphertext, &km);
    assert_eq!(r.unwrap_err(), DecryptionError::PayloadFormatError);
}

#[test]
fn parse_record_accepts_and_rejects() {
    let tree = parse_record(b"{\"a\":[1,2,3],\"b\":null}").unwrap();
    assert!(tree.is_object());
    assert_eq!(tree["a"][2], serde_json::Value::from(3));
    let r = parse_record(b"not json at all {{");
    assert_eq!(r.unwrap_err(), DecryptionError::PayloadFormatError);
}

#[test]
fn batch_keeps_order_and_reports_each_record() {
    let identity = test_vector_identity();
    let km = enpass_vault::kdf::derive(&identity, "master", VaultFormatVersion::V5).unwrap();
    let good_a = encrypt_record_bytes(b"{\"title\":\"a\"}", &km);
    let bad_len = vec![0u8; 15];
    let good_b = encrypt_record_bytes(b"{\"title\":\"b\"}", &km);
    let not_json = encrypt_record_bytes(b"###", &km);
    let payloads = vec![good_a, bad_len, good_b, not_json];
    let results = decrypt_records(&payloads, &km);
    assert_eq!(results.len(), 4);
    assert_eq!(results[0].as_ref().unwrap()["title"], serde_json::Value::String(String::from("a")));
    assert_eq!(results[1].as_ref().unwrap_err(), &DecryptionError::InvalidCiphertextLength);
    assert_eq!(results[2].as_ref().unwrap()["title"], serde_json::Value::String(String::from("b")));
    assert_eq!(results[3].as_ref().unwrap_err(), &DecryptionError::PayloadFormatError);
}
