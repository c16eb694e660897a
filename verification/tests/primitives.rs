use chacha20poly1305::aead::{Aead, KeyInit};
use ed25519_dalek::Signer;
use gxt::codec::{decode_message, encode_message, frame, strip_prefix, unframe};
use gxt::envelope::{cbor_array, preimage};
use gxt::hexcode::parse_hex;
use gxt::keys::{derive_enc_from_signing, enc_derive_key_from_pairs, parse_key};
use gxt::message::{decrypt_payload, encrypt_payload, encrypt_payload_with_nonce};
use gxt::signer::{compute_id, same_bytes, sign, verify};
use gxt::text::same_text;
use gxt::{make_key, GxtError, Payload, PayloadKind};

fn bytes32(hex_text: &str) -> [u8; 32] {
    hex::decode(hex_text).unwrap().try_into().unwrap()
}

const SECRET: &str = "9d61b19deffd5a60ba844af492ec2cc44449c5697b326919703bac031cae7f60";
const PUBLIC: &str = "d75a980182b10ab7d54bfed3c964073a0ee172f3daa62325af021a68f707511a";

#[test]
fn hex_reads_both_cases() {
    assert_eq!(parse_hex::<2>("00ff"), Ok([0x00, 0xff]));
    assert_eq!(parse_hex::<2>("00FF"), Ok([0x00, 0xff]));
    assert_eq!(parse_hex::<3>("a1B2c3"), Ok([0xa1, 0xb2, 0xc3]));
    assert_eq!(parse_hex::<0>(""), Ok([]));
}

#[test]
fn hex_says_what_is_wrong() {
    assert_eq!(parse_hex::<2>("00f"), Err(GxtError::BadHex));
    assert_eq!(parse_hex::<2>("00fg"), Err(GxtError::BadHex));
    assert_eq!(parse_hex::<2>(" 00ff"), Err(GxtError::BadHex));
    assert_eq!(parse_hex::<2>("\u{e9}\u{e9}"), Err(GxtError::BadHex));
    assert_eq!(parse_hex::<2>("00"), Err(GxtError::InvalidHexSize { expected: 2, got: 1 }));
    assert_eq!(parse_hex::<1>("00ff"), Err(GxtError::InvalidHexSize { expected: 1, got: 2 }));
}

#[test]
fn a_key_is_thirty_two_bytes_of_hex() {
    assert_eq!(parse_key(SECRET), Ok(bytes32(SECRET)));
    assert_eq!(parse_key("00"), Err(GxtError::InvalidHexSize { expected: 32, got: 1 }));
    assert_eq!(parse_key("xy"), Err(GxtError::BadHex));
}

#[test]
fn fresh_keys_are_hex_and_differ() {
    let first = make_key();
    let second = make_key();
    assert_eq!(first.len(), 64);
    assert!(first.chars().all(|c| c.is_ascii_digit() || ('a'..='f').contains(&c)));
    assert!(parse_key(&first).is_ok());
    assert_ne!(first, second);
}

#[test]
fn the_id_is_the_blake3_hash() {
    assert_eq!(
        hex::encode(compute_id(b"")),
        "af1349b9f5f9a1a6a0404dea36dcc9499bcb25c9adc112b7cc9a93cae41f3262"
    );
    assert_eq!(compute_id(b"abc"), *blake3::hash(b"abc").as_bytes());
    assert_ne!(compute_id(b"abc"), compute_id(b"abd"));
}

#[test]
fn the_preimage_is_the_tag_and_the_bytes() {
    assert_eq!(preimage(b""), b"GXT".to_vec());
    assert_eq!(preimage(&[1, 2, 3]), vec![0x47, 0x58, 0x54, 1, 2, 3]);
}

#[test]
fn sign_signs_the_tagged_bytes() {
    let secret = bytes32(SECRET);
    let signature = sign(&secret, b"canonical");
    let key = ed25519_dalek::VerifyingKey::from_bytes(&bytes32(PUBLIC)).unwrap();
    let dalek = ed25519_dalek::Signature::from_bytes(&signature);
    assert!(key.verify_strict(b"GXTcanonical", &dalek).is_ok());
    assert!(key.verify_strict(b"canonical", &dalek).is_err());
    assert_eq!(signature, sign(&secret, b"canonical"));
}

#[test]
fn the_empty_record_has_the_signature_of_the_tag() {
    let secret = bytes32(SECRET);
    let expected = ed25519_dalek::SigningKey::from_bytes(&secret).sign(b"GXT").to_bytes();
    assert_eq!(sign(&secret, b""), expected);
}

#[test]
fn verify_checks_the_id_before_the_signature() {
    let secret = bytes32(SECRET);
    let public = bytes32(PUBLIC);
    let canonical = b"some canonical bytes".to_vec();
    let id = compute_id(&canonical);
    let signature = sign(&secret, &canonical);
    assert_eq!(verify(&public, &canonical, &signature, &id), Ok(()));

    let mut wrong_id = id;
    wrong_id[31] ^= 1;
    let mut wrong_signature = signature;
    wrong_signature[0] ^= 1;
    assert_eq!(verify(&public, &canonical, &signature, &wrong_id), Err(GxtError::BadId));
    assert_eq!(verify(&public, &canonical, &wrong_signature, &wrong_id), Err(GxtError::BadId));
    assert_eq!(verify(&public, &canonical, &wrong_signature, &id), Err(GxtError::BadSig));

    let other = b"other canonical bytes".to_vec();
    assert_eq!(verify(&public, &other, &signature, &id), Err(GxtError::BadId));
    assert_eq!(verify(&public, &other, &signature, &compute_id(&other)), Err(GxtError::BadSig));

    let stranger = bytes32("3d4017c3e843895a92b70aa74d1b7ebc9c982ccf2ec4968cc0cd55f12af4660c");
    assert_eq!(verify(&stranger, &canonical, &signature, &id), Err(GxtError::BadSig));
}

#[test]
fn the_verification_key_is_the_ed25519_public_key() {
    let token = gxt::make_id_card(SECRET, Payload::Null).unwrap();
    assert_eq!(gxt::verify_message(&token).unwrap().verification_key, PUBLIC);
}

#[test]
fn the_encryption_pair_is_derived_from_the_secret() {
    let secret = bytes32(SECRET);
    let (derived, public) = derive_enc_from_signing(&secret);
    let expected = blake3::derive_key("GXT-ENC-X25519-FROM-ED25519", &secret);
    assert_eq!(derived, expected);
    assert_ne!(derived, secret);
    let dalek = x25519_dalek::PublicKey::from(&x25519_dalek::StaticSecret::from(expected));
    assert_eq!(public, dalek.to_bytes());
    assert_eq!(derive_enc_from_signing(&secret), (derived, public));
    assert_ne!(derive_enc_from_signing(&bytes32(PUBLIC)), (derived, public));
}

#[test]
fn the_symmetric_key_is_derived_from_the_shared_secret() {
    let alice = bytes32("77076d0a7318a57d3c16c17251b26645df4c2f87ebc0992ab177fba51db92c2a");
    let alice_public =
        bytes32("8520f0098930a754748b7ddcb43ef75a0dbf3a0d26381af4eba4a98eaa9b4e6a");
    let bob = bytes32("5dab087e624a8a4b79e17f8b83800ee66f3bb1292618b6fd1c2f8b27ff88e0eb");
    let bob_public = bytes32("de9edb7d7b7dc1b4d35b61c2ece435373f8343c85b78674dadfc7e146f882b4f");
    let shared = bytes32("4a5d9d5ba4ce2de1728e3bf480350f25e07e21c947d19e3376f09b3c1e161742");
    let expected = blake3::derive_key("GXT-ENC-XCHACHA20POLY1305", &shared);
    assert_eq!(enc_derive_key_from_pairs(&alice, &bob_public), expected);
    assert_eq!(enc_derive_key_from_pairs(&bob, &alice_public), expected);
    assert_ne!(enc_derive_key_from_pairs(&bob, &bob_public), expected);
}

#[test]
fn both_parties_derive_the_same_symmetric_key() {
    let a = bytes32(SECRET);
    let b = bytes32(PUBLIC);
    let (a_secret, a_public) = derive_enc_from_signing(&a);
    let (b_secret, b_public) = derive_enc_from_signing(&b);
    assert_eq!(
        enc_derive_key_from_pairs(&a_secret, &b_public),
        enc_derive_key_from_pairs(&b_secret, &a_public)
    );
}

#[test]
fn a_sealed_payload_opens_for_the_other_party() {
    let a = bytes32(SECRET);
    let b = bytes32(PUBLIC);
    let (_, a_public) = derive_enc_from_signing(&a);
    let (_, b_public) = derive_enc_from_signing(&b);
    let plaintext = Payload::Array(vec![Payload::Integer(7), Payload::Text("x".into())]);
    let nonce = [9u8; 24];
    let sealed = encrypt_payload_with_nonce(&a, &b_public, &plaintext, &nonce).unwrap();
    assert_eq!(sealed.len(), serde_cbor::to_vec(&(7, "x")).unwrap().len() + 16);
    assert_eq!(decrypt_payload(&b, &a_public, &nonce, &sealed), Ok(plaintext.clone()));
    assert_eq!(sealed, encrypt_payload_with_nonce(&a, &b_public, &plaintext, &nonce).unwrap());

    let other_nonce = [8u8; 24];
    assert_eq!(decrypt_payload(&b, &a_public, &other_nonce, &sealed), Err(GxtError::Encryption));
    assert_eq!(decrypt_payload(&a, &a_public, &nonce, &sealed), Err(GxtError::Encryption));
    let mut touched = sealed.clone();
    touched[0] ^= 1;
    assert_eq!(decrypt_payload(&b, &a_public, &nonce, &touched), Err(GxtError::Encryption));
    assert_eq!(decrypt_payload(&b, &a_public, &nonce, &sealed[..15]), Err(GxtError::Encryption));
    assert_eq!(
        encrypt_payload_with_nonce(&a, &b_public, &Payload::Integer(1 << 70), &nonce),
        Err(GxtError::Cbor)
    );
}

#[test]
fn the_sealed_body_is_xchacha20poly1305_of_the_encoded_plaintext() {
    let a = bytes32(SECRET);
    let b = bytes32(PUBLIC);
    let (a_secret, _) = derive_enc_from_signing(&a);
    let (_, b_public) = derive_enc_from_signing(&b);
    let key = enc_derive_key_from_pairs(&a_secret, &b_public);
    let nonce = [3u8; 24];
    let sealed =
        encrypt_payload_with_nonce(&a, &b_public, &Payload::Text("hi".into()), &nonce).unwrap();
    let cipher = chacha20poly1305::XChaCha20Poly1305::new(chacha20poly1305::Key::from_slice(&key));
    let plain = cipher.decrypt(chacha20poly1305::XNonce::from_slice(&nonce), &sealed[..]).unwrap();
    assert_eq!(plain, vec![0x62, b'h', b'i']);
}

#[test]
fn a_sealed_body_that_holds_no_value_is_cbor() {
    let a = bytes32(SECRET);
    let b = bytes32(PUBLIC);
    let (a_secret, a_public) = derive_enc_from_signing(&a);
    let (_, b_public) = derive_enc_from_signing(&b);
    let key = enc_derive_key_from_pairs(&a_secret, &b_public);
    let nonce = [3u8; 24];
    let cipher = chacha20poly1305::XChaCha20Poly1305::new(chacha20poly1305::Key::from_slice(&key));
    let sealed = cipher.encrypt(chacha20poly1305::XNonce::from_slice(&nonce), &[0xffu8][..]).unwrap();
    assert_eq!(decrypt_payload(&b, &a_public, &nonce, &sealed), Err(GxtError::Cbor));
}

#[test]
fn fresh_nonces_differ() {
    let a = bytes32(SECRET);
    let (_, b_public) = derive_enc_from_signing(&bytes32(PUBLIC));
    let (first_nonce, first) = encrypt_payload(&a, &b_public, &Payload::Null).unwrap();
    let (second_nonce, second) = encrypt_payload(&a, &b_public, &Payload::Null).unwrap();
    assert_ne!(first_nonce, second_nonce);
    assert_ne!(first, second);
    let (_, a_public) = derive_enc_from_signing(&a);
    let b = bytes32(PUBLIC);
    assert_eq!(decrypt_payload(&b, &a_public, &first_nonce, &first), Ok(Payload::Null));
}

#[test]
fn framing_is_the_prefix_and_base58() {
    let data = [0x04, 0x30, 0x5e, 0x2b, 0x24, 0x73, 0xf0, 0x58];
    assert_eq!(frame(&data), "gxt:he11owor1d");
    assert_eq!(frame(&[]), "gxt:");
    assert_eq!(frame(&[0, 0, 1]), "gxt:112");
    assert_eq!(unframe("gxt:he11owor1d"), Ok(data.to_vec()));
    assert_eq!(unframe("gxt:"), Ok(vec![]));
    assert_eq!(unframe("he11owor1d"), Err(GxtError::BadPrefix));
    assert_eq!(unframe("gxt:he11owor1d!"), Err(GxtError::Decode));
    assert_eq!(unframe(" gxt:he11owor1d"), Err(GxtError::BadPrefix));
}

#[test]
fn the_prefix_is_split_off() {
    assert_eq!(strip_prefix("gxt:abc"), Some("abc"));
    assert_eq!(strip_prefix("gxt:"), Some(""));
    assert_eq!(strip_prefix("gxt:\u{e9}t\u{e9}"), Some("\u{e9}t\u{e9}"));
    assert_eq!(strip_prefix("gxt"), None);
    assert_eq!(strip_prefix("gxT:abc"), None);
    assert_eq!(strip_prefix("\u{e9}xt:abc"), None);
    assert_eq!(strip_prefix(""), None);
}

#[test]
fn a_token_body_is_a_zstd_frame_of_the_record() {
    let vk = [0u8; 32];
    let ek = [1u8; 32];
    let id = [2u8; 32];
    let signature = [3u8; 64];
    let payload = Payload::Integer(5);
    let token =
        encode_message(&vk, &ek, PayloadKind::Id, &payload, None, &id, &signature).unwrap();
    let raw = cbor_array(&vk, &ek, PayloadKind::Id, &payload, None, Some((&id, &signature)))
        .unwrap();
    let compressed = bs58::decode(&token[4..]).into_vec().unwrap();
    assert_eq!(zstd::decode_all(&compressed[..]).unwrap(), raw);
    assert_eq!(compressed, zstd::encode_all(&raw[..], 3).unwrap());
    assert_eq!(decode_message(&token), Ok(raw));
}

#[test]
fn decoding_undoes_each_layer_in_turn() {
    let raw = b"any bytes at all".to_vec();
    let token = frame(&zstd::encode_all(&raw[..], 3).unwrap());
    assert_eq!(decode_message(&token), Ok(raw));
    assert_eq!(decode_message(&frame(b"plain")), Err(GxtError::Compression));
    assert_eq!(decode_message("gxt:O"), Err(GxtError::Decode));
    assert_eq!(decode_message("abc"), Err(GxtError::BadPrefix));
    let big = frame(&zstd::encode_all(&vec![1u8; 65537][..], 3).unwrap());
    assert_eq!(decode_message(&big), Err(GxtError::TooLarge));
    let fits = frame(&zstd::encode_all(&vec![1u8; 65536][..], 3).unwrap());
    assert_eq!(decode_message(&fits), Ok(vec![1u8; 65536]));
    // The token itself is not trimmed here.
    assert_eq!(decode_message(&format!(" {}", fits)), Err(GxtError::BadPrefix));
}

#[test]
fn the_record_is_an_array_in_fixed_order() {
    let vk = [0u8; 32];
    let ek = [0x1fu8; 32];
    let mut expected = vec![0x86, 0x02, 0x78, 0x40];
    expected.extend_from_slice("00".repeat(32).as_bytes());
    expected.extend_from_slice(&[0x78, 0x40]);
    expected.extend_from_slice("1f".repeat(32).as_bytes());
    expected.extend_from_slice(&[0x63, b'm', b's', b'g', 0x05, 0x60]);
    assert_eq!(
        cbor_array(&vk, &ek, PayloadKind::Msg, &Payload::Integer(5), None, None),
        Ok(expected)
    );

    let parent = [0xabu8; 32];
    let id = [0xcdu8; 32];
    let signature = [0xefu8; 64];
    let mut expected = vec![0x88, 0x02, 0x78, 0x40];
    expected.extend_from_slice("00".repeat(32).as_bytes());
    expected.extend_from_slice(&[0x78, 0x40]);
    expected.extend_from_slice("1f".repeat(32).as_bytes());
    expected.extend_from_slice(&[0x62, b'i', b'd', 0xf6, 0x78, 0x40]);
    expected.extend_from_slice("ab".repeat(32).as_bytes());
    expected.extend_from_slice(&[0x78, 0x40]);
    expected.extend_from_slice("cd".repeat(32).as_bytes());
    expected.extend_from_slice(&[0x78, 0x80]);
    expected.extend_from_slice("ef".repeat(64).as_bytes());
    assert_eq!(
        cbor_array(
            &vk,
            &ek,
            PayloadKind::Id,
            &Payload::Null,
            Some(parent),
            Some((&id, &signature))
        ),
        Ok(expected)
    );
    assert_eq!(
        cbor_array(&vk, &ek, PayloadKind::Id, &Payload::Integer(i128::MAX), None, None),
        Err(GxtError::Cbor)
    );
}

#[test]
fn bytes_and_text_are_compared_by_content() {
    assert!(same_bytes(&[1, 2, 3], &[1, 2, 3]));
    assert!(same_bytes(&[], &[]));
    assert!(!same_bytes(&[1, 2, 3], &[1, 2, 4]));
    assert!(!same_bytes(&[1, 2, 3], &[1, 2]));
    assert!(same_text("id", "id"));
    assert!(!same_text("id", "iD"));
    assert!(!same_text("id", "id "));
}
