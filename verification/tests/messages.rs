use gxt::keys::{derive_enc_from_signing, parse_key};
use gxt::message::{
    build_sealed_payload, encrypt_message_with_nonce, encrypt_payload_with_nonce, parse_parent,
    read_sealed_parts,
};
use gxt::signer::make;
use gxt::{
    decrypt_message, encrypt_message, make_id_card, verify_message, GxtError, Payload, PayloadKind,
};

const ALICE: &str = "9d61b19deffd5a60ba844af492ec2cc44449c5697b326919703bac031cae7f60";
const BOB: &str = "4ccd089b28ff96da9db6c346ec114e0f5b8a319f35aba624da8cf6ed4fb8a6fb";
const CAROL: &str = "c5aa8df43f9f837bedb7442f31dcb7b166d38535076f094b85ce3a2e0b4458f7";

fn text(s: &str) -> Payload {
    Payload::Text(s.to_string())
}

fn card(key: &str) -> String {
    make_id_card(key, Payload::Dict(vec![(text("name"), text("Bob"))])).unwrap()
}

fn secret(key: &str) -> [u8; 32] {
    parse_key(key).unwrap()
}

#[test]
fn a_message_opens_for_its_recipient_only() {
    let plaintext = Payload::Array(vec![text("hello"), Payload::Integer(42)]);
    let token = encrypt_message(ALICE, &card(BOB), &plaintext, None).unwrap();
    let opened = decrypt_message(&token, BOB).unwrap();
    assert_eq!(opened.payload, plaintext);
    assert_eq!(opened.kind, PayloadKind::Msg);
    assert_eq!(opened.parent, None);
    assert_eq!(decrypt_message(&token, CAROL), Err(GxtError::AccessDenied));
    // The sender is not the recipient either.
    assert_eq!(decrypt_message(&token, ALICE), Err(GxtError::AccessDenied));
}

#[test]
fn the_opened_envelope_is_the_verified_one_with_the_plaintext() {
    let plaintext = text("plain");
    let token = encrypt_message(ALICE, &card(BOB), &plaintext, None).unwrap();
    let verified = verify_message(&token).unwrap();
    let opened = decrypt_message(&token, BOB).unwrap();
    assert_eq!(opened.version, verified.version);
    assert_eq!(opened.verification_key, verified.verification_key);
    assert_eq!(opened.encryption_key, verified.encryption_key);
    assert_eq!(opened.id, verified.id);
    assert_eq!(opened.signature, verified.signature);
    assert_eq!(opened.kind, verified.kind);
    assert_ne!(opened.payload, verified.payload);
    let (_, alice_public) = derive_enc_from_signing(&secret(ALICE));
    assert_eq!(opened.encryption_key, hex::encode(alice_public));
}

#[test]
fn a_message_names_its_recipient_and_carries_the_sealed_body() {
    let nonce = [5u8; 24];
    let plaintext = text("plain");
    let token = encrypt_message_with_nonce(ALICE, &card(BOB), &plaintext, None, &nonce).unwrap();
    let (_, bob_public) = derive_enc_from_signing(&secret(BOB));
    let sealed = encrypt_payload_with_nonce(&secret(ALICE), &bob_public, &plaintext, &nonce).unwrap();
    let expected = Payload::Dict(vec![
        (text("to"), text(&hex::encode(bob_public))),
        (
            text("enc"),
            Payload::Dict(vec![
                (text("ct"), text(&hex::encode(&sealed))),
                (text("alg"), text("xchacha20poly1305")),
                (text("n24"), text(&"05".repeat(24))),
            ]),
        ),
    ]);
    assert_eq!(verify_message(&token).unwrap().payload, expected);
    assert_eq!(build_sealed_payload(&bob_public, &nonce, &sealed), expected);
}

#[test]
fn the_same_nonce_gives_the_same_message_and_a_fresh_one_another() {
    let nonce = [5u8; 24];
    let plaintext = text("plain");
    let first = encrypt_message_with_nonce(ALICE, &card(BOB), &plaintext, None, &nonce).unwrap();
    let second = encrypt_message_with_nonce(ALICE, &card(BOB), &plaintext, None, &nonce).unwrap();
    assert_eq!(first, second);
    let third = encrypt_message(ALICE, &card(BOB), &plaintext, None).unwrap();
    let fourth = encrypt_message(ALICE, &card(BOB), &plaintext, None).unwrap();
    assert_ne!(third, fourth);
}

#[test]
fn a_parent_is_carried_and_signed() {
    let parent = "ab".repeat(32);
    let token = encrypt_message(ALICE, &card(BOB), &text("re"), Some(parent.clone())).unwrap();
    assert_eq!(verify_message(&token).unwrap().parent, Some(parent.clone()));
    assert_eq!(decrypt_message(&token, BOB).unwrap().parent, Some(parent));
    let upper = encrypt_message(ALICE, &card(BOB), &text("re"), Some("AB".repeat(32))).unwrap();
    assert_eq!(verify_message(&upper).unwrap().parent, Some("ab".repeat(32)));
}

#[test]
fn a_parent_that_is_no_reference_is_refused() {
    let nonce = [0u8; 24];
    for (parent, error) in [
        ("xyz", GxtError::BadHex),
        ("abc", GxtError::BadHex),
        ("", GxtError::InvalidHexSize { expected: 32, got: 0 }),
        ("abcd", GxtError::InvalidHexSize { expected: 32, got: 2 }),
    ] {
        assert_eq!(
            encrypt_message_with_nonce(ALICE, &card(BOB), &text("x"), Some(parent.into()), &nonce),
            Err(error)
        );
        assert_eq!(parse_parent(&Some(parent.to_string())), Err(error));
    }
    assert_eq!(parse_parent(&None), Ok(None));
    assert_eq!(parse_parent(&Some("11".repeat(32))), Ok(Some([0x11; 32])));
}

#[test]
fn the_id_card_is_verified_before_anything_else() {
    let plaintext = text("x");
    assert_eq!(encrypt_message("no key", "no card", &plaintext, None), Err(GxtError::BadPrefix));
    assert_eq!(encrypt_message("no key", "gxt:0", &plaintext, None), Err(GxtError::Decode));
    assert_eq!(encrypt_message("no key", &card(BOB), &plaintext, None), Err(GxtError::BadHex));
    assert_eq!(
        encrypt_message("00", &card(BOB), &plaintext, None),
        Err(GxtError::InvalidHexSize { expected: 32, got: 1 })
    );
    assert_eq!(
        encrypt_message(ALICE, &card(BOB), &Payload::Integer(1 << 100), None),
        Err(GxtError::Cbor)
    );
    // The key comes before the payload, the payload before the parent.
    assert_eq!(
        encrypt_message("zz", &card(BOB), &Payload::Integer(1 << 100), Some("zz".into())),
        Err(GxtError::BadHex)
    );
    assert_eq!(
        encrypt_message(ALICE, &card(BOB), &Payload::Integer(1 << 100), Some("zz".into())),
        Err(GxtError::Cbor)
    );
}

#[test]
fn a_message_can_be_sealed_for_the_owner_of_any_verified_token() {
    // The recipient's key is taken from the token, whatever its kind.
    let first = encrypt_message(ALICE, &card(BOB), &text("one"), None).unwrap();
    let answer = encrypt_message(BOB, &first, &text("two"), None).unwrap();
    assert_eq!(decrypt_message(&answer, ALICE).unwrap().payload, text("two"));
}

#[test]
fn white_space_around_the_inputs_is_ignored() {
    let padded_card = format!("\n{}\n", card(BOB));
    let padded_key = format!("{}\r\n", ALICE);
    let token = encrypt_message(&padded_key, &padded_card, &text("x"), None).unwrap();
    let padded_token = format!("  {}  ", token);
    assert_eq!(decrypt_message(&padded_token, &format!("\t{}\n", BOB)).unwrap().payload, text("x"));
}

#[test]
fn an_id_card_cannot_be_opened() {
    assert_eq!(decrypt_message(&card(BOB), BOB), Err(GxtError::Invalid));
    let scalar = make_id_card(BOB, Payload::Integer(1)).unwrap();
    assert_eq!(decrypt_message(&scalar, BOB), Err(GxtError::Invalid));
}

#[test]
fn the_token_is_verified_before_the_key_is_read() {
    assert_eq!(decrypt_message("nothing", "no key"), Err(GxtError::BadPrefix));
    assert_eq!(decrypt_message(&card(BOB), "no key"), Err(GxtError::BadHex));
    assert_eq!(
        decrypt_message(&card(BOB), "00"),
        Err(GxtError::InvalidHexSize { expected: 32, got: 1 })
    );
}

fn signed(payload: Payload) -> String {
    make(&secret(ALICE), PayloadKind::Msg, payload, None).unwrap()
}

fn parts(to: Payload, enc: Payload) -> Payload {
    Payload::Dict(vec![(text("to"), to), (text("enc"), enc)])
}

fn enc(n24: Payload, ct: Payload) -> Payload {
    Payload::Dict(vec![
        (text("alg"), text("xchacha20poly1305")),
        (text("n24"), n24),
        (text("ct"), ct),
    ])
}

fn bob_public_hex() -> String {
    hex::encode(derive_enc_from_signing(&secret(BOB)).1)
}

#[test]
fn a_payload_without_the_parts_of_a_message_is_invalid() {
    let nonce = text(&"00".repeat(24));
    let body = text("00ff");
    let to = text(&bob_public_hex());
    for payload in [
        Payload::Dict(vec![]),
        Payload::Dict(vec![(text("enc"), enc(nonce.clone(), body.clone()))]),
        Payload::Dict(vec![(text("to"), to.clone())]),
        parts(Payload::Integer(1), enc(nonce.clone(), body.clone())),
        parts(to.clone(), Payload::Null),
        parts(to.clone(), Payload::Dict(vec![(text("ct"), body.clone())])),
        parts(to.clone(), Payload::Dict(vec![(text("n24"), nonce.clone())])),
        parts(to.clone(), enc(Payload::Bytes(vec![0; 24]), body.clone())),
        parts(to.clone(), enc(nonce.clone(), Payload::Bytes(vec![0; 24]))),
    ] {
        assert_eq!(decrypt_message(&signed(payload), BOB), Err(GxtError::Invalid));
    }
}

#[test]
fn parts_that_are_no_hex_are_refused_in_their_order() {
    let nonce = text(&"00".repeat(24));
    let body = text("00ff");
    let to = text(&bob_public_hex());
    let cases = [
        (parts(text("zz"), enc(text("zz"), text("zz"))), GxtError::BadHex),
        (
            parts(text("00"), enc(nonce.clone(), body.clone())),
            GxtError::InvalidHexSize { expected: 32, got: 1 },
        ),
        (parts(to.clone(), enc(text("zz"), text("zz"))), GxtError::BadHex),
        (
            parts(to.clone(), enc(text("00"), text("zz"))),
            GxtError::InvalidHexSize { expected: 24, got: 1 },
        ),
        (parts(to.clone(), enc(nonce.clone(), text("zz"))), GxtError::BadHex),
        (parts(to.clone(), enc(nonce.clone(), text("0"))), GxtError::BadHex),
    ];
    for (payload, error) in cases {
        assert_eq!(decrypt_message(&signed(payload), BOB), Err(error));
    }
}

#[test]
fn the_recipient_is_checked_before_the_body_is_opened() {
    let nonce = text(&"00".repeat(24));
    let garbage = text("00ff");
    let for_bob = signed(parts(text(&bob_public_hex()), enc(nonce.clone(), garbage.clone())));
    assert_eq!(decrypt_message(&for_bob, BOB), Err(GxtError::Encryption));
    assert_eq!(decrypt_message(&for_bob, CAROL), Err(GxtError::AccessDenied));
    // Hex of either case names the same recipient.
    let upper = signed(parts(text(&bob_public_hex().to_uppercase()), enc(nonce, garbage)));
    assert_eq!(decrypt_message(&upper, BOB), Err(GxtError::Encryption));
}

#[test]
fn a_touched_body_does_not_open() {
    let nonce = [1u8; 24];
    let (_, bob_public) = derive_enc_from_signing(&secret(BOB));
    let mut sealed =
        encrypt_payload_with_nonce(&secret(ALICE), &bob_public, &text("x"), &nonce).unwrap();
    let good = signed(build_sealed_payload(&bob_public, &nonce, &sealed));
    assert_eq!(decrypt_message(&good, BOB).unwrap().payload, text("x"));
    sealed[3] ^= 0x10;
    let bad = signed(build_sealed_payload(&bob_public, &nonce, &sealed));
    assert_eq!(decrypt_message(&bad, BOB), Err(GxtError::Encryption));
    let other_nonce = signed(build_sealed_payload(&bob_public, &[2u8; 24], &sealed));
    assert_eq!(decrypt_message(&other_nonce, BOB), Err(GxtError::Encryption));
}

#[test]
fn the_last_entry_under_a_key_counts() {
    let (_, bob_public) = derive_enc_from_signing(&secret(BOB));
    let payload = Payload::Dict(vec![
        (text("other"), Payload::Null),
        (text("to"), text(&hex::encode(bob_public))),
        (
            text("enc"),
            Payload::Dict(vec![
                (text("n24"), text(&"07".repeat(24))),
                (text("ct"), text("0a0b")),
                (text("ct"), text("0c")),
            ]),
        ),
    ]);
    let parts = read_sealed_parts(&payload).unwrap();
    assert_eq!(parts.to, bob_public);
    assert_eq!(parts.nonce, [7u8; 24]);
    assert_eq!(parts.ciphertext, vec![0x0c]);
    assert!(matches!(read_sealed_parts(&Payload::Null), Err(GxtError::Invalid)));
}
