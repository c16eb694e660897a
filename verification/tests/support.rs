use gxt::cli::{value_or_stdin, write_out_bytes, write_out_string, MsgInput, Sink, Source};
use gxt::handler::{register_protocol_handler, Registration, RegistryValue};
use gxt::payload::lookup;
use gxt::reader::{hex_item, kind_item, parent_item, read_fields};
use gxt::{GxtError, Payload, PayloadKind};

fn text(s: &str) -> Payload {
    Payload::Text(s.to_string())
}

#[test]
fn kinds_have_their_names() {
    assert_eq!(PayloadKind::Id.to_string(), "id");
    assert_eq!(PayloadKind::Msg.to_string(), "msg");
    assert_eq!(PayloadKind::from_str("id"), Ok(PayloadKind::Id));
    assert_eq!(PayloadKind::from_str("msg"), Ok(PayloadKind::Msg));
    assert_eq!(PayloadKind::from_str("  msg\n"), Ok(PayloadKind::Msg));
    assert_eq!(PayloadKind::from_str("\u{2003}id\u{3000}"), Ok(PayloadKind::Id));
    assert_eq!(PayloadKind::from_str("Id"), Err(GxtError::UnknownPayloadKind));
    assert_eq!(PayloadKind::from_str("i d"), Err(GxtError::UnknownPayloadKind));
    assert_eq!(PayloadKind::from_str(""), Err(GxtError::UnknownPayloadKind));
    assert_eq!(PayloadKind::from_str("\u{200b}id"), Err(GxtError::UnknownPayloadKind));
}

#[test]
fn a_copy_of_a_payload_equals_it() {
    let payload = Payload::Dict(vec![
        (text("a"), Payload::Array(vec![Payload::Null, Payload::Bool(true), Payload::Float(7)])),
        (Payload::Bytes(vec![1, 2]), Payload::Dict(vec![(Payload::Integer(-3), text("x"))])),
    ]);
    assert_eq!(payload.clone(), payload);
    assert_eq!(payload.duplicate(), payload);
}

#[test]
fn encodable_means_every_integer_fits() {
    let most = (1i128 << 64) - 1;
    let least = -(1i128 << 64);
    assert!(Payload::Integer(most).is_encodable());
    assert!(Payload::Integer(least).is_encodable());
    assert!(!Payload::Integer(most + 1).is_encodable());
    assert!(!Payload::Integer(least - 1).is_encodable());
    assert!(Payload::Array(vec![Payload::Integer(1), text("x")]).is_encodable());
    assert!(!Payload::Array(vec![Payload::Integer(1), Payload::Integer(i128::MAX)]).is_encodable());
    assert!(!Payload::Dict(vec![(Payload::Integer(i128::MIN), Payload::Null)]).is_encodable());
    assert!(!Payload::Dict(vec![(Payload::Null, Payload::Integer(i128::MIN))]).is_encodable());
    assert!(Payload::Dict(vec![(Payload::Null, Payload::Float(u64::MAX))]).is_encodable());
}

#[test]
fn lookup_finds_the_last_entry_with_a_text_key() {
    let entries = vec![
        (Payload::Integer(1), text("number")),
        (Payload::Bytes(b"to".to_vec()), text("bytes")),
        (text("to"), text("first")),
        (text("to"), text("second")),
        (text("enc"), Payload::Null),
    ];
    assert_eq!(lookup(&entries, "to"), Some(&text("second")));
    assert_eq!(lookup(&entries, "enc"), Some(&Payload::Null));
    assert_eq!(lookup(&entries, "t"), None);
    assert_eq!(lookup(&entries, "1"), None);
    assert_eq!(lookup(&vec![], "to"), None);
}

#[test]
fn fields_are_read_by_their_kind() {
    assert_eq!(hex_item::<2>(&text("0aff")), Ok([0x0a, 0xff]));
    assert_eq!(hex_item::<2>(&Payload::Bytes(vec![0x0a, 0xff])), Err(GxtError::Invalid));
    assert_eq!(hex_item::<2>(&text("0a")), Err(GxtError::InvalidHexSize { expected: 2, got: 1 }));
    assert_eq!(kind_item(&text(" id ")), Ok(PayloadKind::Id));
    assert_eq!(kind_item(&Payload::Integer(0)), Err(GxtError::Invalid));
    assert_eq!(kind_item(&text("x")), Err(GxtError::UnknownPayloadKind));
    assert_eq!(parent_item(&text("")), Ok(None));
    assert_eq!(parent_item(&text(&"01".repeat(32))), Ok(Some([1u8; 32])));
    assert_eq!(parent_item(&text("01")), Err(GxtError::InvalidHexSize { expected: 32, got: 1 }));
    assert_eq!(parent_item(&Payload::Null), Err(GxtError::Invalid));
}

#[test]
fn the_fields_of_a_record_are_read_in_order() {
    let items = vec![
        Payload::Integer(2),
        text(&"01".repeat(32)),
        text(&"02".repeat(32)),
        text("msg"),
        Payload::Bool(true),
        text(&"03".repeat(32)),
        text(&"04".repeat(32)),
        text(&"05".repeat(64)),
    ];
    let record = match read_fields(Payload::Array(items.clone())) {
        Ok(record) => record,
        Err(e) => panic!("not read: {:?}", e),
    };
    assert_eq!(record.verification_key, [1u8; 32]);
    assert_eq!(record.encryption_key, [2u8; 32]);
    assert_eq!(record.kind, PayloadKind::Msg);
    assert_eq!(record.payload, Payload::Bool(true));
    assert_eq!(record.parent, Some([3u8; 32]));
    assert_eq!(record.id, [4u8; 32]);
    assert_eq!(record.signature, [5u8; 64]);
    assert!(matches!(read_fields(Payload::Dict(vec![])), Err(GxtError::Invalid)));
    assert!(matches!(read_fields(Payload::Array(items[..6].to_vec())), Err(GxtError::Invalid)));
}

#[test]
fn a_dash_stands_for_standard_input() {
    assert_eq!(value_or_stdin("-"), Source::Stdin);
    assert_eq!(value_or_stdin("--"), Source::Given("--".to_string()));
    assert_eq!(value_or_stdin(""), Source::Given(String::new()));
    assert_eq!(value_or_stdin("gxt:abc"), Source::Given("gxt:abc".to_string()));
}

#[test]
fn a_message_comes_from_exactly_one_place() {
    let token = MsgInput { msg: Some("gxt:abc".into()), file: None };
    assert_eq!(token.source(), Some(Source::Given("gxt:abc".into())));
    let dash = MsgInput { msg: Some("-".into()), file: None };
    assert_eq!(dash.source(), Some(Source::Stdin));
    let file = MsgInput { msg: None, file: Some("card.gxt".into()) };
    assert_eq!(file.source(), Some(Source::File("card.gxt".into())));
    let both = MsgInput { msg: Some("gxt:abc".into()), file: Some("card.gxt".into()) };
    assert_eq!(both.source(), None);
    let neither = MsgInput { msg: None, file: None };
    assert_eq!(neither.source(), None);
}

#[test]
fn output_goes_to_the_file_or_to_standard_output() {
    let to_file = write_out_string("gr\u{fc}n", Some("out.txt"));
    assert_eq!(to_file.sink, Sink::File("out.txt".into()));
    assert_eq!(to_file.bytes, vec![b'g', b'r', 0xc3, 0xbc, b'n']);
    let to_stdout = write_out_string("abc", None);
    assert_eq!(to_stdout.sink, Sink::Stdout);
    assert_eq!(to_stdout.bytes, b"abc".to_vec());
    let bytes = write_out_bytes(&[0, 255], Some("x"));
    assert_eq!(bytes.sink, Sink::File("x".into()));
    assert_eq!(bytes.bytes, vec![0, 255]);
}

#[test]
fn registering_takes_two_values_or_an_elevated_run() {
    assert_eq!(register_protocol_handler(false, "C:\\gxt.exe"), Registration::Elevate);
    assert_eq!(
        register_protocol_handler(true, "C:\\Program Files\\gxt.exe"),
        Registration::Write(vec![
            RegistryValue { key: "gxt".into(), name: "URL Protocol".into(), data: String::new() },
            RegistryValue {
                key: "gxt\\shell\\open\\command".into(),
                name: String::new(),
                data: "C:\\Program Files\\gxt.exe \"%1\"".into(),
            },
        ])
    );
}

#[test]
fn the_canonical_form_holds_each_key_once_in_the_order_of_the_encoding() {
    let given = Payload::Dict(vec![
        (text("amount"), Payload::Integer(5)),
        (text("type"), text("sword")),
        (text("b"), Payload::Integer(2)),
        (text("a"), Payload::Array(vec![Payload::Dict(vec![
            (text("y"), Payload::Null),
            (text("x"), Payload::Null),
        ])])),
        (text("b"), Payload::Integer(3)),
    ]);
    let form = Payload::Dict(vec![
        (text("a"), Payload::Array(vec![Payload::Dict(vec![
            (text("x"), Payload::Null),
            (text("y"), Payload::Null),
        ])])),
        (text("b"), Payload::Integer(3)),
        (text("type"), text("sword")),
        (text("amount"), Payload::Integer(5)),
    ]);
    assert_eq!(given.canonical(), Some(form.clone()));
    assert_eq!(form.canonical(), Some(form.clone()));
    assert_eq!(lookup_in(&given, "b"), lookup_in(&form, "b"));
    assert_eq!(Payload::Integer(i128::MAX).canonical(), None);
    let scalar = Payload::Float(0x7ff8_0000_0000_0001);
    assert_eq!(scalar.canonical(), Some(scalar.clone()));
}

fn lookup_in(payload: &Payload, name: &str) -> Option<Payload> {
    match payload {
        Payload::Dict(entries) => lookup(entries, name).cloned(),
        _ => None,
    }
}

#[test]
fn what_comes_back_from_a_token_is_the_canonical_form() {
    let key = gxt::make_key();
    let given = Payload::Dict(vec![
        (text("zz"), Payload::Integer(1)),
        (text("a"), Payload::Integer(2)),
        (text("zz"), Payload::Integer(3)),
    ]);
    let token = gxt::make_id_card(&key, given.clone()).unwrap();
    let back = gxt::verify_message(&token).unwrap().payload;
    assert_eq!(Some(back.clone()), given.canonical());
    assert_ne!(back, given);
    assert_eq!(back.canonical(), Some(back));
}

#[test]
fn a_fresh_key_is_lower_case_hex_of_thirty_two_bytes() {
    let key = gxt::make_key();
    let bytes = hex::decode(&key).unwrap();
    assert_eq!(bytes.len(), 32);
    assert_eq!(hex::encode(bytes), key);
}

#[test]
fn failures_have_their_messages() {
    assert_eq!(GxtError::BadPrefix.to_string(), "bad prefix");
    assert_eq!(GxtError::Decode.to_string(), "decode error");
    assert_eq!(GxtError::Compression.to_string(), "decompress error");
    assert_eq!(GxtError::Encryption.to_string(), "encrypt error");
    assert_eq!(GxtError::Cbor.to_string(), "cbor error");
    assert_eq!(GxtError::Json.to_string(), "json error");
    assert_eq!(GxtError::TooLarge.to_string(), "too large");
    assert_eq!(GxtError::BadSig.to_string(), "invalid signature");
    assert_eq!(GxtError::BadId.to_string(), "invalid id");
    assert_eq!(GxtError::BadHex.to_string(), "bad hex");
    assert_eq!(
        GxtError::InvalidHexSize { expected: 32, got: 1205 }.to_string(),
        "invalid hex size. expected 32 got 1205"
    );
    assert_eq!(
        GxtError::InvalidHexSize { expected: 0, got: usize::MAX }.to_string(),
        format!("invalid hex size. expected 0 got {}", usize::MAX)
    );
    assert_eq!(GxtError::AccessDenied.to_string(), "access denied");
    assert_eq!(GxtError::Invalid.to_string(), "invalid record");
    assert_eq!(GxtError::UnknownPayloadKind.to_string(), "unknown payload kind");
    assert_eq!(gxt::text::decimal(0), "0");
    assert_eq!(gxt::text::decimal(1234567890), "1234567890");
}
