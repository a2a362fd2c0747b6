use webtoken::opaque::{message_bytes, message_hex};
use webtoken::opaque::{
    deserialize_error, step_error, ClientLoginFinishResult, ClientRegisterFinishResult,
    ClientRegisterStartResult, OpaqueItem, OpaqueStep, ServerLoginStartResult,
};
use webtoken::text::{join_str, str_eq};

#[test]
fn hex_encode_lowercase() {
    assert_eq!(message_hex(&[0x00, 0xab, 0x1f, 0xff]), "00ab1fff");
    assert_eq!(message_hex(&[]), "");
}

#[test]
fn hex_decode_values_and_errors() {
    assert_eq!(message_bytes("00aB1F"), Ok(vec![0x00, 0xab, 0x1f]));
    assert_eq!(message_bytes("abc"), Err("Odd number of digits".to_string()));
    assert_eq!(message_bytes("01zz"), Err("Invalid character 'z' at position 2".to_string()));
    assert_eq!(message_bytes(""), Ok(vec![]));
}

#[test]
fn hex_roundtrip() {
    let bytes: Vec<u8> = (0..=255u8).collect();
    assert_eq!(message_bytes(&message_hex(&bytes)), Ok(bytes));
}

#[test]
fn text_helpers() {
    assert!(str_eq("abc", "abc"));
    assert!(!str_eq("abc", "abd"));
    assert!(!str_eq("abc", "ab"));
    assert_eq!(join_str("a: ", "b"), "a: b");
}

#[test]
fn opaque_results_are_hex() {
    let r = ClientRegisterStartResult::from_bytes(&[1, 2], &[0xff]);
    assert_eq!(r.request, "0102");
    assert_eq!(r.state, "ff");
    let r = ClientRegisterFinishResult::from_bytes(&[0xa0], &[]);
    assert_eq!(r.upload, "a0");
    assert_eq!(r.export_key, "");
    let r = ServerLoginStartResult::from_bytes(&[0x10], &[0x20]);
    assert_eq!((r.response.as_str(), r.state.as_str()), ("10", "20"));
    let r = ClientLoginFinishResult::from_bytes(&[1], &[2], &[3], &[4]);
    assert_eq!(r.finalization, "01");
    assert_eq!(r.session_key, "02");
    assert_eq!(r.export_key, "03");
    assert_eq!(r.server_public_key, "04");
}

#[test]
fn opaque_error_texts() {
    assert_eq!(
        deserialize_error(OpaqueItem::ServerSetup, "InvalidLengthError"),
        "Server setup deserialize error: InvalidLengthError"
    );
    assert_eq!(
        deserialize_error(OpaqueItem::PasswordFile, "x"),
        "Password file deserialize error: x"
    );
    assert_eq!(step_error(OpaqueStep::ServerLoginFinish, "y"), "Server login finish error: y");
    assert_eq!(step_error(OpaqueStep::RegistrationStart, "z"), "Registration start error: z");
}
