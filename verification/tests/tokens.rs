use webtoken::claims::ClaimValue;
use webtoken::paseto::{
    base64url_decode, decode_public_payload, derive_symmetric_key, internal_create_local,
    internal_create_public, internal_generate_keys, internal_verify_local,
    internal_verify_public, parse_claims, parse_token,
};

fn b64url(bytes: &[u8]) -> String {
    base64::Engine::encode(&base64::engine::general_purpose::URL_SAFE_NO_PAD, bytes)
}

fn payload(entries: &[(&str, serde_json::Value)]) -> Vec<(String, ClaimValue)> {
    entries
        .iter()
        .map(|(k, v)| (k.to_string(), ClaimValue::from_json(v.clone())))
        .collect()
}

#[test]
fn parse_token_splits_local_token() {
    let p = parse_token("v4.local.abc").unwrap();
    assert_eq!(p.version, "v4");
    assert_eq!(p.purpose, "local");
    assert_eq!(p.payload, "abc");
    assert_eq!(p.footer, "");
}

#[test]
fn parse_token_keeps_dots_in_footer() {
    let p = parse_token("v4.public.pay.foot.er").unwrap();
    assert_eq!(p.purpose, "public");
    assert_eq!(p.payload, "pay");
    assert_eq!(p.footer, "foot.er");
}

#[test]
fn parse_token_empty_fourth_part() {
    let p = parse_token("v4.local.x.").unwrap();
    assert_eq!(p.payload, "x");
    assert_eq!(p.footer, "");
}

#[test]
fn parse_token_too_few_parts() {
    let e = parse_token("v4.local").err().unwrap();
    assert_eq!(e, "Invalid PASETO token: expected at least 3 dot-separated parts");
    let e = parse_token("nodots").err().unwrap();
    assert_eq!(e, "Invalid PASETO token: expected at least 3 dot-separated parts");
}

#[test]
fn parse_token_bad_version() {
    let e = parse_token("v3.local.abc").err().unwrap();
    assert_eq!(e, "Unsupported PASETO version: v3");
}

#[test]
fn parse_token_bad_purpose() {
    let e = parse_token("v4.secret.abc").err().unwrap();
    assert_eq!(e, "Unsupported PASETO purpose: secret");
}

#[test]
fn base64url_decode_pads_and_maps_alphabet() {
    assert_eq!(base64url_decode("aGVsbG8").unwrap(), b"hello".to_vec());
    assert_eq!(base64url_decode("aGVsbA").unwrap(), b"hell".to_vec());
    assert_eq!(base64url_decode("-_8").unwrap(), vec![0xfb, 0xff]);
    assert_eq!(base64url_decode("").unwrap(), Vec::<u8>::new());
}

#[test]
fn base64url_decode_rejects_bad_input() {
    let e = base64url_decode("a").err().unwrap();
    assert!(e.starts_with("Base64 decode error: "));
    let e = base64url_decode("ab!d").err().unwrap();
    assert!(e.starts_with("Base64 decode error: "));
}

#[test]
fn parse_claims_reads_object() {
    let o = parse_claims("{\"sub\":\"alice\",\"n\":3}").ok().unwrap();
    let m = o.into_map();
    assert_eq!(m["sub"], "alice");
    assert_eq!(m["n"], 3);
}

#[test]
fn parse_claims_rejects_non_object() {
    let e = parse_claims("[1,2]").err().unwrap();
    assert!(e.starts_with("PASETO payload parse error: "));
    let e = parse_claims("not json").err().unwrap();
    assert!(e.starts_with("PASETO payload parse error: "));
}

#[test]
fn decode_public_payload_reads_claims() {
    let mut body = b"{\"sub\":\"bob\"}".to_vec();
    body.extend_from_slice(&[7u8; 64]);
    let token = format!("v4.public.{}", b64url(&body));
    let m = decode_public_payload(&token).ok().unwrap().into_map();
    assert_eq!(m["sub"], "bob");
}

#[test]
fn decode_public_payload_errors() {
    let e = decode_public_payload("v4.local.abcd").err().unwrap();
    assert_eq!(e, "Only v4.public tokens have a decodable payload");
    let short = format!("v4.public.{}", b64url(&[1u8; 10]));
    let e = decode_public_payload(&short).err().unwrap();
    assert_eq!(e, "Public token payload too short to contain signature");
    let mut bad = vec![0xffu8, 0xfe];
    bad.extend_from_slice(&[0u8; 64]);
    let e = decode_public_payload(&format!("v4.public.{}", b64url(&bad))).err().unwrap();
    assert_eq!(e, "Invalid UTF-8 in payload");
    let mut notjson = b"hello".to_vec();
    notjson.extend_from_slice(&[0u8; 64]);
    let e = decode_public_payload(&format!("v4.public.{}", b64url(&notjson))).err().unwrap();
    assert!(e.starts_with("PASETO payload parse error: "));
    let e = decode_public_payload("v2.public.abc").err().unwrap();
    assert_eq!(e, "Unsupported PASETO version: v2");
}

#[test]
fn local_token_roundtrip() {
    let p = payload(&[
        ("sub", serde_json::Value::from("user-1")),
        ("role", serde_json::Value::from("admin")),
        ("n", serde_json::Value::from(5)),
    ]);
    let t = internal_create_local(p, "my-secret".to_string(), Some(3600)).unwrap();
    assert!(t.starts_with("v4.local."));
    let parts = parse_token(&t).unwrap();
    assert_eq!(parts.purpose, "local");
    assert_eq!(parts.footer, "");
    let m = internal_verify_local(&t, "my-secret").ok().unwrap().into_map();
    assert_eq!(m["sub"], "user-1");
    assert_eq!(m["role"], "admin");
    assert_eq!(m["n"], 5);
    assert!(m.contains_key("exp"));
    assert!(m.contains_key("iat"));
}

#[test]
fn local_token_wrong_secret() {
    let t = internal_create_local(Vec::new(), "a".to_string(), None).unwrap();
    let e = internal_verify_local(&t, "b").err().unwrap();
    assert!(e.starts_with("PASETO verification error: "));
}

#[test]
fn local_token_is_not_public_decodable() {
    let t = internal_create_local(Vec::new(), "a".to_string(), None).unwrap();
    let e = decode_public_payload(&t).err().unwrap();
    assert_eq!(e, "Only v4.public tokens have a decodable payload");
}

#[test]
fn verify_local_rejects_malformed() {
    let e = internal_verify_local("garbage", "s").err().unwrap();
    assert!(e.starts_with("Invalid PASETO token: "));
}

#[test]
fn create_local_payload_errors() {
    let e = internal_create_local(payload(&[("iss", serde_json::Value::from(""))]), "s".into(), None)
        .err()
        .unwrap();
    assert_eq!(e, "PASETO issuer error: InvalidClaim");
    let e = internal_create_local(payload(&[("jti", serde_json::Value::from(""))]), "s".into(), None)
        .err()
        .unwrap();
    assert_eq!(e, "PASETO jti error: InvalidClaim");
    let e = internal_create_local(payload(&[("exp", serde_json::Value::from("x"))]), "s".into(), None)
        .err()
        .unwrap();
    assert_eq!(e, "PASETO payload error: exp: InvalidClaim");
}

#[test]
fn create_local_skips_non_string_registered_claim() {
    let t = internal_create_local(payload(&[("iss", serde_json::Value::from(42))]), "s".into(), None)
        .unwrap();
    let m = internal_verify_local(&t, "s").ok().unwrap().into_map();
    assert!(!m.contains_key("iss"));
}

#[test]
fn generated_keys_sign_and_verify() {
    let (sk, pk) = internal_generate_keys().unwrap();
    assert_eq!(sk.len(), 128);
    assert_eq!(pk.len(), 64);
    assert_eq!(&sk[64..], pk.as_str());
    let p = payload(&[("aud", serde_json::Value::from("svc")), ("x", serde_json::Value::Bool(true))]);
    let t = internal_create_public(p, &sk, Some(60)).unwrap();
    assert!(t.starts_with("v4.public."));
    let m = internal_verify_public(&t, &pk).ok().unwrap().into_map();
    assert_eq!(m["aud"], "svc");
    assert_eq!(m["x"], true);
    let d = decode_public_payload(&t).ok().unwrap().into_map();
    assert_eq!(d["aud"], "svc");
}

#[test]
fn create_public_key_errors() {
    let e = internal_create_public(Vec::new(), "zz", None).err().unwrap();
    assert_eq!(e, "Invalid hex for secret key");
    let e = internal_create_public(Vec::new(), "00", None).err().unwrap();
    assert_eq!(e, "Invalid secret key: Key");
}

#[test]
fn verify_public_key_errors() {
    let e = internal_verify_public("v4.public.abc", "xyz").err().unwrap();
    assert_eq!(e, "Invalid hex for public key");
    let e = internal_verify_public("v4.public.abc", "0011").err().unwrap();
    assert_eq!(e, "Invalid public key: Key");
    let pk = "00".repeat(32);
    let e = internal_verify_public("v4.local.abc", &pk).err().unwrap();
    assert!(e.starts_with("Invalid PASETO token: "));
}

#[test]
fn verify_public_with_other_key_fails() {
    let (sk, _) = internal_generate_keys().unwrap();
    let (_, pk2) = internal_generate_keys().unwrap();
    let t = internal_create_public(Vec::new(), &sk, None).unwrap();
    let e = internal_verify_public(&t, &pk2).err().unwrap();
    assert!(e.starts_with("PASETO verification error: "));
}

#[test]
fn derived_key_is_deterministic() {
    let _k1 = derive_symmetric_key("secret");
    let t = internal_create_local(Vec::new(), "secret".into(), None).unwrap();
    assert!(internal_verify_local(&t, "secret").is_ok());
}

#[test]
fn decode_token_always_refuses() {
    let e = webtoken::paseto::decode_token("v4.local.abc").err().unwrap();
    assert_eq!(
        e,
        "PASETO local tokens are encrypted and cannot be decoded without the secret key."
    );
}

#[test]
fn claim_values_classify_strings() {
    let v = ClaimValue::from_json(serde_json::Value::from("hi"));
    assert_eq!(v.as_text(), Some("hi"));
    let v = ClaimValue::from_json(serde_json::Value::from(3));
    assert_eq!(v.as_text(), None);
    assert_eq!(v.into_json(), serde_json::Value::from(3));
    let v = ClaimValue::text("t".to_string());
    assert_eq!(v.into_json(), serde_json::Value::from("t"));
}

#[test]
fn later_custom_claim_wins() {
    let p = payload(&[("a", serde_json::Value::from(1)), ("a", serde_json::Value::from(2))]);
    let t = internal_create_local(p, "k".into(), None).unwrap();
    let m = internal_verify_local(&t, "k").ok().unwrap().into_map();
    assert_eq!(m["a"], 2);
}

#[test]
fn expired_token_is_refused() {
    let t = internal_create_local(Vec::new(), "k".into(), Some(-10)).unwrap();
    let e = internal_verify_local(&t, "k").err().unwrap();
    assert!(e.starts_with("PASETO verification error: "));
}

#[test]
fn derived_key_is_sha256_of_secret() {
    let k = derive_symmetric_key("abc");
    let expected =
        hex::decode("ba7816bf8f01cfea414140de5dae2223b00361a396177a9cb410ff61f20015ad").unwrap();
    assert_eq!(k.as_bytes(), expected);
}

#[test]
fn expiry_beyond_every_date_is_refused() {
    let e = internal_create_local(Vec::new(), "k".into(), Some(20_000_000_000_001)).err().unwrap();
    assert_eq!(e, "Invalid expiration time");
    let e = internal_create_local(Vec::new(), "k".into(), Some(-20_000_000_000_001)).err().unwrap();
    assert_eq!(e, "Invalid expiration time");
    let e = internal_create_public(Vec::new(), "zz", Some(20_000_000_000_001)).err().unwrap();
    assert_eq!(e, "Invalid expiration time");
}

#[test]
fn decode_public_payload_of_empty_object() {
    let token = format!("v4.public.e30{}", "A".repeat(85));
    let m = decode_public_payload(&token).ok().unwrap().into_map();
    assert!(m.is_empty());
}

#[test]
fn base64url_decode_reads_back_encodings() {
    let samples: Vec<Vec<u8>> = vec![
        Vec::new(),
        vec![0],
        vec![251, 255],
        vec![1, 2, 3],
        vec![255, 254, 253, 252, 62, 63, 64],
        (0u8..=255).collect(),
    ];
    for b in samples {
        let unpadded = base64::Engine::encode(&base64::engine::general_purpose::URL_SAFE_NO_PAD, &b);
        assert_eq!(base64url_decode(&unpadded), Ok(b.clone()));
        let padded = base64::Engine::encode(&base64::engine::general_purpose::URL_SAFE, &b);
        assert_eq!(base64url_decode(&padded), Ok(b));
    }
}

#[test]
fn create_public_refuses_zero_seed() {
    let sk = format!("{}{}", "00".repeat(32), "11".repeat(32));
    let e = internal_create_public(Vec::new(), &sk, None).err().unwrap();
    assert_eq!(e, "Invalid secret key: Key");
    let sk = "00".repeat(64);
    let e = internal_create_public(Vec::new(), &sk, None).err().unwrap();
    assert_eq!(e, "Invalid secret key: Key");
}

#[test]
fn non_string_claims_come_back() {
    let p = payload(&[
        ("flag", serde_json::Value::Bool(false)),
        ("nothing", serde_json::Value::Null),
        ("neg", serde_json::Value::from(-42)),
        ("big", serde_json::Value::from(u64::MAX)),
        ("list", serde_json::Value::Array(vec![serde_json::Value::from(1), serde_json::Value::from("a")])),
    ]);
    let t = internal_create_local(p, "k".into(), None).unwrap();
    let m = internal_verify_local(&t, "k").ok().unwrap().into_map();
    assert_eq!(m["flag"], false);
    assert!(m["nothing"].is_null());
    assert_eq!(m["neg"], -42);
    assert_eq!(m["big"], u64::MAX);
    assert_eq!(m["list"], serde_json::Value::Array(vec![serde_json::Value::from(1), serde_json::Value::from("a")]));
}
