use webtoken::argon::{internal_compare, internal_hash};
use webtoken::scrypt::{internal_scrypt_compare, internal_scrypt_hash};

#[test]
fn argon2_hash_then_compare() {
    let h = internal_hash("hunter2".to_string(), Some(1), Some(64), Some(1)).unwrap();
    assert!(h.starts_with("$argon2id$v=19$m=64,t=1,p=1$"));
    assert_eq!(internal_compare("hunter2".to_string(), h.clone()), Ok(true));
    assert_eq!(internal_compare("hunter3".to_string(), h), Ok(false));
}

#[test]
fn argon2_salts_differ() {
    let a = internal_hash("pw".to_string(), Some(1), Some(16), Some(2)).unwrap();
    let b = internal_hash("pw".to_string(), Some(1), Some(16), Some(2)).unwrap();
    assert!(a.starts_with("$argon2id$v=19$m=16,t=1,p=2$"));
    assert_ne!(a, b);
}

#[test]
fn argon2_default_costs_appear_in_hash() {
    // Only the defaults that are cheap to run are left to default here.
    let h = internal_hash("pw".to_string(), None, Some(32), None).unwrap();
    assert!(h.starts_with("$argon2id$v=19$m=32,t=3,p=1$"));
}

#[test]
fn argon2_param_errors() {
    assert_eq!(
        internal_hash("pw".to_string(), Some(1), Some(7), Some(1)),
        Err("Argon2 params error: memory cost is too small".to_string())
    );
    assert_eq!(
        internal_hash("pw".to_string(), Some(1), Some(16), Some(4)),
        Err("Argon2 params error: memory cost is too small".to_string())
    );
    assert_eq!(
        internal_hash("pw".to_string(), Some(0), Some(64), Some(1)),
        Err("Argon2 params error: time cost is too small".to_string())
    );
    assert_eq!(
        internal_hash("pw".to_string(), Some(1), Some(64), Some(0)),
        Err("Argon2 params error: not enough threads".to_string())
    );
    assert_eq!(
        internal_hash("pw".to_string(), Some(1), Some(0x0800_0000), Some(0x0100_0000)),
        Err("Argon2 params error: too many threads".to_string())
    );
}

#[test]
fn argon2_compare_bad_format() {
    let e = internal_compare("pw".to_string(), "not-a-hash".to_string()).unwrap_err();
    assert!(e.starts_with("Invalid hash format: "));
}

#[test]
fn argon2_compare_scrypt_hash_is_false() {
    let h = internal_scrypt_hash("pw".to_string(), Some(4), Some(1), Some(1)).unwrap();
    assert_eq!(internal_compare("pw".to_string(), h), Ok(false));
}

#[test]
fn scrypt_hash_then_compare() {
    let h = internal_scrypt_hash("hunter2".to_string(), Some(4), Some(1), Some(1)).unwrap();
    assert!(h.starts_with("$scrypt$ln=4,r=1,p=1$"));
    assert_eq!(internal_scrypt_compare("hunter2".to_string(), h.clone()), Ok(true));
    assert_eq!(internal_scrypt_compare("nope".to_string(), h), Ok(false));
}

#[test]
fn scrypt_default_r_and_p_appear_in_hash() {
    let h = internal_scrypt_hash("pw".to_string(), Some(3), None, None).unwrap();
    assert!(h.starts_with("$scrypt$ln=3,r=8,p=1$"));
}

#[test]
fn scrypt_param_errors() {
    let msg = Err("Scrypt params error: invalid scrypt parameters".to_string());
    assert_eq!(internal_scrypt_hash("pw".to_string(), Some(4), Some(0), Some(1)), msg);
    assert_eq!(internal_scrypt_hash("pw".to_string(), Some(4), Some(1), Some(0)), msg);
    assert_eq!(internal_scrypt_hash("pw".to_string(), Some(16), Some(1), Some(1)), msg);
    assert_eq!(internal_scrypt_hash("pw".to_string(), Some(64), Some(8), Some(1)), msg);
}

#[test]
fn scrypt_compare_bad_format() {
    let e = internal_scrypt_compare("pw".to_string(), "$$$".to_string()).unwrap_err();
    assert!(e.starts_with("Invalid hash format: "));
}

#[test]
fn argon2_hash_has_salt_and_hash_fields() {
    let h = internal_hash("pw".to_string(), Some(1), Some(8), Some(1)).unwrap();
    assert!(h.starts_with("$argon2id$v=19$m=8,t=1,p=1$"));
    let fields: Vec<&str> = h.split('$').collect();
    assert_eq!(fields.len(), 6);
    assert_eq!(fields[4].len(), 22);
    assert_eq!(fields[5].len(), 43);
}

#[test]
fn scrypt_hash_has_salt_and_hash_fields() {
    let h = internal_scrypt_hash("pw".to_string(), Some(1), Some(1), Some(1)).unwrap();
    assert!(h.starts_with("$scrypt$ln=1,r=1,p=1$"));
    let fields: Vec<&str> = h.split('$').collect();
    assert_eq!(fields.len(), 5);
    assert_eq!(fields[3].len(), 22);
    assert_eq!(fields[4].len(), 43);
}

#[test]
fn argon2_compare_with_oversized_parallelism_is_false() {
    let hash = format!(
        "$argon2id$v=19$m=19456,t=2,p=536870912$c2FsdHNhbHRzYWx0c2FsdA${}",
        "A".repeat(43)
    );
    assert_eq!(internal_compare("pw".to_string(), hash), Ok(false));
}

#[test]
fn argon2_all_default_costs() {
    let h = internal_hash("pw".to_string(), None, None, None).unwrap();
    assert!(h.starts_with("$argon2id$v=19$m=19456,t=3,p=1$"));
    assert_eq!(h.split('$').count(), 6);
}
