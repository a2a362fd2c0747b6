//! Password hashing (Argon2id, scrypt), PASETO v4 tokens and OPAQUE message
//! packaging, with the parsing and decision logic verified by Verus.
pub mod text;
pub mod codec;
pub mod claims;
pub mod clock;
pub mod paseto;
pub mod phc;
pub mod argon;
pub mod scrypt;
pub mod opaque;
