//! Argon2id password hashing and verification through the `argon2` crate.
use vstd::prelude::*;
use crate::codec::{decimal, utf8_of};
use crate::phc::{ParsedHash, Salt, generate_salt, phc_rejection, phc_p_param, phc_shape};
use crate::text::join_str;
use argon2::password_hash::{PasswordHasher, PasswordVerifier};

verus! {

#[verifier::external_type_specification]
#[verifier::external_body]
pub struct ExArgon2Params(argon2::Params);

#[verifier::external_type_specification]
#[verifier::external_body]
pub struct ExArgon2<'key>(argon2::Argon2<'key>);

/// Default memory cost in KiB (`Params::DEFAULT_M_COST`).
pub const DEFAULT_M_COST: u32 = 19456;

/// Default number of passes.
pub const DEFAULT_T_COST: u32 = 3;

/// Default parallelism (`Params::DEFAULT_P_COST`).
pub const DEFAULT_P_COST: u32 = 1;

/// The message `argon2::Params::new(m, t, p, None)` refuses the costs with,
/// or `None` when it accepts them; the checks run in this order.
pub open spec fn argon2_params_error(m: u32, t: u32, p: u32) -> Option<Seq<char>> {
    if m < 8 || m < p * 8 {
        Some("memory cost is too small"@)
    } else if t < 1 {
        Some("time cost is too small"@)
    } else if p < 1 {
        Some("not enough threads"@)
    } else if p > 0xFF_FFFF {
        Some("too many threads"@)
    } else {
        None
    }
}

/// `argon2::Params::new(m, t, p, None)`, the error turned into its
/// `Display` text. The checks are those of `argon2_params_error`. The crate
/// computes `p * 8` in `u32`, so larger parallelism is left out.
#[verifier::external_body]
fn argon2_params(m: u32, t: u32, p: u32) -> (r: Result<argon2::Params, String>)
    requires
        p * 8 <= u32::MAX,
    ensures
        r is Ok <==> argon2_params_error(m, t, p) is None,
        r matches Err(e) ==> argon2_params_error(m, t, p) == Some(e@),
{
    argon2::Params::new(m, t, p, None).map_err(|e| e.to_string())
}

/// `Argon2::new(Algorithm::Argon2id, Version::V0x13, params)`.
#[verifier::external_body]
fn argon2id_hasher(params: argon2::Params) -> argon2::Argon2<'static> {
    argon2::Argon2::new(argon2::Algorithm::Argon2id, argon2::Version::V0x13, params)
}

/// An Argon2id (v1.3) hasher with its memory, time and parallelism costs.
pub struct Argon2Config {
    hasher: argon2::Argon2<'static>,
    m_cost: u32,
    t_cost: u32,
    p_cost: u32,
}

impl View for Argon2Config {
    type V = (u32, u32, u32);

    closed spec fn view(&self) -> (u32, u32, u32) {
        (self.m_cost, self.t_cost, self.p_cost)
    }
}

impl Argon2Config {
    /// A hasher with memory cost `m` (KiB), `t` passes and parallelism `p`,
    /// or the message for the first cost that `argon2` refuses.
    pub fn new(m: u32, t: u32, p: u32) -> (r: Result<Argon2Config, String>)
        requires
            p * 8 <= u32::MAX,
        ensures
            r is Ok <==> argon2_params_error(m, t, p) is None,
            r matches Ok(c) ==> c@ == (m, t, p),
            r matches Err(e) ==> argon2_params_error(m, t, p) == Some(e@),
    {
        match argon2_params(m, t, p) {
            Ok(params) => Ok(Argon2Config { hasher: argon2id_hasher(params), m_cost: m, t_cost: t, p_cost: p }),
            Err(e) => Err(e),
        }
    }
}

/// The PHC text that every Argon2id hash made with these costs starts with.
pub open spec fn argon2id_phc_prefix(m: u32, t: u32, p: u32) -> Seq<char> {
    "$argon2id$v=19$m="@ + decimal(m as nat) + ",t="@ + decimal(t as nat) + ",p="@ + decimal(
        p as nat,
    ) + "$"@
}

/// What `Argon2::default().verify_password(password, &PasswordHash::new(hash)?)`
/// gives: whether the password matches the PHC string. The verifier takes
/// algorithm, version and costs from the string itself.
pub uninterp spec fn argon2_accepts(password: Seq<u8>, hash: Seq<char>) -> bool;

/// `hasher.hash_password(password, salt)` as a PHC string. The string is
/// `$argon2id$v=19$m=..,t=..,p=..$`, the salt (22 B64 characters), `$` and
/// the 32-byte hash (43 B64 characters); it parses as a PHC string, and
/// verifying the same password against it succeeds. With a 16-byte salt the
/// crate refuses only passwords longer than `u32::MAX` bytes. Which salt and
/// hash appear is not stated.
#[verifier::external_body]
fn argon2_hash_password(config: &Argon2Config, password: &[u8], salt: &Salt) -> (r: Result<String, String>)
    ensures
        password@.len() <= u32::MAX ==> r is Ok,
        r matches Ok(h) ==> phc_shape(h@, argon2id_phc_prefix(config@.0, config@.1, config@.2)),
        r matches Ok(h) ==> phc_rejection(h@) is None,
        r matches Ok(h) ==> argon2_accepts(password@, h@),
        r matches Ok(h) ==> phc_p_param(h@) == Some(config@.2),
{
    config.hasher.hash_password(password, salt.salt_string()).map(|h| h.to_string()).map_err(|e| e.to_string())
}

/// `Argon2::default().verify_password(password, hash).is_ok()`. The crate
/// computes `p * 8` in `u32` for the string's `p`, so larger values are left
/// out.
#[verifier::external_body]
fn argon2_verify(password: &[u8], hash: &ParsedHash) -> (r: bool)
    requires
        phc_p_param(hash@) matches Some(p) ==> p * 8 <= u32::MAX,
    ensures
        r == argon2_accepts(password@, hash@),
{
    argon2::Argon2::default().verify_password(password, hash.hash()).is_ok()
}

/// What `internal_compare` gives for a password and a stored hash.
pub open spec fn argon2_compare_spec(password: Seq<char>, hash: Seq<char>) -> Result<bool, Seq<char>> {
    match phc_rejection(hash) {
        Some(e) => Err("Invalid hash format: "@ + e),
        None => match phc_p_param(hash) {
            Some(p) if p * 8 > u32::MAX => Ok(false),
            _ => Ok(argon2_accepts(utf8_of(password), hash)),
        },
    }
}

/// The outcome of a check, by views.
pub open spec fn bool_outcome(r: Result<bool, String>) -> Result<bool, Seq<char>> {
    match r {
        Ok(b) => Ok(b),
        Err(e) => Err(e@),
    }
}

/// The costs `internal_hash` uses: the given ones, else the defaults.
pub open spec fn argon2_costs(iterations: Option<u32>, memory: Option<u32>, parallelism: Option<u32>) -> (u32, u32, u32) {
    (
        memory.unwrap_or(DEFAULT_M_COST),
        iterations.unwrap_or(DEFAULT_T_COST),
        parallelism.unwrap_or(DEFAULT_P_COST),
    )
}

/// Hash a password with Argon2id v1.3 and a fresh random salt, giving the
/// PHC string. Missing costs take the defaults (19456 KiB, 3 passes,
/// parallelism 1). The password checks out against the hash it gets.
pub fn internal_hash(
    password: String,
    iterations: Option<u32>,
    memory: Option<u32>,
    parallelism: Option<u32>,
) -> (r: Result<String, String>)
    requires
        parallelism.unwrap_or(DEFAULT_P_COST) * 8 <= u32::MAX,
    ensures
        ({
            let (m, t, p) = argon2_costs(iterations, memory, parallelism);
            match argon2_params_error(m, t, p) {
                Some(e) => r matches Err(x) && x@ == "Argon2 params error: "@ + e,
                None => utf8_of(password@).len() <= u32::MAX ==> r is Ok,
            }
        }),
        r matches Ok(h) ==> ({
            let (m, t, p) = argon2_costs(iterations, memory, parallelism);
            &&& phc_shape(h@, argon2id_phc_prefix(m, t, p))
            &&& argon2_compare_spec(password@, h@) == Ok::<bool, Seq<char>>(true)
        }),
        r matches Ok(h) ==> phc_rejection(h@) is None && argon2_accepts(utf8_of(password@), h@),
        r matches Err(x) ==> ({
            let (m, t, p) = argon2_costs(iterations, memory, parallelism);
            argon2_params_error(m, t, p) is Some || exists|e: Seq<char>| x@ == "Argon2 hashing error: "@ + e
        }),
{
    let salt = generate_salt();
    let m = match memory { Some(v) => v, None => DEFAULT_M_COST };
    let t = match iterations { Some(v) => v, None => DEFAULT_T_COST };
    let p = match parallelism { Some(v) => v, None => DEFAULT_P_COST };
    let config = match Argon2Config::new(m, t, p) {
        Ok(c) => c,
        Err(e) => return Err(join_str("Argon2 params error: ", e.as_str())),
    };
    let pw = password.as_str().as_bytes();
    match argon2_hash_password(&config, pw, &salt) {
        Ok(h) => Ok(h),
        Err(e) => Err(join_str("Argon2 hashing error: ", e.as_str())),
    }
}

/// Check a password against a stored Argon2 PHC string: `Ok(true)` when it
/// matches, `Ok(false)` when it does not, an error when the string is not a
/// PHC string.
pub fn internal_compare(password: String, hash: String) -> (r: Result<bool, String>)
    ensures
        bool_outcome(r) == argon2_compare_spec(password@, hash@),
        phc_rejection(hash@) is None && !(phc_p_param(hash@) matches Some(p) && p * 8 > u32::MAX)
            ==> r == Ok::<bool, String>(argon2_accepts(utf8_of(password@), hash@)),
        r matches Err(e) ==> (phc_rejection(hash@) matches Some(x) && e@ == "Invalid hash format: "@ + x),
{
    let parsed = match ParsedHash::parse(hash.as_str()) {
        Ok(p) => p,
        Err(e) => return Err(join_str("Invalid hash format: ", e.as_str())),
    };
    match parsed.p_param() {
        Some(p) => if p > u32::MAX / 8 {
            return Ok(false);
        },
        None => {},
    }
    Ok(argon2_verify(password.as_str().as_bytes(), &parsed))
}

/// Checking a password against a well-formed Argon2 PHC string (with a
/// parallelism the crate can hold) is asking Argon2 whether it accepts the
/// whole UTF-8 encoding of that password for the string.
pub proof fn lemma_argon2_compare_whole_password(password: Seq<char>, hash: Seq<char>)
    requires
        phc_rejection(hash) is None,
        !(phc_p_param(hash) matches Some(p) && p * 8 > u32::MAX),
    ensures
        argon2_compare_spec(password, hash) == Ok::<bool, Seq<char>>(argon2_accepts(utf8_of(password), hash)),
{
}

} // verus!
