//! scrypt password hashing and verification through the `scrypt` crate.
use vstd::prelude::*;
use vstd::arithmetic::power2::pow2;
use crate::codec::{decimal, utf8_of};
use crate::phc::{ParsedHash, Salt, generate_salt, phc_rejection, phc_shape};
use crate::text::join_str;
use crate::argon::bool_outcome;
use argon2::password_hash::{PasswordHasher, PasswordVerifier};

verus! {

#[verifier::external_type_specification]
#[verifier::external_body]
pub struct ExScryptParams(scrypt::Params);

/// Default log2 of the CPU/memory cost.
pub const DEFAULT_LOG_N: u8 = 15;

/// Default block size.
pub const DEFAULT_R: u32 = 8;

/// Default parallelism.
pub const DEFAULT_P: u32 = 1;

/// Whether `scrypt::Params::new(log_n, r, p, 32)` accepts the costs: the
/// crate's bounds, the `usize` overflow checks of `128 * r * 2^log_n` and
/// `128 * r * p`, and scrypt's `log_n < 16 * r` and `r * p < 2^30`.
pub open spec fn scrypt_params_ok(log_n: u8, r: u32, p: u32) -> bool {
    &&& r > 0
    &&& p > 0
    &&& (log_n as nat) < usize::BITS
    &&& r * 128 <= usize::MAX
    &&& r * 128 * pow2(log_n as nat) <= usize::MAX
    &&& r * 128 * p <= usize::MAX
    &&& (log_n as nat) < r * 16
    &&& r * p < 0x4000_0000
}

/// `scrypt::Params::new(log_n, r, p, Params::RECOMMENDED_LEN)`, the error
/// turned into its `Display` text ("invalid scrypt parameters").
#[verifier::external_body]
fn scrypt_params(log_n: u8, r: u32, p: u32) -> (res: Result<scrypt::Params, String>)
    ensures
        res is Ok <==> scrypt_params_ok(log_n, r, p),
        res matches Err(e) ==> e@ == "invalid scrypt parameters"@,
{
    scrypt::Params::new(log_n, r, p, scrypt::Params::RECOMMENDED_LEN).map_err(|e| e.to_string())
}

/// scrypt parameters together with the costs they were made from.
pub struct ScryptConfig {
    params: scrypt::Params,
    log_n: u8,
    r: u32,
    p: u32,
}

impl View for ScryptConfig {
    type V = (u8, u32, u32);

    closed spec fn view(&self) -> (u8, u32, u32) {
        (self.log_n, self.r, self.p)
    }
}

impl ScryptConfig {
    /// Parameters for `2^log_n` cost, block size `r` and parallelism `p`.
    pub fn new(log_n: u8, r: u32, p: u32) -> (res: Result<ScryptConfig, String>)
        ensures
            res is Ok <==> scrypt_params_ok(log_n, r, p),
            res matches Ok(c) ==> c@ == (log_n, r, p),
            res matches Err(e) ==> e@ == "invalid scrypt parameters"@,
    {
        match scrypt_params(log_n, r, p) {
            Ok(params) => Ok(ScryptConfig { params, log_n, r, p }),
            Err(e) => Err(e),
        }
    }
}

/// The PHC text that every scrypt hash made with these costs starts with.
pub open spec fn scrypt_phc_prefix(log_n: u8, r: u32, p: u32) -> Seq<char> {
    "$scrypt$ln="@ + decimal(log_n as nat) + ",r="@ + decimal(r as nat) + ",p="@ + decimal(p as nat)
        + "$"@
}

/// What `Scrypt.verify_password(password, &PasswordHash::new(hash)?)` gives:
/// whether the password matches the PHC string.
pub uninterp spec fn scrypt_accepts(password: Seq<u8>, hash: Seq<char>) -> bool;

/// `Scrypt.hash_password_customized(password, None, None, params, salt)` as a
/// PHC string. With a 16-byte salt and the 32-byte output it always succeeds;
/// the string is `$scrypt$ln=..,r=..,p=..$`, the salt (22 B64 characters),
/// `$` and the hash (43 B64 characters); it parses as a PHC string, and
/// verifying the same password against it succeeds. Which salt and hash
/// appear is not stated.
#[verifier::external_body]
fn scrypt_hash_password(config: &ScryptConfig, password: &[u8], salt: &Salt) -> (res: Result<String, String>)
    ensures
        res is Ok,
        res matches Ok(h) ==> phc_shape(h@, scrypt_phc_prefix(config@.0, config@.1, config@.2)),
        res matches Ok(h) ==> phc_rejection(h@) is None,
        res matches Ok(h) ==> scrypt_accepts(password@, h@),
{
    scrypt::Scrypt
        .hash_password_customized(password, None, None, config.params, salt.salt_string())
        .map(|h| h.to_string())
        .map_err(|e| e.to_string())
}

/// `Scrypt.verify_password(password, hash).is_ok()`.
#[verifier::external_body]
fn scrypt_verify(password: &[u8], hash: &ParsedHash) -> (res: bool)
    ensures
        res == scrypt_accepts(password@, hash@),
{
    scrypt::Scrypt.verify_password(password, hash.hash()).is_ok()
}

/// What `internal_scrypt_compare` gives for a password and a stored hash.
pub open spec fn scrypt_compare_spec(password: Seq<char>, hash: Seq<char>) -> Result<bool, Seq<char>> {
    match phc_rejection(hash) {
        Some(e) => Err("Invalid hash format: "@ + e),
        None => Ok(scrypt_accepts(utf8_of(password), hash)),
    }
}

/// The costs `internal_scrypt_hash` uses: the given ones, else the defaults.
pub open spec fn scrypt_costs(log_n: Option<u8>, r: Option<u32>, p: Option<u32>) -> (u8, u32, u32) {
    (log_n.unwrap_or(DEFAULT_LOG_N), r.unwrap_or(DEFAULT_R), p.unwrap_or(DEFAULT_P))
}

/// Hash a password with scrypt and a fresh random salt, giving the PHC
/// string. Missing costs default to `log_n = 15`, `r = 8`, `p = 1`. The
/// password checks out against the hash it gets.
pub fn internal_scrypt_hash(
    password: String,
    log_n: Option<u8>,
    r: Option<u32>,
    p: Option<u32>,
) -> (res: Result<String, String>)
    ensures
        ({
            let (ln, rr, pp) = scrypt_costs(log_n, r, p);
            &&& res is Ok <==> scrypt_params_ok(ln, rr, pp)
            &&& res matches Err(e) ==> e@ == "Scrypt params error: invalid scrypt parameters"@
        }),
        res matches Ok(h) ==> ({
            let (ln, rr, pp) = scrypt_costs(log_n, r, p);
            &&& phc_shape(h@, scrypt_phc_prefix(ln, rr, pp))
            &&& scrypt_compare_spec(password@, h@) == Ok::<bool, Seq<char>>(true)
        }),
        res matches Ok(h) ==> phc_rejection(h@) is None && scrypt_accepts(utf8_of(password@), h@),
{
    let salt = generate_salt();
    let ln = match log_n { Some(v) => v, None => DEFAULT_LOG_N };
    let rr = match r { Some(v) => v, None => DEFAULT_R };
    let pp = match p { Some(v) => v, None => DEFAULT_P };
    let config = match ScryptConfig::new(ln, rr, pp) {
        Ok(c) => c,
        Err(e) => {
            proof {
                reveal_strlit("Scrypt params error: ");
                reveal_strlit("invalid scrypt parameters");
                reveal_strlit("Scrypt params error: invalid scrypt parameters");
                assert(("Scrypt params error: "@ + e@) =~= "Scrypt params error: invalid scrypt parameters"@);
            }
            return Err(join_str("Scrypt params error: ", e.as_str()));
        },
    };
    match scrypt_hash_password(&config, password.as_str().as_bytes(), &salt) {
        Ok(h) => Ok(h),
        Err(e) => Err(join_str("Scrypt hashing error: ", e.as_str())),
    }
}

/// Check a password against a stored scrypt PHC string: `Ok(true)` when it
/// matches, `Ok(false)` when it does not, an error when the string is not a
/// PHC string.
pub fn internal_scrypt_compare(password: String, hash: String) -> (res: Result<bool, String>)
    ensures
        bool_outcome(res) == scrypt_compare_spec(password@, hash@),
        phc_rejection(hash@) is None ==> res == Ok::<bool, String>(scrypt_accepts(utf8_of(password@), hash@)),
        res matches Err(e) ==> (phc_rejection(hash@) matches Some(x) && e@ == "Invalid hash format: "@ + x),
{
    let parsed = match ParsedHash::parse(hash.as_str()) {
        Ok(p) => p,
        Err(e) => return Err(join_str("Invalid hash format: ", e.as_str())),
    };
    Ok(scrypt_verify(password.as_str().as_bytes(), &parsed))
}

/// Checking a password against a well-formed PHC string is asking scrypt
/// whether it accepts the whole UTF-8 encoding of that password for the
/// string: two passwords get the same answer only when scrypt gives them
/// the same answer.
pub proof fn lemma_scrypt_compare_whole_password(password: Seq<char>, hash: Seq<char>)
    requires
        phc_rejection(hash) is None,
    ensures
        scrypt_compare_spec(password, hash) == Ok::<bool, Seq<char>>(scrypt_accepts(utf8_of(password), hash)),
{
}

/// A hash made from a password accepts that password: comparing the same
/// password against it gives `Ok(true)`, whatever the costs.
pub proof fn lemma_scrypt_hash_accepts_own_password(password: Seq<char>, hash: Seq<char>)
    requires
        phc_rejection(hash) is None,
        scrypt_accepts(utf8_of(password), hash),
    ensures
        scrypt_compare_spec(password, hash) == Ok::<bool, Seq<char>>(true),
{
}

} // verus!
