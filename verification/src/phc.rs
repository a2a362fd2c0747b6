//! PHC password-hash strings (`$alg$v=..$params$salt$hash`) shared by the
//! Argon2 and scrypt hashers, through the `password-hash` crate.
use vstd::prelude::*;
use argon2::password_hash::{PasswordHash, SaltString};

verus! {

#[verifier::external_type_specification]
#[verifier::external_body]
pub struct ExSaltString(SaltString);

#[verifier::external_type_specification]
#[verifier::external_body]
pub struct ExPasswordHash<'a>(PasswordHash<'a>);

/// A salt of 16 random bytes, written as 22 B64 characters.
pub struct Salt {
    salt: SaltString,
}

impl Salt {
    /// The salt as the hashers take it.
    pub(crate) fn salt_string(&self) -> &SaltString {
        &self.salt
    }
}

/// `SaltString::generate(&mut OsRng)`: a fresh random salt of 16 bytes from
/// the operating system, in B64. Nothing is stated of which salt comes out.
#[verifier::external_body]
pub(crate) fn generate_salt() -> Salt {
    Salt { salt: SaltString::generate(&mut argon2::password_hash::rand_core::OsRng) }
}

/// A character of the B64 alphabet of PHC strings (standard base64 letters,
/// no padding).
pub open spec fn b64_char(c: char) -> bool {
    ('A' <= c <= 'Z') || ('a' <= c <= 'z') || ('0' <= c <= '9') || c == '+' || c == '/'
}

/// The end of a PHC string made with a 16-byte salt and a 32-byte output:
/// 22 B64 characters of salt, `$`, and 43 B64 characters of hash.
pub open spec fn salt_and_hash(s: Seq<char>) -> bool {
    &&& s.len() == 66
    &&& s[22] == '$'
    &&& forall|i: int| 0 <= i < 66 && i != 22 ==> b64_char(#[trigger] s[i])
}

/// A PHC string that starts with `prefix` and ends with the salt and hash.
pub open spec fn phc_shape(h: Seq<char>, prefix: Seq<char>) -> bool {
    &&& h.len() == prefix.len() + 66
    &&& h.take(prefix.len() as int) == prefix
    &&& salt_and_hash(h.skip(prefix.len() as int))
}

/// What `PasswordHash::new` gives for a text: `None` when the text is a
/// well-formed PHC string, else the `Display` text of its error.
pub uninterp spec fn phc_rejection(text: Seq<char>) -> Option<Seq<char>>;

/// `PasswordHash::new(text)`, the error turned into its `Display` text. It
/// succeeds exactly when the named `phc_rejection` of the text is `None`.
#[verifier::external_body]
fn parse_phc(text: &str) -> (r: Result<PasswordHash<'_>, String>)
    ensures
        r is Ok <==> phc_rejection(text@) is None,
        r matches Err(e) ==> phc_rejection(text@) == Some(e@),
{
    PasswordHash::new(text).map_err(|e| e.to_string())
}

/// What `PasswordHash::params.get_decimal("p")` gives for the parameters of
/// a well-formed PHC string: the decimal value of its `p` parameter, if any.
pub uninterp spec fn phc_p_param(text: Seq<char>) -> Option<u32>;

/// `hash.params.get_decimal("p")` on the parsed string.
#[verifier::external_body]
fn phc_decimal_p(hash: &ParsedHash) -> (r: Option<u32>)
    ensures
        r == phc_p_param(hash@),
{
    hash.hash.params.get_decimal("p")
}

/// A parsed PHC string together with the text it was parsed from, which is
/// its view.
pub struct ParsedHash<'a> {
    hash: PasswordHash<'a>,
    text: Ghost<Seq<char>>,
}

impl<'a> View for ParsedHash<'a> {
    type V = Seq<char>;

    closed spec fn view(&self) -> Seq<char> {
        self.text@
    }
}

impl<'a> ParsedHash<'a> {
    /// Parse a PHC string.
    pub fn parse(text: &'a str) -> (r: Result<ParsedHash<'a>, String>)
        ensures
            r is Ok <==> phc_rejection(text@) is None,
            r matches Ok(p) ==> p@ == text@,
            r matches Err(e) ==> phc_rejection(text@) == Some(e@),
    {
        match parse_phc(text) {
            Ok(hash) => Ok(ParsedHash { hash, text: Ghost(text@) }),
            Err(e) => Err(e),
        }
    }

    /// The decimal value of the `p` parameter of the parsed string, if any.
    pub fn p_param(&self) -> (r: Option<u32>)
        ensures
            r == phc_p_param(self@),
    {
        phc_decimal_p(self)
    }

    /// The parsed hash this value holds.
    pub closed spec fn parsed(&self) -> PasswordHash<'a> {
        self.hash
    }

    /// The parsed hash.
    pub fn hash(&self) -> (r: &PasswordHash<'a>)
        ensures
            *r == self.parsed(),
    {
        &self.hash
    }
}

} // verus!
