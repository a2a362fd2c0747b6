//! PASETO claims: a payload of named JSON values copied into a
//! `pasetors::claims::Claims`, whose contents are modelled per claim name by
//! `JsonModel`: strings, booleans, null and integers exactly, every other
//! value as `Other`.
use vstd::prelude::*;
use crate::text::{str_eq, join_str};
use pasetors::claims::Claims;
use crate::clock::{Expiry, expiration_after};

verus! {

#[verifier::external_type_specification]
#[verifier::external_body]
pub struct ExClaims(Claims);

/// A JSON value as the claims model records it: a string with its text, a
/// boolean, null, an integer (as `serde_json` holds it, from `i64` or
/// `u64`), or `Other` for any other value (a number with a fraction or an
/// exponent, an array or an object).
pub enum JsonModel {
    Text(Seq<char>),
    Bool(bool),
    Null,
    Integer(int),
    Other,
}

/// What a JSON value holds, as `JsonModel` records it.
pub uninterp spec fn json_kind(v: serde_json::Value) -> JsonModel;

/// The contents of a `Claims` value: each claim name with the `json_kind` of
/// its JSON value.
pub uninterp spec fn claims_model(c: Claims) -> Map<Seq<char>, JsonModel>;

/// What kind of JSON value a claim holds, with the value for strings,
/// booleans and integers.
enum ClaimKind {
    Text(String),
    Bool(bool),
    Null,
    Integer(i128),
    Other,
}

/// The value of one payload claim: the JSON value itself, with what kind of
/// value it is; the kind is always that of the JSON value.
pub struct ClaimValue {
    json: serde_json::Value,
    kind: ClaimKind,
}

impl ClaimValue {
    /// The recorded kind is what the JSON value holds.
    #[verifier::type_invariant]
    spec fn kind_matches(self) -> bool {
        self@ == json_kind(self.json)
    }
}

impl View for ClaimValue {
    type V = JsonModel;

    closed spec fn view(&self) -> JsonModel {
        match self.kind {
            ClaimKind::Text(s) => JsonModel::Text(s@),
            ClaimKind::Bool(b) => JsonModel::Bool(b),
            ClaimKind::Null => JsonModel::Null,
            ClaimKind::Integer(i) => JsonModel::Integer(i as int),
            ClaimKind::Other => JsonModel::Other,
        }
    }
}

/// `Value::as_str`, the text copied out: the text of a JSON string, nothing
/// for any other value.
#[verifier::external_body]
fn json_str_of(v: &serde_json::Value) -> (r: Option<String>)
    ensures
        r matches Some(s) ==> json_kind(*v) == JsonModel::Text(s@),
        r is None ==> !(json_kind(*v) is Text),
{
    v.as_str().map(|s| s.to_string())
}

/// `Value::as_bool`: the boolean of a JSON boolean, nothing for any other
/// value.
#[verifier::external_body]
fn json_bool_of(v: &serde_json::Value) -> (r: Option<bool>)
    ensures
        r matches Some(b) ==> json_kind(*v) == JsonModel::Bool(b),
        r is None ==> !(json_kind(*v) is Bool),
{
    v.as_bool()
}

/// `Value::is_null`: whether the value is JSON null.
#[verifier::external_body]
fn json_is_null(v: &serde_json::Value) -> (r: bool)
    ensures
        r == (json_kind(*v) is Null),
{
    v.is_null()
}

/// `Value::as_i64`: a JSON integer that fits in `i64`, nothing otherwise. A
/// JSON integer is held as an `i64` or a `u64`, so one that does not fit in
/// `i64` is above `i64::MAX` and fits in `u64`.
#[verifier::external_body]
fn json_i64_of(v: &serde_json::Value) -> (r: Option<i64>)
    ensures
        r matches Some(i) ==> json_kind(*v) == JsonModel::Integer(i as int),
        r is None ==> (json_kind(*v) matches JsonModel::Integer(n) ==> (i64::MAX < n && n <= u64::MAX)),
{
    v.as_i64()
}

/// `Value::as_u64`: a JSON integer that fits in `u64`, nothing otherwise.
#[verifier::external_body]
fn json_u64_of(v: &serde_json::Value) -> (r: Option<u64>)
    ensures
        r matches Some(u) ==> json_kind(*v) == JsonModel::Integer(u as int),
        r is None ==> !(json_kind(*v) matches JsonModel::Integer(n) && (0 <= n && n <= u64::MAX)),
{
    v.as_u64()
}

/// `Value::String(s)`: the JSON string holding `s`.
#[verifier::external_body]
fn json_from_string(s: String) -> (r: serde_json::Value)
    ensures
        json_kind(r) == JsonModel::Text(s@),
{
    serde_json::Value::String(s)
}

impl ClaimValue {
    /// The JSON value this claim holds.
    pub closed spec fn json_value(&self) -> serde_json::Value {
        self.json
    }

    /// A claim holding a JSON string.
    pub fn text(s: String) -> (r: ClaimValue)
        ensures
            r@ == JsonModel::Text(s@),
    {
        let json = json_from_string(s.clone());
        ClaimValue { json, kind: ClaimKind::Text(s) }
    }

    /// A claim holding a JSON value, classified as a string, a boolean,
    /// null, an integer or another value.
    pub fn from_json(v: serde_json::Value) -> (r: ClaimValue)
        ensures
            r.json_value() == v,
            r@ == json_kind(v),
    {
        let kind = if let Some(s) = json_str_of(&v) {
            ClaimKind::Text(s)
        } else if let Some(b) = json_bool_of(&v) {
            ClaimKind::Bool(b)
        } else if json_is_null(&v) {
            ClaimKind::Null
        } else if let Some(i) = json_i64_of(&v) {
            ClaimKind::Integer(i as i128)
        } else if let Some(u) = json_u64_of(&v) {
            ClaimKind::Integer(u as i128)
        } else {
            ClaimKind::Other
        };
        ClaimValue { json: v, kind }
    }

    /// The JSON value the claim holds, whose kind is the claim's view.
    pub fn into_json(self) -> (r: serde_json::Value)
        ensures
            r == self.json_value(),
            json_kind(r) == self@,
    {
        proof {
            use_type_invariant(&self);
        }
        self.json
    }

    /// The text of a claim holding a JSON string.
    pub fn as_text(&self) -> (r: Option<&str>)
        ensures
            r matches Some(s) ==> self@ == JsonModel::Text(s@),
            r is None ==> !(self@ is Text),
    {
        match &self.kind {
            ClaimKind::Text(s) => Some(s.as_str()),
            _ => None,
        }
    }
}

/// The claim names that PASETO reserves (`Claims::REGISTERED_CLAIMS`).
pub open spec fn registered_claim(name: Seq<char>) -> bool {
    name == "iss"@ || name == "sub"@ || name == "aud"@ || name == "exp"@ || name == "nbf"@
        || name == "iat"@ || name == "jti"@
}

/// `Claims::new()`: a claims set holding `iat` and `nbf` (now) and `exp` (one
/// hour later) as RFC 3339 texts. The times come from the clock and are not
/// stated; the crate fails (with `InvalidClaim`) only when the time overflows.
#[verifier::external_body]
pub(crate) fn claims_new() -> (r: Result<Claims, String>)
    ensures
        r matches Ok(c) ==> claims_model(c).dom() == set!["iat"@, "nbf"@, "exp"@],
        r matches Ok(c) ==> (forall|k: Seq<char>| #[trigger] claims_model(c).dom().contains(k) ==> claims_model(c)[k] is Text),
        r matches Err(e) ==> e@ == "InvalidClaim"@,
{
    Claims::new().map_err(|e| e.to_string())
}

/// `Claims::issuer(iss)`: refuses an empty text (`InvalidClaim`), else sets
/// `iss` to the text.
#[verifier::external_body]
fn claims_issuer(c: &mut Claims, iss: &str) -> (r: Result<(), String>)
    ensures
        r is Ok <==> iss@.len() > 0,
        r matches Err(e) ==> e@ == "InvalidClaim"@,
        r is Ok ==> claims_model(*final(c)) == claims_model(*old(c)).insert("iss"@, JsonModel::Text(iss@)),
        r is Err ==> claims_model(*final(c)) == claims_model(*old(c)),
{
    c.issuer(iss).map_err(|e| e.to_string())
}

/// `Claims::subject(sub)`: refuses an empty text (`InvalidClaim`), else sets
/// `sub` to the text.
#[verifier::external_body]
fn claims_subject(c: &mut Claims, sub: &str) -> (r: Result<(), String>)
    ensures
        r is Ok <==> sub@.len() > 0,
        r matches Err(e) ==> e@ == "InvalidClaim"@,
        r is Ok ==> claims_model(*final(c)) == claims_model(*old(c)).insert("sub"@, JsonModel::Text(sub@)),
        r is Err ==> claims_model(*final(c)) == claims_model(*old(c)),
{
    c.subject(sub).map_err(|e| e.to_string())
}

/// `Claims::audience(aud)`: refuses an empty text (`InvalidClaim`), else sets
/// `aud` to the text.
#[verifier::external_body]
fn claims_audience(c: &mut Claims, aud: &str) -> (r: Result<(), String>)
    ensures
        r is Ok <==> aud@.len() > 0,
        r matches Err(e) ==> e@ == "InvalidClaim"@,
        r is Ok ==> claims_model(*final(c)) == claims_model(*old(c)).insert("aud"@, JsonModel::Text(aud@)),
        r is Err ==> claims_model(*final(c)) == claims_model(*old(c)),
{
    c.audience(aud).map_err(|e| e.to_string())
}

/// `Claims::token_identifier(jti)`: refuses an empty text (`InvalidClaim`),
/// else sets `jti` to the text.
#[verifier::external_body]
fn claims_token_identifier(c: &mut Claims, jti: &str) -> (r: Result<(), String>)
    ensures
        r is Ok <==> jti@.len() > 0,
        r matches Err(e) ==> e@ == "InvalidClaim"@,
        r is Ok ==> claims_model(*final(c)) == claims_model(*old(c)).insert("jti"@, JsonModel::Text(jti@)),
        r is Err ==> claims_model(*final(c)) == claims_model(*old(c)),
{
    c.token_identifier(jti).map_err(|e| e.to_string())
}

/// `Claims::add_additional(claim, value)`: refuses a reserved claim name
/// (`InvalidClaim`), else sets the claim to the value.
#[verifier::external_body]
fn claims_add_additional(c: &mut Claims, claim: &str, value: serde_json::Value) -> (r: Result<(), String>)
    ensures
        r is Ok <==> !registered_claim(claim@),
        r matches Err(e) ==> e@ == "InvalidClaim"@,
        r is Ok ==> claims_model(*final(c)) == claims_model(*old(c)).insert(claim@, json_kind(value)),
        r is Err ==> claims_model(*final(c)) == claims_model(*old(c)),
{
    c.add_additional(claim, value).map_err(|e| e.to_string())
}

/// Whether the `time` crate parses a text as an RFC 3339 date-time (what
/// `Claims::expiration` checks).
pub uninterp spec fn rfc3339_accepts(text: Seq<char>) -> bool;

/// `Claims::expiration(exp)`: refuses a text that is no RFC 3339 date-time
/// (`InvalidClaim`), else sets `exp` to the text.
#[verifier::external_body]
fn claims_expiration(c: &mut Claims, exp: &str) -> (r: Result<(), String>)
    ensures
        r is Ok <==> rfc3339_accepts(exp@),
        r matches Err(e) ==> e@ == "InvalidClaim"@,
        r is Ok ==> claims_model(*final(c)) == claims_model(*old(c)).insert("exp"@, JsonModel::Text(exp@)),
        r is Err ==> claims_model(*final(c)) == claims_model(*old(c)),
{
    c.expiration(exp).map_err(|e| e.to_string())
}

/// More seconds than the whole range of dates the clock library can hold.
pub const EXPIRY_SPAN_LIMIT: i64 = 20_000_000_000_000;

/// Whether an expiry offset runs past every representable date.
pub open spec fn expiry_out_of_range(expires_in_seconds: Option<i64>) -> bool {
    expires_in_seconds matches Some(s) && (s > EXPIRY_SPAN_LIMIT || s < -EXPIRY_SPAN_LIMIT)
}

/// The view of a payload: each claim name with its value's view.
pub open spec fn payload_view(payload: Seq<(String, ClaimValue)>) -> Seq<(Seq<char>, JsonModel)> {
    payload.map_values(|e: (String, ClaimValue)| (e.0@, e.1@))
}

/// The effect of one payload entry on the claims model, or the error text.
pub open spec fn claim_step(
    model: Map<Seq<char>, JsonModel>,
    name: Seq<char>,
    value: JsonModel,
) -> Result<Map<Seq<char>, JsonModel>, Seq<char>> {
    if name == "iss"@ || name == "sub"@ || name == "aud"@ || name == "jti"@ {
        match value {
            JsonModel::Text(s) => if s.len() == 0 {
                Err(setter_error_prefix(name) + "InvalidClaim"@)
            } else {
                Ok(model.insert(name, JsonModel::Text(s)))
            },
            _ => Ok(model),
        }
    } else if registered_claim(name) {
        Err("PASETO payload error: "@ + name + ": InvalidClaim"@)
    } else {
        Ok(model.insert(name, value))
    }
}

/// The prefix of the error for an empty registered string claim.
pub open spec fn setter_error_prefix(name: Seq<char>) -> Seq<char> {
    if name == "iss"@ {
        "PASETO issuer error: "@
    } else if name == "sub"@ {
        "PASETO subject error: "@
    } else if name == "aud"@ {
        "PASETO audience error: "@
    } else {
        "PASETO jti error: "@
    }
}

/// The claims model after applying the payload entries in order, or the
/// error text of the first entry that fails.
pub open spec fn apply_payload(
    model: Map<Seq<char>, JsonModel>,
    entries: Seq<(Seq<char>, JsonModel)>,
) -> Result<Map<Seq<char>, JsonModel>, Seq<char>>
    decreases entries.len(),
{
    if entries.len() == 0 {
        Ok(model)
    } else {
        match apply_payload(model, entries.drop_last()) {
            Err(e) => Err(e),
            Ok(m) => claim_step(m, entries.last().0, entries.last().1),
        }
    }
}

/// The error text of the first failing payload entry; it does not depend on
/// the claims already present.
pub open spec fn payload_error(entries: Seq<(Seq<char>, JsonModel)>) -> Option<Seq<char>>
    decreases entries.len(),
{
    if entries.len() == 0 {
        None
    } else {
        match payload_error(entries.drop_last()) {
            Some(e) => Some(e),
            None => match claim_step(Map::empty(), entries.last().0, entries.last().1) {
                Err(e) => Some(e),
                Ok(_) => None,
            },
        }
    }
}

/// Whether a payload entry fails does not depend on the claims model.
pub proof fn lemma_apply_payload_error(
    model: Map<Seq<char>, JsonModel>,
    entries: Seq<(Seq<char>, JsonModel)>,
)
    ensures
        apply_payload(model, entries) is Err <==> payload_error(entries) is Some,
        apply_payload(model, entries) matches Err(e) ==> payload_error(entries) == Some(e),
    decreases entries.len(),
{
    if entries.len() > 0 {
        lemma_apply_payload_error(model, entries.drop_last());
    }
}

/// Set the registered string claim `name` (one of `iss`, `sub`, `aud`, `jti`).
fn set_string_claim(claims: &mut Claims, name: &str, value: &str) -> (r: Result<(), String>)
    requires
        name@ == "iss"@ || name@ == "sub"@ || name@ == "aud"@ || name@ == "jti"@,
    ensures
        r is Ok <==> value@.len() > 0,
        r matches Err(e) ==> e@ == setter_error_prefix(name@) + "InvalidClaim"@,
        r is Ok ==> claims_model(*final(claims)) == claims_model(*old(claims)).insert(name@, JsonModel::Text(value@)),
{
    let (res, prefix) = if str_eq(name, "iss") {
        (claims_issuer(claims, value), "PASETO issuer error: ")
    } else if str_eq(name, "sub") {
        (claims_subject(claims, value), "PASETO subject error: ")
    } else if str_eq(name, "aud") {
        (claims_audience(claims, value), "PASETO audience error: ")
    } else {
        (claims_token_identifier(claims, value), "PASETO jti error: ")
    };
    match res {
        Ok(()) => Ok(()),
        Err(e) => Err(join_str(prefix, e.as_str())),
    }
}

/// Apply one payload entry to the claims.
fn apply_claim(claims: &mut Claims, name: String, value: ClaimValue) -> (r: Result<(), String>)
    ensures
        match claim_step(claims_model(*old(claims)), name@, value@) {
            Ok(m) => r is Ok && claims_model(*final(claims)) == m,
            Err(e) => r matches Err(x) && x@ == e,
        },
{
    let n = name.as_str();
    if str_eq(n, "iss") || str_eq(n, "sub") || str_eq(n, "aud") || str_eq(n, "jti") {
        match value.as_text() {
            Some(s) => set_string_claim(claims, n, s),
            None => Ok(()),
        }
    } else {
        match claims_add_additional(claims, n, value.into_json()) {
            Ok(()) => Ok(()),
            Err(e) => {
                proof {
                    reveal_strlit(": InvalidClaim");
                    reveal_strlit(": ");
                    reveal_strlit("InvalidClaim");
                    assert((": "@ + e@) =~= ": InvalidClaim"@);
                }
                let head = join_str("PASETO payload error: ", n);
                let msg = join_str(head.as_str(), ": ");
                Err(join_str(msg.as_str(), e.as_str()))
            },
        }
    }
}

/// Set `exp` to the expiration text obtained from the clock, if any.
pub fn apply_expiration(claims: &mut Claims, expiration: Option<String>) -> (r: Result<(), String>)
    ensures
        match expiration {
            None => r matches Err(e) && e@ == "Invalid expiration time"@,
            Some(t) => if rfc3339_accepts(t@) {
                r is Ok && claims_model(*final(claims)) == claims_model(*old(claims)).insert("exp"@, JsonModel::Text(t@))
            } else {
                r matches Err(e) && e@ == "PASETO expiration error: InvalidClaim"@
            },
        },
{
    match expiration {
        None => Err(String::from_str("Invalid expiration time")),
        Some(t) => match claims_expiration(claims, t.as_str()) {
            Ok(()) => Ok(()),
            Err(e) => {
                proof {
                    reveal_strlit("PASETO expiration error: ");
                    reveal_strlit("InvalidClaim");
                    reveal_strlit("PASETO expiration error: InvalidClaim");
                    assert(("PASETO expiration error: "@ + e@) =~= "PASETO expiration error: InvalidClaim"@);
                }
                Err(join_str("PASETO expiration error: ", e.as_str()))
            },
        },
    }
}

/// Copy a payload into the claims: `iss`, `sub`, `aud` and `jti` holding a
/// JSON string set the registered claim (a non-string value is skipped), any
/// other name is added as a custom claim (reserved names are refused). Then,
/// when an expiry in seconds is given, `exp` is set to now plus that many
/// seconds.
pub fn populate_claims(
    claims: &mut Claims,
    payload: Vec<(String, ClaimValue)>,
    expires_in_seconds: Option<i64>,
) -> (r: Result<Option<Expiry>, String>)
    requires
        expires_in_seconds matches Some(s) ==> -(i64::MAX / 1000) <= s <= i64::MAX / 1000,
    ensures
        match apply_payload(claims_model(*old(claims)), payload_view(payload@)) {
            Err(e) => r matches Err(x) && x@ == e,
            Ok(m) => match expires_in_seconds {
                None => r is Ok && claims_model(*final(claims)) == m,
                Some(_) => (r is Ok ==> exists|t: Seq<char>| rfc3339_accepts(t)
                    && claims_model(*final(claims)) == m.insert("exp"@, JsonModel::Text(t)))
                    && (r matches Err(x) ==> (x@ == "Invalid expiration time"@
                        || x@ == "PASETO expiration error: InvalidClaim"@))
                    && (expiry_out_of_range(expires_in_seconds) ==> (r matches Err(x)
                        && x@ == "Invalid expiration time"@)),
            },
        },
        r matches Ok(x) ==> (x is Some <==> expires_in_seconds is Some),
        r matches Ok(Some(e)) ==> ({
            &&& expires_in_seconds == Some(e.offset())
            &&& rfc3339_accepts(e@)
            &&& apply_payload(claims_model(*old(claims)), payload_view(payload@)) matches Ok(m)
            &&& claims_model(*final(claims)) == m.insert("exp"@, JsonModel::Text(e@))
        }),
{
    let ghost entries = payload_view(payload@);
    let ghost start = claims_model(*claims);
    let mut rest = payload;
    let mut i: usize = 0;
    let n = rest.len();
    while i < n
        invariant
            n == entries.len(),
            start == claims_model(*old(claims)),
            entries == payload_view(payload@),
            i <= n,
            rest@.len() == n - i,
            forall|j: int| 0 <= j < n - i ==> payload_view(rest@)[j] == #[trigger] entries[i + j],
            apply_payload(start, entries.take(i as int)) == Ok::<Map<Seq<char>, JsonModel>, Seq<char>>(claims_model(*claims)),
        decreases n - i,
    {
        let ghost before = rest@;
        let (name, value) = rest.remove(0);
        proof {
            assert(entries.take(i + 1).drop_last() =~= entries.take(i as int));
            assert(payload_view(before)[0] == entries[i + 0]);
            assert(before[0] == (name, value));
            assert(payload_view(before)[0] == (name@, value@));
            assert(entries[i as int] == (name@, value@));
            assert forall|j: int| 0 <= j < n - (i + 1) implies payload_view(rest@)[j] == #[trigger] entries[(i + 1) + j] by {
                assert(rest@[j] == before[j + 1]);
                assert(payload_view(before)[j + 1] == entries[i + (j + 1)]);
            }
        }
        let ghost model_before = claims_model(*claims);
        proof {
            let t = entries.take(i + 1);
            assert(t.last() == entries[i as int]);
            assert(apply_payload(start, t) == claim_step(model_before, entries[i as int].0, entries[i as int].1));
        }
        match apply_claim(claims, name, value) {
            Ok(()) => {},
            Err(e) => {
                proof {
                    assert(apply_payload(start, entries.take(i + 1)) == Err::<Map<Seq<char>, JsonModel>, Seq<char>>(e@));
                    lemma_apply_prefix_error(start, entries, (i + 1) as int);
                    assert(start == claims_model(*old(claims)));
                    assert(apply_payload(start, entries) == Err::<Map<Seq<char>, JsonModel>, Seq<char>>(e@));
                }
                return Err(e);
            },
        }
        i = i + 1;
    }
    assert(entries.take(n as int) =~= entries);
    match expires_in_seconds {
        None => Ok(None),
        Some(s) => match expiration_after(s) {
            Some(e) => match apply_expiration(claims, Some(e.text())) {
                Ok(()) => Ok(Some(e)),
                Err(x) => Err(x),
            },
            None => match apply_expiration(claims, None) {
                Ok(()) => Ok(None),
                Err(x) => Err(x),
            },
        },
    }
}

/// An error on a prefix of the payload is the error of the whole payload.
proof fn lemma_apply_prefix_error(
    model: Map<Seq<char>, JsonModel>,
    entries: Seq<(Seq<char>, JsonModel)>,
    k: int,
)
    requires
        0 <= k <= entries.len(),
        apply_payload(model, entries.take(k)) is Err,
    ensures
        apply_payload(model, entries) == apply_payload(model, entries.take(k)),
    decreases entries.len() - k,
{
    if k < entries.len() {
        assert(entries.take(k + 1).drop_last() =~= entries.take(k));
        lemma_apply_prefix_error(model, entries, k + 1);
    } else {
        assert(entries.take(k) =~= entries);
    }
}


/// A payload entry that is copied as it is: a custom claim, or `iss`, `sub`,
/// `aud` or `jti` holding a string.
pub open spec fn copied_entry(name: Seq<char>, value: JsonModel) -> bool {
    ||| !registered_claim(name)
    ||| ((name == "iss"@ || name == "sub"@ || name == "aud"@ || name == "jti"@) && value is Text)
}

/// A custom claim of the payload, or a registered string claim holding a
/// string, ends up in the claims with its value when the payload applies
/// without error and no later entry has the same name.
pub proof fn lemma_payload_claim_kept(
    model: Map<Seq<char>, JsonModel>,
    entries: Seq<(Seq<char>, JsonModel)>,
    i: int,
)
    requires
        0 <= i < entries.len(),
        apply_payload(model, entries) is Ok,
        copied_entry(entries[i].0, entries[i].1),
        forall|j: int| i < j < entries.len() ==> (#[trigger] entries[j]).0 != entries[i].0,
    ensures
        apply_payload(model, entries)->Ok_0.dom().contains(entries[i].0),
        apply_payload(model, entries)->Ok_0[entries[i].0] == entries[i].1,
    decreases entries.len(),
{
    let prefix = entries.drop_last();
    lemma_apply_payload_error(model, prefix);
    if apply_payload(model, prefix) is Err {
        lemma_apply_payload_error(model, entries);
    }
    if i < entries.len() - 1 {
        assert forall|j: int| i < j < prefix.len() implies (#[trigger] prefix[j]).0 != prefix[i].0 by {
            assert(prefix[j] == entries[j]);
        }
        lemma_payload_claim_kept(model, prefix, i);
        let last = entries.last();
        assert(last == entries[entries.len() - 1]);
        assert(last.0 != entries[i].0);
    }
}

/// Applying a payload only adds or replaces claims: every name present
/// before is present after.
pub proof fn lemma_apply_payload_keeps_names(
    model: Map<Seq<char>, JsonModel>,
    entries: Seq<(Seq<char>, JsonModel)>,
    name: Seq<char>,
)
    requires
        apply_payload(model, entries) is Ok,
        model.dom().contains(name),
    ensures
        apply_payload(model, entries)->Ok_0.dom().contains(name),
    decreases entries.len(),
{
    if entries.len() > 0 {
        let prefix = entries.drop_last();
        if apply_payload(model, prefix) is Err {
            lemma_apply_payload_error(model, prefix);
            lemma_apply_payload_error(model, entries);
        } else {
            lemma_apply_payload_keeps_names(model, prefix, name);
        }
    }
}

} // verus!
