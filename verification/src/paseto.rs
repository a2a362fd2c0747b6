//! PASETO v4 token handling: splitting a token into its parts.
use vstd::prelude::*;
use vstd::string::*;
use vstd::slice::slice_subrange;
use vstd::utf8::{valid_utf8, decode_utf8};
use crate::text::{str_eq, join_str};
use crate::codec::{
    utf8_of, base64_standard_decoding, decode_base64_standard, utf8_str, hex_decode, hex_encode,
    hex_text, hex_bytes, all_hex_digits, base64_padding, b64_unpadded, b64_letter, b64url_letter,
    base64_standard_text, base64url_text, base64url_padded_text,
};
use crate::claims::{
    ClaimValue, claims_new, claims_model, populate_claims, payload_view, payload_error,
    lemma_apply_payload_error, apply_payload, rfc3339_accepts, expiry_out_of_range, JsonModel,
    copied_entry, registered_claim, lemma_payload_claim_kept, lemma_apply_payload_keeps_names,
};
use pasetors::claims::{Claims, ClaimsValidationRules};
use pasetors::keys::{SymmetricKey, AsymmetricSecretKey, AsymmetricPublicKey};
use pasetors::version4::V4;
use pasetors::token::{UntrustedToken, Local, Public};

verus! {

/// Position of the first `'.'` in `s`, or `s.len()` when there is none.
pub open spec fn dot_index(s: Seq<char>) -> int
    decreases s.len(),
{
    if s.len() == 0 {
        0
    } else if s[0] == '.' {
        0
    } else {
        1 + dot_index(s.drop_first())
    }
}

/// The pieces that `str::splitn(n, '.')` yields for `s` (for `n >= 1`).
pub open spec fn dot_split(s: Seq<char>, n: nat) -> Seq<Seq<char>>
    decreases n,
{
    if n <= 1 || dot_index(s) >= s.len() {
        seq![s]
    } else {
        seq![s.take(dot_index(s))] + dot_split(s.skip(dot_index(s) + 1), (n - 1) as nat)
    }
}

/// `dot_index` is the least position holding a dot.
pub proof fn lemma_dot_index(s: Seq<char>, i: int)
    requires
        0 <= i <= s.len(),
        i < s.len() ==> s[i] == '.',
        forall|j: int| 0 <= j < i ==> s[j] != '.',
    ensures
        dot_index(s) == i,
    decreases s.len(),
{
    if s.len() > 0 && i > 0 {
        assert(s[0] != '.');
        lemma_dot_index(s.drop_first(), i - 1);
    }
}

/// Bounds of `dot_index`.
pub proof fn lemma_dot_index_bounds(s: Seq<char>)
    ensures
        0 <= dot_index(s) <= s.len(),
        dot_index(s) < s.len() ==> s[dot_index(s)] == '.',
        forall|j: int| 0 <= j < dot_index(s) ==> s[j] != '.',
    decreases s.len(),
{
    if s.len() > 0 && s[0] != '.' {
        lemma_dot_index_bounds(s.drop_first());
        assert forall|j: int| 0 <= j < dot_index(s) implies s[j] != '.' by {
            if j > 0 {
                assert(s[j] == s.drop_first()[j - 1]);
            }
        }
    }
}


/// The pieces joined back together with `'.'` between them.
pub open spec fn dot_join(parts: Seq<Seq<char>>) -> Seq<char>
    decreases parts.len(),
{
    if parts.len() <= 1 {
        if parts.len() == 1 { parts[0] } else { Seq::empty() }
    } else {
        parts[0] + seq!['.'] + dot_join(parts.drop_first())
    }
}

/// Whether a piece of text holds no `'.'`.
pub open spec fn dot_free(s: Seq<char>) -> bool {
    forall|j: int| 0 <= j < s.len() ==> s[j] != '.'
}

proof fn lemma_dot_split_rejoins(s: Seq<char>, n: nat)
    requires
        n >= 1,
    ensures
        1 <= dot_split(s, n).len() <= n,
        dot_join(dot_split(s, n)) == s,
    decreases n,
{
    lemma_dot_index_bounds(s);
    if n > 1 && dot_index(s) < s.len() {
        let d = dot_index(s);
        lemma_dot_split_rejoins(s.skip(d + 1), (n - 1) as nat);
        let parts = dot_split(s, n);
        assert(parts.drop_first() =~= dot_split(s.skip(d + 1), (n - 1) as nat));
        assert(s =~= s.take(d) + seq!['.'] + s.skip(d + 1));
    }
}

proof fn lemma_dot_index_of_joined(a: Seq<char>, b: Seq<char>)
    requires
        dot_free(a),
    ensures
        dot_index(a + seq!['.'] + b) == a.len(),
        (a + seq!['.'] + b).take(a.len() as int) == a,
        (a + seq!['.'] + b).skip(a.len() as int + 1) == b,
{
    let t = a + seq!['.'] + b;
    lemma_dot_index(t, a.len() as int);
    assert(t.take(a.len() as int) =~= a);
    assert(t.skip(a.len() as int + 1) =~= b);
}

/// A token that parses is its version, purpose and payload joined by dots,
/// followed by a dot and the footer when the token has a fourth part; the
/// footer is empty otherwise.
pub proof fn lemma_parse_token_rejoins(token: Seq<char>)
    requires
        parse_token_spec(token) is Ok,
    ensures
        ({
            let (v, pu, pl, f) = parse_token_spec(token)->Ok_0;
            token == v + seq!['.'] + pu + seq!['.'] + pl
                || token == v + seq!['.'] + pu + seq!['.'] + pl + seq!['.'] + f
        }),
        ({
            let (v, pu, pl, f) = parse_token_spec(token)->Ok_0;
            token == v + seq!['.'] + pu + seq!['.'] + pl ==> f.len() == 0
        }),
{
    let parts = dot_split(token, 4);
    lemma_dot_split_rejoins(token, 4);
    let (v, pu, pl, f) = parse_token_spec(token)->Ok_0;
    let p1 = parts.drop_first();
    let p2 = p1.drop_first();
    assert(p1[0] == pu && p2[0] == pl);
    if parts.len() == 3 {
        assert(dot_join(p2) == pl);
        assert(dot_join(p1) == pu + seq!['.'] + pl);
        assert(token =~= v + seq!['.'] + pu + seq!['.'] + pl);
    } else {
        let p3 = p2.drop_first();
        assert(p3[0] == f);
        assert(dot_join(p3) == f);
        assert(dot_join(p2) == pl + seq!['.'] + f);
        assert(dot_join(p1) == pu + seq!['.'] + (pl + seq!['.'] + f));
        assert(token =~= v + seq!['.'] + pu + seq!['.'] + pl + seq!['.'] + f);
        if token == v + seq!['.'] + pu + seq!['.'] + pl {
            assert(token.len() == v.len() + pu.len() + pl.len() + 2);
        }
    }
}

/// Joining a v4 version, a `local` or `public` purpose, a dot-free payload
/// and (optionally) a footer gives a token that parses back into exactly
/// those parts.
pub proof fn lemma_parse_token_of_parts(pu: Seq<char>, pl: Seq<char>, f: Seq<char>)
    requires
        pu == "local"@ || pu == "public"@,
        dot_free(pl),
    ensures
        parse_token_spec("v4"@ + seq!['.'] + pu + seq!['.'] + pl) == Ok::<
            (Seq<char>, Seq<char>, Seq<char>, Seq<char>),
            Seq<char>,
        >(("v4"@, pu, pl, Seq::empty())),
        parse_token_spec("v4"@ + seq!['.'] + pu + seq!['.'] + pl + seq!['.'] + f) == Ok::<
            (Seq<char>, Seq<char>, Seq<char>, Seq<char>),
            Seq<char>,
        >(("v4"@, pu, pl, f)),
{
    let v = "v4"@;
    reveal_strlit("v4");
    reveal_strlit("local");
    reveal_strlit("public");
    assert(dot_free(v));
    assert(dot_free(pu));
    let t3 = v + seq!['.'] + pu + seq!['.'] + pl;
    let t4 = t3 + seq!['.'] + f;
    let r3 = pu + seq!['.'] + pl;
    assert(t3 =~= v + seq!['.'] + r3);
    lemma_dot_index_of_joined(v, r3);
    lemma_dot_index_of_joined(pu, pl);
    lemma_dot_index(pl, pl.len() as int);
    assert(dot_split(pl, 2) == seq![pl]);
    assert(dot_split(r3, 3) =~= seq![pu, pl]);
    assert(dot_split(t3, 4) =~= seq![v, pu, pl]);
    let r4 = pu + seq!['.'] + (pl + seq!['.'] + f);
    assert(t4 =~= v + seq!['.'] + r4);
    lemma_dot_index_of_joined(v, r4);
    lemma_dot_index_of_joined(pu, pl + seq!['.'] + f);
    lemma_dot_index_of_joined(pl, f);
    assert(dot_split(f, 1) == seq![f]);
    assert(dot_split(pl + seq!['.'] + f, 2) =~= seq![pl, f]);
    assert(dot_split(r4, 3) =~= seq![pu, pl, f]);
    assert(dot_split(t4, 4) =~= seq![v, pu, pl, f]);
}

/// The four parts of a PASETO token `version.purpose.payload[.footer]`.
pub struct TokenParts<'a> {
    pub version: &'a str,
    pub purpose: &'a str,
    pub payload: &'a str,
    pub footer: &'a str,
}

/// What `parse_token` gives for a token: the parts, or the error text.
pub open spec fn parse_token_spec(token: Seq<char>) -> Result<
    (Seq<char>, Seq<char>, Seq<char>, Seq<char>),
    Seq<char>,
> {
    let parts = dot_split(token, 4);
    if parts.len() < 3 {
        Err("Invalid PASETO token: expected at least 3 dot-separated parts"@)
    } else if parts[0] != "v4"@ {
        Err("Unsupported PASETO version: "@ + parts[0])
    } else if parts[1] != "local"@ && parts[1] != "public"@ {
        Err("Unsupported PASETO purpose: "@ + parts[1])
    } else {
        Ok((parts[0], parts[1], parts[2], if parts.len() > 3 { parts[3] } else { Seq::empty() }))
    }
}

/// The view of a parse outcome, in the shape of `parse_token_spec`.
pub open spec fn token_parts_view(r: Result<TokenParts, String>) -> Result<
    (Seq<char>, Seq<char>, Seq<char>, Seq<char>),
    Seq<char>,
> {
    match r {
        Ok(p) => Ok((p.version@, p.purpose@, p.payload@, p.footer@)),
        Err(e) => Err(e@),
    }
}

/// First dot at or after `from`, if any.
fn find_dot(s: &str, from: usize) -> (r: Option<usize>)
    requires
        from <= s@.len(),
    ensures
        r == (if from + dot_index(s@.skip(from as int)) < s@.len() {
            Some((from + dot_index(s@.skip(from as int))) as usize)
        } else {
            None::<usize>
        }),
{
    let n = s.unicode_len();
    let mut i: usize = from;
    while i < n
        invariant
            n == s@.len(),
            from <= i <= n,
            forall|j: int| from <= j < i ==> s@[j] != '.',
        decreases n - i,
    {
        if s.get_char(i) == '.' {
            proof {
                lemma_dot_index(s@.skip(from as int), i - from);
            }
            return Some(i);
        }
        i = i + 1;
    }
    proof {
        lemma_dot_index(s@.skip(from as int), n - from);
    }
    None
}

/// Split a PASETO token into version, purpose, payload and footer, checking
/// that it is a v4 token of purpose `local` or `public`.
pub fn parse_token(token: &str) -> (r: Result<TokenParts<'_>, String>)
    ensures
        token_parts_view(r) == parse_token_spec(token@),
{
    let n = token.unicode_len();
    let ghost s = token@;
    let d1 = find_dot(token, 0);
    assert(s.skip(0) =~= s);
    let d1 = match d1 {
        None => {
            assert(dot_split(s, 4) =~= seq![s]);
            return Err(String::from_str("Invalid PASETO token: expected at least 3 dot-separated parts"));
        },
        Some(i) => i,
    };
    proof {
        lemma_dot_index_bounds(s);
    }
    let ghost rest1 = s.skip(d1 + 1);
    let d2 = find_dot(token, d1 + 1);
    let d2 = match d2 {
        None => {
            assert(dot_split(rest1, 3) =~= seq![rest1]);
            assert(dot_split(s, 4) =~= seq![s.take(d1 as int), rest1]);
            return Err(String::from_str("Invalid PASETO token: expected at least 3 dot-separated parts"));
        },
        Some(i) => i,
    };
    proof {
        lemma_dot_index_bounds(rest1);
        assert(rest1.skip(dot_index(rest1) + 1) =~= s.skip(d2 + 1));
        assert(rest1.take(dot_index(rest1)) =~= s.subrange(d1 + 1, d2 as int));
    }
    let ghost rest2 = s.skip(d2 + 1);
    let d3 = find_dot(token, d2 + 1);
    let version = token.substring_char(0, d1);
    let purpose = token.substring_char(d1 + 1, d2);
    let (payload, footer) = match d3 {
        None => {
            proof {
                assert(dot_split(rest2, 2) =~= seq![rest2]);
                assert(dot_split(rest1, 3) =~= seq![s.subrange(d1 + 1, d2 as int), rest2]);
                assert(s.take(d1 as int) =~= s.subrange(0, d1 as int));
                assert(rest2 =~= s.subrange(d2 + 1, n as int));
                assert(dot_split(s, 4) =~= seq![
                    s.subrange(0, d1 as int),
                    s.subrange(d1 + 1, d2 as int),
                    s.subrange(d2 + 1, n as int),
                ]);
            }
            (token.substring_char(d2 + 1, n), token.substring_char(n, n))
        },
        Some(i) => {
            proof {
                lemma_dot_index_bounds(rest2);
                let rest3 = rest2.skip(dot_index(rest2) + 1);
                assert(rest3 =~= s.subrange(i + 1, n as int));
                assert(rest2.take(dot_index(rest2)) =~= s.subrange(d2 + 1, i as int));
                assert(dot_split(rest3, 1) =~= seq![rest3]);
                assert(s.take(d1 as int) =~= s.subrange(0, d1 as int));
                assert(dot_split(rest2, 2) =~= seq![
                    s.subrange(d2 + 1, i as int),
                    s.subrange(i + 1, n as int),
                ]);
                assert(dot_split(rest1, 3) =~= seq![s.subrange(d1 + 1, d2 as int)] + dot_split(rest2, 2));
                assert(dot_split(s, 4) =~= seq![
                    s.subrange(0, d1 as int),
                    s.subrange(d1 + 1, d2 as int),
                    s.subrange(d2 + 1, i as int),
                    s.subrange(i + 1, n as int),
                ]);
            }
            (token.substring_char(d2 + 1, i), token.substring_char(i + 1, n))
        },
    };
    proof {
        assert(footer@.len() == 0 ==> footer@ =~= Seq::<char>::empty());
    }
    if !str_eq(version, "v4") {
        return Err(join_str("Unsupported PASETO version: ", version));
    }
    if !str_eq(purpose, "local") && !str_eq(purpose, "public") {
        return Err(join_str("Unsupported PASETO purpose: ", purpose));
    }
    Ok(TokenParts { version, purpose, payload, footer })
}


#[verifier::external_type_specification]
#[verifier::external_body]
#[verifier::reject_recursive_types(K)]
#[verifier::reject_recursive_types(V)]
pub struct ExJsonMap<K, V>(serde_json::Map<K, V>);

#[verifier::external_type_specification]
#[verifier::external_body]
pub struct ExJsonValue(serde_json::Value);

/// What `serde_json::from_str::<Map<String, Value>>` gives for a text: the
/// object it holds, as a map from each key to the `JsonModel` of its value,
/// or the text of the parse error.
pub uninterp spec fn json_object_parse(text: Seq<char>) -> Result<Map<Seq<char>, JsonModel>, Seq<char>>;

/// The contents of a `serde_json::Map<String, Value>`: each key with the
/// `json_kind` of its value.
pub uninterp spec fn json_map_model(m: serde_json::Map<String, serde_json::Value>) -> Map<Seq<char>, JsonModel>;

/// Whether a text is one JSON object holding `model`.
pub open spec fn json_parses_to(text: Seq<char>, model: Map<Seq<char>, JsonModel>) -> bool {
    json_object_parse(text) matches Ok(m) && m == model
}

/// `None` when a text is one JSON object, else the text of the parse error.
pub open spec fn json_object_rejection(text: Seq<char>) -> Option<Seq<char>> {
    match json_object_parse(text) {
        Ok(_) => None,
        Err(e) => Some(e),
    }
}

/// `serde_json::from_str::<Map<String, Value>>(text)`, the error turned into
/// its `Display` text. What it gives is the named `json_object_parse` of the
/// text: the map it returns holds that object.
#[verifier::external_body]
fn parse_json_object(text: &str) -> (r: Result<serde_json::Map<String, serde_json::Value>, String>)
    ensures
        r matches Ok(m) ==> (json_object_parse(text@) matches Ok(x) && x == json_map_model(m)),
        r matches Err(e) ==> (json_object_parse(text@) matches Err(x) && x == e@),
{
    serde_json::from_str::<serde_json::Map<String, serde_json::Value>>(text).map_err(|e| e.to_string())
}

/// A JSON object of claims together with the JSON text it was parsed from,
/// which is its view.
pub struct ClaimsObject {
    map: serde_json::Map<String, serde_json::Value>,
    text: Ghost<Seq<char>>,
}

impl View for ClaimsObject {
    type V = Seq<char>;

    closed spec fn view(&self) -> Seq<char> {
        self.text@
    }
}

impl ClaimsObject {
    /// The parsed JSON object this value holds.
    pub closed spec fn map_value(&self) -> serde_json::Map<String, serde_json::Value> {
        self.map
    }

    /// The object the map holds, key by key.
    pub closed spec fn model(&self) -> Map<Seq<char>, JsonModel> {
        json_map_model(self.map)
    }

    /// The parsed JSON object.
    pub fn into_map(self) -> (r: serde_json::Map<String, serde_json::Value>)
        ensures
            r == self.map_value(),
            json_map_model(r) == self.model(),
    {
        self.map
    }
}

/// The outcome of a step producing claims, by views.
pub open spec fn claims_outcome(r: Result<ClaimsObject, String>) -> Result<Seq<char>, Seq<char>> {
    match r {
        Ok(o) => Ok(o@),
        Err(e) => Err(e@),
    }
}

/// A claims object holds the object that its text parses to.
pub open spec fn holds_parsed(r: Result<ClaimsObject, String>) -> bool {
    r matches Ok(o) ==> json_parses_to(o@, o.model())
}

/// What `parse_claims` gives: the JSON text when it is one JSON object.
pub open spec fn parse_claims_spec(payload: Seq<char>) -> Result<Seq<char>, Seq<char>> {
    match json_object_rejection(payload) {
        None => Ok(payload),
        Some(m) => Err("PASETO payload parse error: "@ + m),
    }
}

/// Parse a token payload as a JSON object of claims.
pub fn parse_claims(payload: &str) -> (r: Result<ClaimsObject, String>)
    ensures
        claims_outcome(r) == parse_claims_spec(payload@),
        holds_parsed(r),
{
    match parse_json_object(payload) {
        Ok(map) => Ok(ClaimsObject { map, text: Ghost(payload@) }),
        Err(e) => Err(join_str("PASETO payload parse error: ", e.as_str())),
    }
}

/// URL-safe base64 letters mapped onto the standard alphabet.
pub open spec fn url_to_standard(c: char) -> char {
    if c == '-' {
        '+'
    } else if c == '_' {
        '/'
    } else {
        c
    }
}

/// A text with the URL-safe letters mapped onto the standard alphabet.
pub open spec fn standardize_chars(s: Seq<char>) -> Seq<char> {
    s.map_values(|c: char| url_to_standard(c))
}

/// The standard padded base64 text that an unpadded URL-safe one stands for.
pub open spec fn base64url_standardized(input: Seq<char>) -> Seq<char> {
    standardize_chars(input) + base64_padding(utf8_of(input).len())
}

/// A URL-safe letter is ASCII and maps onto the standard letter for the same
/// value.
proof fn lemma_b64url_letter(v: u8)
    requires
        v < 64,
    ensures
        '\0' <= b64url_letter(v) <= '\u{7f}',
        url_to_standard(b64url_letter(v)) == b64_letter(v),
{
}

/// Unpadded URL-safe base64 is ASCII, maps letter by letter onto the
/// standard text, and its length is never one more than a multiple of four.
proof fn lemma_b64url_unpadded(b: Seq<u8>)
    ensures
        standardize_chars(b64_unpadded(b, true)) == b64_unpadded(b, false),
        vstd::utf8::is_ascii_chars(b64_unpadded(b, true)),
        b64_unpadded(b, true).len() % 4 != 1,
    decreases b.len(),
{
    let u = b64_unpadded(b, true);
    let s = b64_unpadded(b, false);
    if b.len() == 0 {
        assert(standardize_chars(u) =~= s);
    } else if b.len() == 1 {
        lemma_b64url_letter(b[0] / 4);
        lemma_b64url_letter(((b[0] % 4) * 16) as u8);
        assert(standardize_chars(u) =~= s);
    } else if b.len() == 2 {
        lemma_b64url_letter(b[0] / 4);
        lemma_b64url_letter(((b[0] % 4) * 16 + b[1] / 16) as u8);
        lemma_b64url_letter(((b[1] % 16) * 4) as u8);
        assert(standardize_chars(u) =~= s);
    } else {
        let rest = b.skip(3);
        lemma_b64url_unpadded(rest);
        lemma_b64url_letter(b[0] / 4);
        lemma_b64url_letter(((b[0] % 4) * 16 + b[1] / 16) as u8);
        lemma_b64url_letter(((b[1] % 16) * 4 + b[2] / 64) as u8);
        lemma_b64url_letter(b[2] % 64);
        let ru = b64_unpadded(rest, true);
        let rs = b64_unpadded(rest, false);
        assert(u.len() == 4 + ru.len());
        assert forall|i: int| 0 <= i < u.len() implies '\0' <= #[trigger] u[i] <= '\u{7f}' by {
            if i >= 4 {
                assert(u[i] == ru[i - 4]);
            }
        }
        assert forall|i: int| 0 <= i < u.len() implies #[trigger] standardize_chars(u)[i] == s[i] by {
            if i >= 4 {
                assert(u[i] == ru[i - 4]);
                assert(s[i] == rs[i - 4]);
                assert(standardize_chars(ru)[i - 4] == rs[i - 4]);
            }
        }
        assert(standardize_chars(u) =~= s);
    }
}

/// Mapping the URL-safe base64 text of some bytes (padded or not) onto the
/// standard alphabet and padding it gives their standard base64 text.
pub proof fn lemma_b64url_standardized(b: Seq<u8>)
    ensures
        base64url_standardized(base64url_text(b)) == base64_standard_text(b),
        base64url_standardized(base64url_padded_text(b)) == base64_standard_text(b),
{
    let u = b64_unpadded(b, true);
    let s = b64_unpadded(b, false);
    lemma_b64url_unpadded(b);
    assert(s.len() == u.len());
    vstd::utf8::is_ascii_chars_encode_utf8(u);
    let p = base64_padding(u.len());
    let up = u + p;
    assert(vstd::utf8::is_ascii_chars(up)) by {
        assert forall|i: int| 0 <= i < up.len() implies '\0' <= #[trigger] up[i] <= '\u{7f}' by {
            if i >= u.len() {
                assert(up[i] == p[i - u.len()]);
            }
        }
    }
    vstd::utf8::is_ascii_chars_encode_utf8(up);
    assert(standardize_chars(up) =~= s + p);
    assert(up.len() % 4 == 0);
    assert(base64_padding(up.len()) =~= Seq::empty());
    assert(base64url_standardized(up) =~= s + p);
    assert(base64url_standardized(u) =~= s + p);
}

/// What `base64url_decode` gives for a text.
pub open spec fn base64url_decode_spec(input: Seq<char>) -> Result<Seq<u8>, Seq<char>> {
    match base64_standard_decoding(base64url_standardized(input)) {
        Ok(b) => Ok(b),
        Err(m) => Err("Base64 decode error: "@ + m),
    }
}

/// Whether `base64url_decode` decodes a text to these bytes.
pub open spec fn base64url_decodes_to(input: Seq<char>, bytes: Seq<u8>) -> bool {
    base64url_decode_spec(input) == Ok::<Seq<u8>, Seq<char>>(bytes)
}

/// The pieces of a split hold no dot, except the last one when the split
/// stopped at its limit.
proof fn lemma_dot_split_pieces(s: Seq<char>, n: nat)
    requires
        n >= 1,
    ensures
        forall|k: int| 0 <= k < dot_split(s, n).len()
            && (k + 1 < dot_split(s, n).len() || dot_split(s, n).len() < n)
            ==> dot_free(#[trigger] dot_split(s, n)[k]),
    decreases n,
{
    lemma_dot_index_bounds(s);
    if n <= 1 || dot_index(s) >= s.len() {
        if n > 1 {
            assert(dot_free(s));
        }
    } else {
        let d = dot_index(s);
        let rest = s.skip(d + 1);
        lemma_dot_split_rejoins(rest, (n - 1) as nat);
        lemma_dot_split_pieces(rest, (n - 1) as nat);
        let parts = dot_split(s, n);
        assert(parts == seq![s.take(d)] + dot_split(rest, (n - 1) as nat));
        assert forall|k: int| 0 <= k < parts.len() && (k + 1 < parts.len() || parts.len() < n)
            implies dot_free(#[trigger] parts[k]) by {
            if k == 0 {
                assert(parts[0] == s.take(d));
            } else {
                assert(parts[k] == dot_split(rest, (n - 1) as nat)[k - 1]);
            }
        }
    }
}

/// Reading the claims of a public token looks at its payload part alone:
/// a token with a footer gives exactly what the same token without its
/// footer gives.
pub proof fn lemma_public_payload_ignores_footer(token: Seq<char>, pl: Seq<char>, f: Seq<char>)
    requires
        parse_token_spec(token) == Ok::<(Seq<char>, Seq<char>, Seq<char>, Seq<char>), Seq<char>>(
            ("v4"@, "public"@, pl, f),
        ),
    ensures
        parse_token_spec("v4.public."@ + pl) == Ok::<(Seq<char>, Seq<char>, Seq<char>, Seq<char>), Seq<char>>(
            ("v4"@, "public"@, pl, Seq::empty()),
        ),
        public_payload_spec(token) == public_payload_spec("v4.public."@ + pl),
{
    lemma_dot_split_pieces(token, 4);
    let parts = dot_split(token, 4);
    lemma_dot_split_rejoins(token, 4);
    assert(parts[2] == pl);
    assert(dot_free(parts[2]));
    reveal_strlit("public");
    reveal_strlit("v4");
    reveal_strlit("v4.public.");
    lemma_parse_token_of_parts("public"@, pl, f);
    assert("v4.public."@ + pl =~= "v4"@ + seq!['.'] + "public"@ + seq!['.'] + pl);
}

/// Decode unpadded URL-safe base64: pad to a multiple of four, switch to the
/// standard alphabet and decode with the standard engine.
pub fn base64url_decode(input: &str) -> (r: Result<Vec<u8>, String>)
    ensures
        crate::codec::bytes_outcome(r) == base64url_decode_spec(input@),
        forall|b: Seq<u8>| #[trigger] base64url_text(b) == input@
            ==> crate::codec::bytes_outcome(r) == Ok::<Seq<u8>, Seq<char>>(b),
        forall|b: Seq<u8>| #[trigger] base64url_padded_text(b) == input@
            ==> crate::codec::bytes_outcome(r) == Ok::<Seq<u8>, Seq<char>>(b),
{
    let n = input.unicode_len();
    let mut b64 = String::new();
    let mut i: usize = 0;
    while i < n
        invariant
            n == input@.len(),
            i <= n,
            b64@ == standardize_chars(input@.take(i as int)),
        decreases n - i,
    {
        let c = input.get_char(i);
        proof {
            reveal_strlit("+");
            reveal_strlit("/");
        }
        if c == '-' {
            b64.append("+");
        } else if c == '_' {
            b64.append("/");
        } else {
            b64.append(input.substring_char(i, i + 1));
        }
        assert(input@.take(i + 1) =~= input@.take(i as int).push(c));
        assert(b64@ =~= standardize_chars(input@.take(i + 1)));
        i = i + 1;
    }
    assert(input@.take(n as int) =~= input@);
    assert(b64@ == standardize_chars(input@));
    let byte_len = input.as_bytes().len();
    assert(byte_len as nat == utf8_of(input@).len());
    proof {
        reveal_strlit("=");
        reveal_strlit("==");
    }
    if byte_len % 4 == 2 {
        b64.append("==");
    } else if byte_len % 4 == 3 {
        b64.append("=");
    }
    assert(b64@ =~= base64url_standardized(input@));
    proof {
        assert forall|b: Seq<u8>| #[trigger] base64url_text(b) == input@ implies base64_standard_text(b) == b64@ by {
            lemma_b64url_standardized(b);
        }
        assert forall|b: Seq<u8>| #[trigger] base64url_padded_text(b) == input@ implies base64_standard_text(b) == b64@ by {
            lemma_b64url_standardized(b);
        }
    }
    match decode_base64_standard(b64.as_str()) {
        Ok(bytes) => Ok(bytes),
        Err(e) => Err(join_str("Base64 decode error: ", e.as_str())),
    }
}

/// What `decode_public_payload` gives for a token: the claims JSON text, or
/// the error text.
pub open spec fn public_payload_spec(token: Seq<char>) -> Result<Seq<char>, Seq<char>> {
    match parse_token_spec(token) {
        Err(e) => Err(e),
        Ok((_v, pu, pl, _f)) => if pu != "public"@ {
            Err("Only v4.public tokens have a decodable payload"@)
        } else {
            match base64url_decode_spec(pl) {
                Err(e) => Err(e),
                Ok(bytes) => if bytes.len() < 64 {
                    Err("Public token payload too short to contain signature"@)
                } else if !valid_utf8(bytes.take(bytes.len() - 64)) {
                    Err("Invalid UTF-8 in payload"@)
                } else {
                    parse_claims_spec(decode_utf8(bytes.take(bytes.len() - 64)))
                },
            }
        },
    }
}

/// Read the claims of a `v4.public` token without checking its signature: the
/// payload part holds the claims JSON followed by a 64-byte signature.
pub fn decode_public_payload(token: &str) -> (r: Result<ClaimsObject, String>)
    ensures
        claims_outcome(r) == public_payload_spec(token@),
        holds_parsed(r),
{
    let parts = match parse_token(token) {
        Ok(p) => p,
        Err(e) => return Err(e),
    };
    if !str_eq(parts.purpose, "public") {
        return Err(String::from_str("Only v4.public tokens have a decodable payload"));
    }
    let decoded = match base64url_decode(parts.payload) {
        Ok(d) => d,
        Err(e) => return Err(e),
    };
    if decoded.len() < 64 {
        return Err(String::from_str("Public token payload too short to contain signature"));
    }
    let json_bytes = slice_subrange(decoded.as_slice(), 0, decoded.len() - 64);
    assert(json_bytes@ =~= decoded@.take(decoded@.len() - 64));
    let payload_str = match utf8_str(json_bytes) {
        Some(s) => s,
        None => return Err(String::from_str("Invalid UTF-8 in payload")),
    };
    parse_claims(payload_str)
}


#[verifier::external_type_specification]
#[verifier::external_body]
pub struct ExV4(V4);

#[verifier::external_type_specification]
#[verifier::external_body]
pub struct ExLocal(Local);

#[verifier::external_type_specification]
#[verifier::external_body]
pub struct ExPublic(Public);

#[verifier::external_type_specification]
#[verifier::external_body]
#[verifier::reject_recursive_types(V)]
pub struct ExSymmetricKey<V>(SymmetricKey<V>);

#[verifier::external_type_specification]
#[verifier::external_body]
#[verifier::reject_recursive_types(V)]
pub struct ExAsymmetricSecretKey<V>(AsymmetricSecretKey<V>);

#[verifier::external_type_specification]
#[verifier::external_body]
#[verifier::reject_recursive_types(V)]
pub struct ExAsymmetricPublicKey<V>(AsymmetricPublicKey<V>);

#[verifier::external_type_specification]
#[verifier::external_body]
#[verifier::reject_recursive_types(T)]
#[verifier::reject_recursive_types(V)]
pub struct ExUntrustedToken<T, V>(UntrustedToken<T, V>);

#[verifier::external_type_specification]
#[verifier::external_body]
pub struct ExClaimsValidationRules(ClaimsValidationRules);

/// Whether `s` starts with `prefix`.
pub open spec fn has_prefix(s: Seq<char>, prefix: Seq<char>) -> bool {
    prefix.len() <= s.len() && s.take(prefix.len() as int) == prefix
}

/// A text starts with any prefix it was made from.
pub proof fn lemma_has_prefix_concat(prefix: Seq<char>, rest: Seq<char>)
    ensures
        has_prefix(prefix + rest, prefix),
{
    assert((prefix + rest).take(prefix.len() as int) =~= prefix);
}

/// A letter of the URL-safe base64 alphabet.
pub open spec fn base64url_char(c: char) -> bool {
    ('A' <= c <= 'Z') || ('a' <= c <= 'z') || ('0' <= c <= '9') || c == '-' || c == '_'
}

/// A token made of `header` followed by a non-empty unpadded URL-safe base64
/// body and no footer.
pub open spec fn token_shape(t: Seq<char>, header: Seq<char>) -> bool {
    &&& t.len() > header.len()
    &&& t.take(header.len() as int) == header
    &&& forall|i: int| header.len() <= i < t.len() ==> base64url_char(#[trigger] t[i])
}

/// A token of the shape `v4.<purpose>.<body>` parses back into `v4`, the
/// purpose, the body and an empty footer.
pub proof fn lemma_shaped_token_parses(t: Seq<char>, purpose: Seq<char>)
    requires
        purpose == "local"@ || purpose == "public"@,
        token_shape(t, "v4."@ + purpose + "."@),
    ensures
        parse_token_spec(t) == Ok::<(Seq<char>, Seq<char>, Seq<char>, Seq<char>), Seq<char>>(
            ("v4"@, purpose, t.skip(("v4."@ + purpose + "."@).len() as int), Seq::empty()),
        ),
{
    reveal_strlit("v4.");
    reveal_strlit(".");
    reveal_strlit("v4");
    let header = "v4."@ + purpose + "."@;
    let body = t.skip(header.len() as int);
    assert(dot_free(body)) by {
        assert forall|j: int| 0 <= j < body.len() implies body[j] != '.' by {
            assert(body[j] == t[header.len() + j]);
            assert(base64url_char(t[header.len() + j]));
        }
    }
    assert(t =~= "v4"@ + seq!['.'] + purpose + seq!['.'] + body) by {
        assert(t =~= t.take(header.len() as int) + body);
    }
    lemma_parse_token_of_parts(purpose, body, Seq::empty());
}

/// SHA-256 of a byte string (what `sha2::Sha256` computes).
pub uninterp spec fn sha256_digest(data: Seq<u8>) -> Seq<u8>;

/// `Sha256::digest(data)`: the named `sha256_digest` of the data, 32 bytes.
#[verifier::external_body]
fn sha256(data: &[u8]) -> (r: Vec<u8>)
    ensures
        r@ == sha256_digest(data@),
        r@.len() == 32,
{
    <sha2::Sha256 as sha2::Digest>::digest(data).to_vec()
}

/// `SymmetricKey::<V4>::from(bytes)`, which accepts exactly 32 bytes; the key
/// is made of those bytes.
#[verifier::external_body]
fn symmetric_key_from(bytes: &[u8]) -> (r: Option<LocalKey>)
    ensures
        r is Some <==> bytes@.len() == 32,
        r matches Some(k) ==> k@ == bytes@,
{
    SymmetricKey::<V4>::from(bytes).ok().map(|key| LocalKey { key, material: Ghost(bytes@) })
}

/// A PASETO v4 local key together with its 32 key bytes, which are its view.
pub struct LocalKey {
    key: SymmetricKey<V4>,
    material: Ghost<Seq<u8>>,
}

impl View for LocalKey {
    type V = Seq<u8>;

    closed spec fn view(&self) -> Seq<u8> {
        self.material@
    }
}

/// `SymmetricKey::as_bytes`, copied out: the bytes the key was made from
/// (the crate keeps a copy of them).
#[verifier::external_body]
fn symmetric_key_bytes(key: &LocalKey) -> (r: Vec<u8>)
    ensures
        r@ == key@,
{
    key.key.as_bytes().to_vec()
}

impl LocalKey {
    /// The 32 key bytes.
    pub fn as_bytes(&self) -> (r: Vec<u8>)
        ensures
            r@ == self@,
    {
        symmetric_key_bytes(self)
    }
}

/// The v4 local key for a secret: the SHA-256 digest of its UTF-8 bytes.
pub fn derive_symmetric_key(secret: &str) -> (r: LocalKey)
    ensures
        r@ == sha256_digest(utf8_of(secret@)),
{
    let digest = sha256(secret.as_bytes());
    symmetric_key_from(digest.as_slice()).unwrap()
}

/// What version-4 local decryption (`UntrustedToken::<Local, V4>::try_from`,
/// then `LocalToken::decrypt` with no footer and no implicit assertion) gives
/// for a token under the key with these bytes: the plaintext, if it succeeds.
pub uninterp spec fn local_plaintext(key: Seq<u8>, token: Seq<char>) -> Option<Seq<u8>>;

/// What version-4 public verification (`UntrustedToken::<Public, V4>::try_from`,
/// then `PublicToken::verify` with no footer and no implicit assertion) gives
/// for a token under the public key with these bytes: the signed message, if
/// the signature checks out.
pub uninterp spec fn public_message(key: Seq<u8>, token: Seq<char>) -> Option<Seq<u8>>;

/// The JSON text `Claims::to_string` writes for a claims set.
pub uninterp spec fn claims_json(c: Claims) -> Seq<char>;

/// The claims text is a JSON object holding exactly the claims, as
/// `JsonModel` sees them: strings, booleans, null and integers are written
/// and read back unchanged, and any other value is written and read back as
/// a number with a fraction or an exponent, an array or an object.
pub open spec fn claims_json_holds(c: Claims) -> bool {
    json_object_parse(claims_json(c)) matches Ok(m) && m == claims_model(c)
}

/// `pasetors::local::encrypt(key, claims, None, None)` with a fresh random
/// nonce. A token it makes is `v4.local.` followed by unpadded URL-safe
/// base64 and no footer, and decrypting it under the same key gives the
/// claims' JSON text (`Claims::to_string`), which parses back to the claims.
/// Which token comes out (the nonce) is not stated.
#[verifier::external_body]
fn local_encrypt(key: &LocalKey, claims: &Claims) -> (r: Result<String, String>)
    ensures
        r matches Ok(t) ==> token_shape(t@, "v4.local."@),
        r matches Ok(t) ==> local_plaintext(key@, t@) == Some(utf8_of(claims_json(*claims))),
        r matches Ok(t) ==> claims_json_holds(*claims),
{
    pasetors::local::encrypt(&key.key, claims, None, None).map_err(|e| e.to_string())
}

/// The default claim checks of `ClaimsValidationRules::new()`: `nbf`,
/// `iat` and `exp` must be present as RFC 3339 texts and hold at the current
/// time; tokens without `exp` are refused.
pub struct ValidationRules {
    rules: ClaimsValidationRules,
}

/// `ClaimsValidationRules::new()`.
#[verifier::external_body]
fn validation_rules() -> ValidationRules {
    ValidationRules { rules: ClaimsValidationRules::new() }
}

/// A registered time claim (`nbf`, `iat`, `exp`) present as an RFC 3339 text.
pub open spec fn valid_time_claim(m: Map<Seq<char>, JsonModel>, name: Seq<char>) -> bool {
    m.dom().contains(name) && (m[name] matches JsonModel::Text(t) && rfc3339_accepts(t))
}

/// A registered time claim, if present, is an RFC 3339 text.
pub open spec fn time_claim_well_typed(m: Map<Seq<char>, JsonModel>, name: Seq<char>) -> bool {
    m.dom().contains(name) ==> (m[name] matches JsonModel::Text(t) && rfc3339_accepts(t))
}

/// What `Claims::from_string` requires of the registered claims present:
/// each is a string, and `nbf`, `iat` and `exp` are RFC 3339 texts.
pub open spec fn registered_well_typed(m: Map<Seq<char>, JsonModel>) -> bool {
    &&& forall|k: Seq<char>| #[trigger] m.dom().contains(k) && registered_claim(k) ==> m[k] is Text
    &&& time_claim_well_typed(m, "nbf"@)
    &&& time_claim_well_typed(m, "iat"@)
    &&& time_claim_well_typed(m, "exp"@)
}

/// The errors the default claim checks (`Claims::from_string`, then
/// `validate_claims` of `ClaimsValidationRules::new()`) can give for a
/// payload text, in their `Display` text. Only `Nbf`, `Iat` and `Exp`
/// depend on the clock; the others follow from the text alone.
pub open spec fn claims_check_error(text: Seq<char>, e: Seq<char>) -> bool {
    match json_object_parse(text) {
        Err(_) => e == "ClaimInvalidJson"@,
        Ok(m) => if !registered_well_typed(m) {
            e == "InvalidClaim"@
        } else if !m.dom().contains("nbf"@) {
            e == "ClaimValidation(NoNbf)"@
        } else if !m.dom().contains("iat"@) {
            e == "ClaimValidation(Nbf)"@ || e == "ClaimValidation(NoIat)"@
        } else if !m.dom().contains("exp"@) {
            e == "ClaimValidation(Nbf)"@ || e == "ClaimValidation(Iat)"@ || e == "ClaimValidation(NoExp)"@
        } else {
            e == "ClaimValidation(Nbf)"@ || e == "ClaimValidation(Iat)"@ || e == "ClaimValidation(Exp)"@
        },
    }
}

/// Why opening a token can fail: the token does not open under the key
/// (`None`), or it opens and the claim checks on its content give `e`.
pub open spec fn decrypt_refusal(content: Option<Seq<u8>>, e: Seq<char>) -> bool {
    content matches Some(b) ==> claims_check_error(decode_utf8(b), e)
}

/// A token that opens under the key to claims passing the checks that do
/// not depend on the clock is refused only because of the clock: its `nbf`
/// or `iat` lies ahead or its `exp` has passed.
pub proof fn lemma_refusal_of_valid_claims_is_clock(b: Seq<u8>, e: Seq<char>)
    requires
        decrypt_refusal(Some(b), e),
        json_object_parse(decode_utf8(b)) matches Ok(m) && validated_claims(m),
    ensures
        e == "ClaimValidation(Nbf)"@ || e == "ClaimValidation(Iat)"@ || e == "ClaimValidation(Exp)"@,
{
}

/// Claims that pass the default checks, leaving the clock aside: `nbf`,
/// `iat` and `exp` are RFC 3339 texts, and every registered claim present
/// is a string.
pub open spec fn validated_claims(m: Map<Seq<char>, JsonModel>) -> bool {
    &&& valid_time_claim(m, "nbf"@)
    &&& valid_time_claim(m, "iat"@)
    &&& valid_time_claim(m, "exp"@)
    &&& forall|k: Seq<char>| #[trigger] m.dom().contains(k) && registered_claim(k) ==> m[k] is Text
}

/// What `UntrustedToken::<Local, V4>::try_from(token)` gives: `None` when the
/// text has the `v4.local.` form with a well-encoded payload, else the text of
/// its error.
pub uninterp spec fn local_token_rejection(token: Seq<char>) -> Option<Seq<char>>;

/// A `v4.local` token read for decryption, together with its text, which is
/// its view.
pub struct LocalTokenIn {
    token: UntrustedToken<Local, V4>,
    text: Ghost<Seq<char>>,
}

impl View for LocalTokenIn {
    type V = Seq<char>;

    closed spec fn view(&self) -> Seq<char> {
        self.text@
    }
}

/// `UntrustedToken::<Local, V4>::try_from(token)`, the error turned into its
/// `Display` text; the token read is that text's.
#[verifier::external_body]
fn untrusted_local_token(token: &str) -> (r: Result<LocalTokenIn, String>)
    ensures
        r is Ok <==> local_token_rejection(token@) is None,
        r matches Ok(u) ==> u@ == token@,
        r matches Err(e) ==> local_token_rejection(token@) == Some(e@),
{
    UntrustedToken::<Local, V4>::try_from(token)
        .map(|u| LocalTokenIn { token: u, text: Ghost(token@) })
        .map_err(|e| e.to_string())
}

/// `pasetors::local::decrypt(key, token, rules, None, None)`, giving the
/// payload text. The claims are checked against the clock, so whether it
/// succeeds is not stated; a payload it gives is the token's plaintext under
/// the key, and the crate has parsed it as a JSON object of claims (a
/// registered claim present must be a string, and `nbf`, `iat`, `exp` RFC
/// 3339 texts) and checked it under the default rules, which refuse a token
/// without `nbf`, `iat` or `exp`. When the token decrypts under the key,
/// an error comes from those claim checks on its plaintext.
#[verifier::external_body]
fn local_decrypt(key: &LocalKey, token: &LocalTokenIn, rules: &ValidationRules) -> (r: Result<String, String>)
    ensures
        r matches Ok(p) ==> local_plaintext(key@, token@) == Some(utf8_of(p@)),
        r matches Ok(p) ==> (json_object_parse(p@) matches Ok(m) && validated_claims(m)),
        r matches Err(e) ==> (local_plaintext(key@, token@) matches Some(b) ==> claims_check_error(decode_utf8(b), e@)),
{
    pasetors::local::decrypt(&key.key, &token.token, &rules.rules, None, None)
        .map(|t| t.payload().to_string())
        .map_err(|e| e.to_string())
}

/// Whether `AsymmetricSecretKey::<V4>::from` accepts the bytes: 64 bytes, an
/// Ed25519 seed followed by the public key that the seed gives.
pub uninterp spec fn ed25519_secret_key_ok(bytes: Seq<u8>) -> bool;

/// 64 bytes whose first 32 (the Ed25519 seed) are all zero, a seed from
/// which no key pair is derived.
pub open spec fn zero_seed(bytes: Seq<u8>) -> bool {
    bytes.len() == 64 && forall|i: int| 0 <= i < 32 ==> bytes[i] == 0
}

/// Whether 64 bytes start with a seed of 32 zero bytes.
fn has_zero_seed(bytes: &[u8]) -> (r: bool)
    ensures
        r == zero_seed(bytes@),
{
    if bytes.len() != 64 {
        return false;
    }
    let mut i: usize = 0;
    while i < 32
        invariant
            bytes@.len() == 64,
            i <= 32,
            forall|j: int| 0 <= j < i ==> bytes@[j] == 0,
        decreases 32 - i,
    {
        if bytes[i] != 0 {
            return false;
        }
        i = i + 1;
    }
    true
}

/// A v4 public-token signing key together with its 64 bytes (seed, then
/// public key), which are its view.
pub struct SigningKey {
    key: AsymmetricSecretKey<V4>,
    bytes: Ghost<Seq<u8>>,
}

impl View for SigningKey {
    type V = Seq<u8>;

    closed spec fn view(&self) -> Seq<u8> {
        self.bytes@
    }
}

/// A v4 public-token verifying key together with its 32 bytes, which are its
/// view.
pub struct VerifyingKey {
    key: AsymmetricPublicKey<V4>,
    bytes: Ghost<Seq<u8>>,
}

impl View for VerifyingKey {
    type V = Seq<u8>;

    closed spec fn view(&self) -> Seq<u8> {
        self.bytes@
    }
}

/// `AsymmetricSecretKey::<V4>::from(bytes)`, the error turned into its
/// `Display` text (`Key`); the key is made of those bytes. For 64 bytes it
/// derives the key pair from the first 32, and that derivation panics on an
/// all-zero seed, so such bytes are left out.
#[verifier::external_body]
fn secret_key_from(bytes: &[u8]) -> (r: Result<SigningKey, String>)
    requires
        !zero_seed(bytes@),
    ensures
        r is Ok <==> ed25519_secret_key_ok(bytes@),
        r is Ok ==> bytes@.len() == 64,
        r matches Ok(k) ==> k@ == bytes@,
        r matches Err(e) ==> e@ == "Key"@,
{
    AsymmetricSecretKey::<V4>::from(bytes)
        .map(|key| SigningKey { key, bytes: Ghost(bytes@) })
        .map_err(|e| e.to_string())
}

/// `AsymmetricPublicKey::<V4>::from(bytes)`, which accepts exactly 32 bytes;
/// the error turned into its `Display` text (`Key`); the key is made of those
/// bytes.
#[verifier::external_body]
fn public_key_from(bytes: &[u8]) -> (r: Result<VerifyingKey, String>)
    ensures
        r is Ok <==> bytes@.len() == 32,
        r matches Ok(k) ==> k@ == bytes@,
        r matches Err(e) ==> e@ == "Key"@,
{
    AsymmetricPublicKey::<V4>::from(bytes)
        .map(|key| VerifyingKey { key, bytes: Ghost(bytes@) })
        .map_err(|e| e.to_string())
}

/// `pasetors::public::sign(key, claims, None, None)`. A token it makes is
/// `v4.public.` followed by unpadded URL-safe base64 and no footer: the body
/// encodes the claims' JSON text (`Claims::to_string`) followed by the
/// 64-byte signature, so decoding it as `base64url_decode` does gives those
/// bytes back. Checking the token with the public half of the key (the last
/// 32 bytes) gives that JSON text, which parses back to the claims. Which
/// signature comes out is not stated.
#[verifier::external_body]
fn public_sign(key: &SigningKey, claims: &Claims) -> (r: Result<String, String>)
    ensures
        r matches Ok(t) ==> token_shape(t@, "v4.public."@),
        r matches Ok(t) ==> (exists|sig: Seq<u8>| sig.len() == 64
            && #[trigger] base64url_decodes_to(t@.skip(10), utf8_of(claims_json(*claims)) + sig)),
        r matches Ok(t) ==> public_message(key@.skip(32), t@) == Some(utf8_of(claims_json(*claims))),
        r matches Ok(t) ==> claims_json_holds(*claims),
{
    pasetors::public::sign(&key.key, claims, None, None).map_err(|e| e.to_string())
}

/// What `UntrustedToken::<Public, V4>::try_from(token)` gives: `None` when the
/// text has the `v4.public.` form with a well-encoded payload, else the text
/// of its error.
pub uninterp spec fn public_token_rejection(token: Seq<char>) -> Option<Seq<char>>;

/// A `v4.public` token read for verification, together with its text, which
/// is its view.
pub struct PublicTokenIn {
    token: UntrustedToken<Public, V4>,
    text: Ghost<Seq<char>>,
}

impl View for PublicTokenIn {
    type V = Seq<char>;

    closed spec fn view(&self) -> Seq<char> {
        self.text@
    }
}

/// `UntrustedToken::<Public, V4>::try_from(token)`, the error turned into its
/// `Display` text; the token read is that text's.
#[verifier::external_body]
fn untrusted_public_token(token: &str) -> (r: Result<PublicTokenIn, String>)
    ensures
        r is Ok <==> public_token_rejection(token@) is None,
        r matches Ok(u) ==> u@ == token@,
        r matches Err(e) ==> public_token_rejection(token@) == Some(e@),
{
    UntrustedToken::<Public, V4>::try_from(token)
        .map(|u| PublicTokenIn { token: u, text: Ghost(token@) })
        .map_err(|e| e.to_string())
}

/// `pasetors::public::verify(key, token, rules, None, None)`, giving the
/// payload text. The claims are checked against the clock, so whether it
/// succeeds is not stated; a payload it gives is the message signed in the
/// token under the key, and the crate has parsed it as a JSON object of
/// claims (a registered claim present must be a string, and `nbf`, `iat`,
/// `exp` RFC 3339 texts) and checked it under the default rules, which
/// refuse a token without `nbf`, `iat` or `exp`. When the signature checks
/// out under the key, an error comes from those claim checks on the signed
/// message.
#[verifier::external_body]
fn public_verify(key: &VerifyingKey, token: &PublicTokenIn, rules: &ValidationRules) -> (r: Result<String, String>)
    ensures
        r matches Ok(p) ==> public_message(key@, token@) == Some(utf8_of(p@)),
        r matches Ok(p) ==> (json_object_parse(p@) matches Ok(m) && validated_claims(m)),
        r matches Err(e) ==> (public_message(key@, token@) matches Some(b) ==> claims_check_error(decode_utf8(b), e@)),
{
    pasetors::public::verify(&key.key, &token.token, &rules.rules, None, None)
        .map(|t| t.payload().to_string())
        .map_err(|e| e.to_string())
}

/// `AsymmetricKeyPair::<V4>::generate()`, giving the secret and public key
/// bytes. The secret key is 64 bytes (seed, then public key) that
/// `AsymmetricSecretKey::<V4>::from` accepts, the public key its last 32
/// bytes. The keys are random; the seed is never all zero, since deriving
/// the pair from such a seed panics instead of returning. It never returns an
/// error: the crate checks the secret key it has just derived from the seed,
/// which always passes. It panics when the system's random source fails;
/// that is not an input and is left unstated.
#[verifier::external_body]
fn generate_key_pair() -> (r: Result<(Vec<u8>, Vec<u8>), String>)
    ensures
        r is Ok,
        r matches Ok(kp) ==> kp.0@.len() == 64,
        r matches Ok(kp) ==> kp.1@ == kp.0@.skip(32),
        r matches Ok(kp) ==> ed25519_secret_key_ok(kp.0@),
        r matches Ok(kp) ==> !zero_seed(kp.0@),
{
    <pasetors::keys::AsymmetricKeyPair<V4> as pasetors::keys::Generate<pasetors::keys::AsymmetricKeyPair<V4>, V4>>::generate()
        .map(|kp| (kp.secret.as_bytes().to_vec(), kp.public.as_bytes().to_vec()))
        .map_err(|e| e.to_string())
}

/// Whether a text is an even number of hexadecimal digits.
pub open spec fn hex_ok(hex: Seq<char>) -> bool {
    utf8_of(hex).len() % 2 == 0 && all_hex_digits(utf8_of(hex))
}

/// Whether a hex text denotes a secret key that `internal_create_public` accepts.
pub open spec fn secret_key_hex_ok(hex: Seq<char>) -> bool {
    &&& utf8_of(hex).len() % 2 == 0
    &&& all_hex_digits(utf8_of(hex))
    &&& !zero_seed(hex_bytes(utf8_of(hex)))
    &&& ed25519_secret_key_ok(hex_bytes(utf8_of(hex)))
}

/// Generate a fresh v4 public key pair, as hex texts (secret key, public key).
pub fn internal_generate_keys() -> (r: Result<(String, String), String>)
    ensures
        r is Ok,
        r matches Ok(kp) ==> exists|sk: Seq<u8>| {
            &&& sk.len() == 64
            &&& ed25519_secret_key_ok(sk)
            &&& !zero_seed(sk)
            &&& kp.0@ == hex_text(sk)
            &&& kp.1@ == hex_text(sk.skip(32))
        },
        r matches Ok(kp) ==> secret_key_hex_ok(kp.0@),
        r matches Ok(kp) ==> hex_ok(kp.1@) && hex_bytes(utf8_of(kp.1@)).len() == 32,
        r matches Ok(kp) ==> hex_bytes(utf8_of(kp.1@)) == hex_bytes(utf8_of(kp.0@)).skip(32),
{
    match generate_key_pair() {
        Ok((sk, pk)) => {
            proof {
                crate::codec::lemma_hex_roundtrip(sk@);
                crate::codec::lemma_hex_roundtrip(pk@);
            }
            Ok((hex_encode(sk.as_slice()), hex_encode(pk.as_slice())))
        },
        Err(e) => Err(e),
    }
}

/// A `v4.local` token made by `internal_create_local` is refused by
/// `decode_public_payload`, which reads only `v4.public` tokens.
pub proof fn lemma_local_token_not_decodable(t: Seq<char>)
    requires
        token_shape(t, "v4.local."@),
    ensures
        public_payload_spec(t) == Err::<Seq<char>, Seq<char>>("Only v4.public tokens have a decodable payload"@),
{
    reveal_strlit("v4.local.");
    reveal_strlit("v4.");
    reveal_strlit("local");
    reveal_strlit("public");
    reveal_strlit(".");
    assert("v4.local."@ =~= "v4."@ + "local"@ + "."@);
    lemma_shaped_token_parses(t, "local"@);
    assert("local"@ != "public"@) by {
        assert("local"@[0] != "public"@[0]);
    }
}

/// The claims text `decode_public_payload` reads from a token, as UTF-8
/// bytes, when it reads one.
pub open spec fn public_payload_content(token: Seq<char>) -> Option<Seq<u8>> {
    match public_payload_spec(token) {
        Ok(j) => Some(utf8_of(j)),
        Err(_) => None,
    }
}

/// A `v4.public` token whose body decodes to a JSON object's text followed
/// by a 64-byte signature is read by `decode_public_payload` as that text.
pub proof fn lemma_signed_token_decodes(t: Seq<char>, json: Seq<char>, sig: Seq<u8>)
    requires
        token_shape(t, "v4.public."@),
        sig.len() == 64,
        base64url_decodes_to(t.skip(10), utf8_of(json) + sig),
        json_object_rejection(json) is None,
    ensures
        public_payload_spec(t) == Ok::<Seq<char>, Seq<char>>(json),
{
    reveal_strlit("v4.public.");
    reveal_strlit("v4.");
    reveal_strlit("public");
    reveal_strlit(".");
    assert("v4.public."@ =~= "v4."@ + "public"@ + "."@);
    lemma_shaped_token_parses(t, "public"@);
    let bytes = utf8_of(json) + sig;
    assert(bytes.take(bytes.len() - 64) =~= utf8_of(json));
    vstd::utf8::encode_utf8_valid_utf8(json);
    vstd::utf8::encode_utf8_decode_utf8(json);
}

/// Fresh claims, or the error text.
fn new_claims() -> (r: Result<Claims, String>)
    ensures
        r matches Ok(c) ==> claims_model(c).dom() == set!["iat"@, "nbf"@, "exp"@],
        r matches Ok(c) ==> (forall|k: Seq<char>| #[trigger] claims_model(c).dom().contains(k) ==> claims_model(c)[k] is Text),
        r matches Err(e) ==> e@ == "PASETO claims error: InvalidClaim"@,
{
    match claims_new() {
        Ok(c) => Ok(c),
        Err(e) => {
            proof {
                reveal_strlit("PASETO claims error: ");
                reveal_strlit("InvalidClaim");
                reveal_strlit("PASETO claims error: InvalidClaim");
                assert(("PASETO claims error: "@ + e@) =~= "PASETO claims error: InvalidClaim"@);
            }
            Err(join_str("PASETO claims error: ", e.as_str()))
        },
    }
}

/// A fresh claims set: `iat`, `nbf` and `exp`, each a string.
pub open spec fn fresh_claims(m: Map<Seq<char>, JsonModel>) -> bool {
    &&& m.dom() == set!["iat"@, "nbf"@, "exp"@]
    &&& forall|k: Seq<char>| #[trigger] m.dom().contains(k) ==> m[k] is Text
}

/// Claims built from a payload: a fresh claims set with the payload applied
/// and, when an expiry is given, `exp` set to an RFC 3339 text.
pub open spec fn claims_from_payload(
    m: Map<Seq<char>, JsonModel>,
    entries: Seq<(Seq<char>, JsonModel)>,
    expires_in_seconds: Option<i64>,
) -> bool {
    exists|m0: Map<Seq<char>, JsonModel>| {
        &&& #[trigger] fresh_claims(m0)
        &&& apply_payload(m0, entries) matches Ok(m1)
        &&& match expires_in_seconds {
            None => m == m1,
            Some(_) => exists|t: Seq<char>| #[trigger] rfc3339_accepts(t) && m == m1.insert("exp"@, JsonModel::Text(t)),
        }
    }
}

/// A token's content (as the crypto step gives it) is the UTF-8 text of a
/// JSON object holding claims built from the payload.
pub open spec fn carries_payload(
    content: Option<Seq<u8>>,
    entries: Seq<(Seq<char>, JsonModel)>,
    expires_in_seconds: Option<i64>,
) -> bool {
    exists|j: Seq<char>, m: Map<Seq<char>, JsonModel>| {
        &&& content == Some(utf8_of(j))
        &&& #[trigger] json_parses_to(j, m)
        &&& claims_from_payload(m, entries, expires_in_seconds)
    }
}

/// Reading a token back gives the claims that went in: when a token's
/// content carries claims built from a payload, and the same content is the
/// UTF-8 text of a JSON object, that object holds those claims.
pub proof fn lemma_read_back(
    content: Option<Seq<u8>>,
    entries: Seq<(Seq<char>, JsonModel)>,
    expires_in_seconds: Option<i64>,
    text: Seq<char>,
    model: Map<Seq<char>, JsonModel>,
)
    requires
        carries_payload(content, entries, expires_in_seconds),
        content == Some(utf8_of(text)),
        json_parses_to(text, model),
    ensures
        claims_from_payload(model, entries, expires_in_seconds),
{
    let (j, m) = choose|j: Seq<char>, m: Map<Seq<char>, JsonModel>| {
        &&& content == Some(utf8_of(j))
        &&& #[trigger] json_parses_to(j, m)
        &&& claims_from_payload(m, entries, expires_in_seconds)
    };
    vstd::utf8::encode_utf8_decode_utf8(j);
    vstd::utf8::encode_utf8_decode_utf8(text);
    assert(j == text);
}

/// Claims built from a payload hold `iat`, `nbf` and `exp`, and each entry
/// of the payload that is copied as it is (a custom claim, or a registered
/// string claim holding a string) with its value, unless a later entry has
/// the same name.
pub proof fn lemma_built_claims_hold_payload(
    model: Map<Seq<char>, JsonModel>,
    entries: Seq<(Seq<char>, JsonModel)>,
    expires_in_seconds: Option<i64>,
    i: int,
)
    requires
        claims_from_payload(model, entries, expires_in_seconds),
        0 <= i < entries.len(),
        copied_entry(entries[i].0, entries[i].1),
        forall|j: int| i < j < entries.len() ==> (#[trigger] entries[j]).0 != entries[i].0,
    ensures
        model.dom().contains("iat"@),
        model.dom().contains("nbf"@),
        model.dom().contains("exp"@),
        model.dom().contains(entries[i].0),
        model[entries[i].0] == entries[i].1,
{
    let m0 = choose|m0: Map<Seq<char>, JsonModel>| {
        &&& #[trigger] fresh_claims(m0)
        &&& apply_payload(m0, entries) matches Ok(m1)
        &&& match expires_in_seconds {
            None => model == m1,
            Some(_) => exists|t: Seq<char>| #[trigger] rfc3339_accepts(t) && model == m1.insert("exp"@, JsonModel::Text(t)),
        }
    };
    let m1 = apply_payload(m0, entries)->Ok_0;
    assert(m0.dom().contains("iat"@) && m0.dom().contains("nbf"@) && m0.dom().contains("exp"@));
    lemma_apply_payload_keeps_names(m0, entries, "iat"@);
    lemma_apply_payload_keeps_names(m0, entries, "nbf"@);
    lemma_apply_payload_keeps_names(m0, entries, "exp"@);
    lemma_payload_claim_kept(m0, entries, i);
    assert(entries[i].0 != "exp"@) by {
        reveal_strlit("exp");
        reveal_strlit("iss");
        reveal_strlit("sub");
        reveal_strlit("aud");
        reveal_strlit("jti");
        assert("exp"@[0] != "iss"@[0]);
        assert("exp"@[0] != "sub"@[0]);
        assert("exp"@[0] != "aud"@[0]);
        assert("exp"@[0] != "jti"@[0]);
    }
}

/// Verifying a signed token and decoding it read the same claims text: when
/// the message checked under a public key is what `decode_public_payload`
/// reads (as for tokens made by `internal_create_public` and checked with
/// the public half of the key), a verified text and a decoded text agree.
pub proof fn lemma_verify_matches_decode(token: Seq<char>, key: Seq<u8>, verified: Seq<char>, decoded: Seq<char>)
    requires
        public_payload_content(token) == public_message(key, token),
        public_message(key, token) == Some(utf8_of(verified)),
        public_payload_spec(token) == Ok::<Seq<char>, Seq<char>>(decoded),
    ensures
        verified == decoded,
{
    vstd::utf8::encode_utf8_decode_utf8(verified);
    vstd::utf8::encode_utf8_decode_utf8(decoded);
}

/// Decoding a signed token gives the claims that went in: when a token's
/// payload, as `decode_public_payload` reads it, carries claims built from a
/// payload, the object it reads holds those claims.
pub proof fn lemma_public_read_back(
    token: Seq<char>,
    entries: Seq<(Seq<char>, JsonModel)>,
    expires_in_seconds: Option<i64>,
    text: Seq<char>,
    model: Map<Seq<char>, JsonModel>,
)
    requires
        carries_payload(public_payload_content(token), entries, expires_in_seconds),
        public_payload_spec(token) == Ok::<Seq<char>, Seq<char>>(text),
        json_parses_to(text, model),
    ensures
        claims_from_payload(model, entries, expires_in_seconds),
{
    lemma_read_back(public_payload_content(token), entries, expires_in_seconds, text, model);
}

/// An error of setting the expiry, which comes only when one is given.
pub open spec fn expiry_error(x: Seq<char>, expires_in_seconds: Option<i64>) -> bool {
    &&& expires_in_seconds is Some
    &&& (x == "Invalid expiration time"@ || x == "PASETO expiration error: InvalidClaim"@)
}

/// Create a `v4.local` token: the payload and expiry go into fresh claims,
/// which are encrypted under the key derived from `secret`.
pub fn internal_create_local(
    payload: Vec<(String, ClaimValue)>,
    secret: String,
    expires_in_seconds: Option<i64>,
) -> (r: Result<String, String>)
    requires
        expires_in_seconds matches Some(s) ==> -(i64::MAX / 1000) <= s <= i64::MAX / 1000,
    ensures
        payload_error(payload_view(payload@)) matches Some(e) ==> r matches Err(x) && (x@ == e
            || x@ == "PASETO claims error: InvalidClaim"@),
        r matches Ok(t) ==> payload_error(payload_view(payload@)) is None && token_shape(t@, "v4.local."@),
        r matches Ok(t) ==> carries_payload(
            local_plaintext(sha256_digest(utf8_of(secret@)), t@),
            payload_view(payload@),
            expires_in_seconds,
        ),
        payload_error(payload_view(payload@)) is None && expiry_out_of_range(expires_in_seconds)
            ==> (r matches Err(x) && (x@ == "Invalid expiration time"@
            || x@ == "PASETO claims error: InvalidClaim"@)),
        r matches Err(x) ==> {
            ||| x@ == "PASETO claims error: InvalidClaim"@
            ||| payload_error(payload_view(payload@)) == Some(x@)
            ||| expiry_error(x@, expires_in_seconds)
            ||| has_prefix(x@, "PASETO creation error: "@)
        },
{
    let ghost entries = payload_view(payload@);
    let mut claims = match new_claims() {
        Ok(c) => c,
        Err(e) => return Err(e),
    };
    let ghost model0 = claims_model(claims);
    proof {
        lemma_apply_payload_error(model0, entries);
    }
    match populate_claims(&mut claims, payload, expires_in_seconds) {
        Ok(_) => {},
        Err(e) => return Err(e),
    }
    proof {
        assert(fresh_claims(model0));
        assert(claims_from_payload(claims_model(claims), entries, expires_in_seconds));
    }
    let key = derive_symmetric_key(secret.as_str());
    match local_encrypt(&key, &claims) {
        Ok(t) => {
            proof {
                assert(json_parses_to(claims_json(claims), claims_model(claims)));
            }
            Ok(t)
        },
        Err(e) => {
            proof {
                lemma_has_prefix_concat("PASETO creation error: "@, e@);
            }
            Err(join_str("PASETO creation error: ", e.as_str()))
        },
    }
}


/// Prefix a step's error text.
fn with_prefix(prefix: &str, e: String) -> (r: String)
    ensures
        r@ == prefix@ + e@,
        has_prefix(r@, prefix@),
{
    proof {
        lemma_has_prefix_concat(prefix@, e@);
    }
    join_str(prefix, e.as_str())
}

/// Verify and decrypt a `v4.local` token with the key derived from `secret`,
/// giving its claims. The token is checked for form first; the claims (`exp`,
/// `nbf`) are then checked against the clock.
pub fn internal_verify_local(token: &str, secret: &str) -> (r: Result<ClaimsObject, String>)
    ensures
        local_token_rejection(token@) matches Some(e) ==> r matches Err(x) && x@ == "Invalid PASETO token: "@ + e,
        r matches Ok(o) ==> local_token_rejection(token@) is None && json_object_rejection(o@) is None,
        r matches Ok(o) ==> local_plaintext(sha256_digest(utf8_of(secret@)), token@) == Some(utf8_of(o@)),
        r matches Ok(o) ==> validated_claims(o.model()),
        r matches Err(x) ==> (local_token_rejection(token@) is None ==> exists|e: Seq<char>| {
            &&& x@ == "PASETO verification error: "@ + e
            &&& decrypt_refusal(local_plaintext(sha256_digest(utf8_of(secret@)), token@), e)
        }),
        holds_parsed(r),
        r matches Err(x) ==> {
            ||| (local_token_rejection(token@) matches Some(e) && x@ == "Invalid PASETO token: "@ + e)
            ||| has_prefix(x@, "PASETO verification error: "@)
        },
{
    let key = derive_symmetric_key(secret);
    let rules = validation_rules();
    let untrusted = match untrusted_local_token(token) {
        Ok(t) => t,
        Err(e) => return Err(with_prefix("Invalid PASETO token: ", e)),
    };
    let payload = match local_decrypt(&key, &untrusted, &rules) {
        Ok(p) => p,
        Err(e) => return Err(with_prefix("PASETO verification error: ", e)),
    };
    parse_claims(payload.as_str())
}

/// Create a `v4.public` token: the payload and expiry go into fresh claims,
/// which are signed with the secret key given in hex (64 bytes: Ed25519 seed
/// and public key).
pub fn internal_create_public(
    payload: Vec<(String, ClaimValue)>,
    secret_key_hex: &str,
    expires_in_seconds: Option<i64>,
) -> (r: Result<String, String>)
    requires
        expires_in_seconds matches Some(s) ==> -(i64::MAX / 1000) <= s <= i64::MAX / 1000,
    ensures
        payload_error(payload_view(payload@)) matches Some(e) ==> r matches Err(x) && (x@ == e
            || x@ == "PASETO claims error: InvalidClaim"@),
        r matches Ok(t) ==> {
            &&& payload_error(payload_view(payload@)) is None
            &&& secret_key_hex_ok(secret_key_hex@)
            &&& token_shape(t@, "v4.public."@)
        },
        r matches Ok(t) ==> carries_payload(
            public_message(hex_bytes(utf8_of(secret_key_hex@)).skip(32), t@),
            payload_view(payload@),
            expires_in_seconds,
        ),
        r matches Ok(t) ==> carries_payload(public_payload_content(t@), payload_view(payload@), expires_in_seconds),
        r matches Ok(t) ==> public_payload_content(t@) == public_message(hex_bytes(utf8_of(secret_key_hex@)).skip(32), t@),
        !hex_ok(secret_key_hex@) ==> (r matches Err(x) && {
            ||| x@ == "PASETO claims error: InvalidClaim"@
            ||| payload_error(payload_view(payload@)) == Some(x@)
            ||| expiry_error(x@, expires_in_seconds)
            ||| x@ == "Invalid hex for secret key"@
        }),
        hex_ok(secret_key_hex@) && !secret_key_hex_ok(secret_key_hex@) ==> (r matches Err(x) && {
            ||| x@ == "PASETO claims error: InvalidClaim"@
            ||| payload_error(payload_view(payload@)) == Some(x@)
            ||| expiry_error(x@, expires_in_seconds)
            ||| x@ == "Invalid secret key: Key"@
        }),
        payload_error(payload_view(payload@)) is None && expiry_out_of_range(expires_in_seconds)
            ==> (r matches Err(x) && (x@ == "Invalid expiration time"@
            || x@ == "PASETO claims error: InvalidClaim"@)),
        r matches Err(x) ==> {
            ||| x@ == "PASETO claims error: InvalidClaim"@
            ||| payload_error(payload_view(payload@)) == Some(x@)
            ||| expiry_error(x@, expires_in_seconds)
            ||| (x@ == "Invalid hex for secret key"@ && !hex_ok(secret_key_hex@))
            ||| (x@ == "Invalid secret key: Key"@ && !secret_key_hex_ok(secret_key_hex@))
            ||| has_prefix(x@, "PASETO signing error: "@)
        },
{
    let ghost entries = payload_view(payload@);
    let mut claims = match new_claims() {
        Ok(c) => c,
        Err(e) => return Err(e),
    };
    let ghost model0 = claims_model(claims);
    proof {
        lemma_apply_payload_error(model0, entries);
    }
    match populate_claims(&mut claims, payload, expires_in_seconds) {
        Ok(_) => {},
        Err(e) => return Err(e),
    }
    let sk_bytes = match hex_decode(secret_key_hex) {
        Ok(b) => b,
        Err(_) => return Err(String::from_str("Invalid hex for secret key")),
    };
    if has_zero_seed(sk_bytes.as_slice()) {
        proof {
            reveal_strlit("Invalid secret key: Key");
        }
        return Err(String::from_str("Invalid secret key: Key"));
    }
    let sk = match secret_key_from(sk_bytes.as_slice()) {
        Ok(k) => k,
        Err(e) => {
            proof {
                reveal_strlit("Invalid secret key: ");
                reveal_strlit("Key");
                reveal_strlit("Invalid secret key: Key");
                assert(("Invalid secret key: "@ + e@) =~= "Invalid secret key: Key"@);
            }
            return Err(join_str("Invalid secret key: ", e.as_str()));
        },
    };
    proof {
        assert(fresh_claims(model0));
        assert(claims_from_payload(claims_model(claims), entries, expires_in_seconds));
    }
    match public_sign(&sk, &claims) {
        Ok(t) => {
            proof {
                let json = claims_json(claims);
                assert(json_parses_to(json, claims_model(claims)));
                let sig = choose|sig: Seq<u8>| sig.len() == 64
                    && #[trigger] base64url_decodes_to(t@.skip(10), utf8_of(json) + sig);
                lemma_signed_token_decodes(t@, json, sig);
            }
            Ok(t)
        },
        Err(e) => Err(with_prefix("PASETO signing error: ", e)),
    }
}

/// Verify a `v4.public` token with the public key given in hex (32 bytes),
/// giving its claims. Key and token form are checked first; the claims
/// (`exp`, `nbf`) are then checked against the clock.
pub fn internal_verify_public(token: &str, public_key_hex: &str) -> (r: Result<ClaimsObject, String>)
    ensures
        !hex_ok(public_key_hex@) ==> (r matches Err(x) && x@ == "Invalid hex for public key"@),
        hex_ok(public_key_hex@) && hex_bytes(utf8_of(public_key_hex@)).len() != 32
            ==> (r matches Err(x) && x@ == "Invalid public key: Key"@),
        hex_ok(public_key_hex@) && hex_bytes(utf8_of(public_key_hex@)).len() == 32
            && public_token_rejection(token@) is Some
            ==> (r matches Err(x) && x@ == "Invalid PASETO token: "@ + public_token_rejection(token@)->Some_0),
        r matches Ok(o) ==> {
            &&& hex_ok(public_key_hex@)
            &&& hex_bytes(utf8_of(public_key_hex@)).len() == 32
            &&& public_token_rejection(token@) is None
            &&& json_object_rejection(o@) is None
        },
        r matches Ok(o) ==> public_message(hex_bytes(utf8_of(public_key_hex@)), token@) == Some(utf8_of(o@)),
        r matches Ok(o) ==> validated_claims(o.model()),
        r matches Err(x) ==> (hex_ok(public_key_hex@) && hex_bytes(utf8_of(public_key_hex@)).len() == 32
            && public_token_rejection(token@) is None ==> exists|e: Seq<char>| {
            &&& x@ == "PASETO verification error: "@ + e
            &&& decrypt_refusal(public_message(hex_bytes(utf8_of(public_key_hex@)), token@), e)
        }),
        holds_parsed(r),
        r matches Err(x) ==> {
            ||| x@ == "Invalid hex for public key"@
            ||| x@ == "Invalid public key: Key"@
            ||| (public_token_rejection(token@) matches Some(e) && x@ == "Invalid PASETO token: "@ + e)
            ||| has_prefix(x@, "PASETO verification error: "@)
        },
{
    let pk_bytes = match hex_decode(public_key_hex) {
        Ok(b) => b,
        Err(_) => return Err(String::from_str("Invalid hex for public key")),
    };
    let pk = match public_key_from(pk_bytes.as_slice()) {
        Ok(k) => k,
        Err(e) => {
            proof {
                reveal_strlit("Invalid public key: ");
                reveal_strlit("Key");
                reveal_strlit("Invalid public key: Key");
                assert(("Invalid public key: "@ + e@) =~= "Invalid public key: Key"@);
            }
            return Err(join_str("Invalid public key: ", e.as_str()));
        },
    };
    let rules = validation_rules();
    let untrusted = match untrusted_public_token(token) {
        Ok(t) => t,
        Err(e) => return Err(with_prefix("Invalid PASETO token: ", e)),
    };
    let payload = match public_verify(&pk, &untrusted, &rules) {
        Ok(p) => p,
        Err(e) => return Err(with_prefix("PASETO verification error: ", e)),
    };
    parse_claims(payload.as_str())
}


/// Local tokens are encrypted: their claims cannot be read without the key,
/// so this always refuses.
pub fn decode_token(_token: &str) -> (r: Result<ClaimsObject, String>)
    ensures
        r matches Err(e) && e@ == "PASETO local tokens are encrypted and cannot be decoded without the secret key."@,
{
    Err(String::from_str("PASETO local tokens are encrypted and cannot be decoded without the secret key."))
}

} // verus!
