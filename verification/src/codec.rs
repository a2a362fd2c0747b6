//! Byte/text codecs: hexadecimal, UTF-8 and the standard base64 alphabet.
//! Hex and base64 go through the `hex` and `base64` crates.
use vstd::prelude::*;
use vstd::utf8::*;

verus! {

/// The decimal digits of `n`, most significant first, as `Display` writes them.
pub open spec fn decimal(n: nat) -> Seq<char>
    decreases n,
{
    if n < 10 {
        seq![digit_char(n)]
    } else {
        decimal(n / 10) + seq![digit_char(n % 10)]
    }
}

/// The ASCII digit for a value below ten.
pub open spec fn digit_char(d: nat) -> char {
    (('0' as nat) + d) as char
}

/// The lowercase hexadecimal digit for a value below sixteen.
pub open spec fn hex_digit(d: u8) -> char {
    if d < 10 {
        (('0' as u8) + d) as char
    } else {
        (('a' as u8) + (d - 10)) as char
    }
}

/// Lowercase hexadecimal text of a byte string, two digits per byte.
pub open spec fn hex_text(bytes: Seq<u8>) -> Seq<char>
    decreases bytes.len(),
{
    if bytes.len() == 0 {
        Seq::empty()
    } else {
        seq![hex_digit(bytes[0] / 16), hex_digit(bytes[0] % 16)] + hex_text(bytes.drop_first())
    }
}

/// The value of a hexadecimal digit byte (either case), if it is one.
pub open spec fn hex_value(c: u8) -> Option<u8> {
    if '0' as u8 <= c <= '9' as u8 {
        Some((c - '0' as u8) as u8)
    } else if 'a' as u8 <= c <= 'f' as u8 {
        Some((c - 'a' as u8 + 10) as u8)
    } else if 'A' as u8 <= c <= 'F' as u8 {
        Some((c - 'A' as u8 + 10) as u8)
    } else {
        None
    }
}

/// Whether every byte of `text` is a hexadecimal digit.
pub open spec fn all_hex_digits(text: Seq<u8>) -> bool {
    forall|i: int| 0 <= i < text.len() ==> hex_value(#[trigger] text[i]) is Some
}

/// The bytes that an even-length run of hexadecimal digits denotes.
pub open spec fn hex_bytes(text: Seq<u8>) -> Seq<u8>
    decreases text.len(),
{
    if text.len() < 2 {
        Seq::empty()
    } else {
        seq![(hex_value(text[0])->Some_0 * 16 + hex_value(text[1])->Some_0) as u8]
            + hex_bytes(text.skip(2))
    }
}

/// Index of the first byte that is not a hexadecimal digit (the length when
/// all are).
pub open spec fn first_non_hex(text: Seq<u8>) -> int
    decreases text.len(),
{
    if text.len() == 0 {
        0
    } else if hex_value(text[0]) is None {
        0
    } else {
        1 + first_non_hex(text.drop_first())
    }
}

/// `Debug` text of a printable ASCII character other than a quote or a
/// backslash: the character between single quotes.
pub open spec fn plain_char_debug(c: char) -> Seq<char> {
    seq!['\'', c, '\'']
}

/// Printable ASCII other than `'` and `\`, whose `Debug` form needs no escape.
pub open spec fn plain_ascii(c: u8) -> bool {
    0x20 <= c <= 0x7e && c != 0x27 && c != 0x5c
}

/// Whether the first non-hex byte of `b` exists and is plain printable ASCII.
pub open spec fn reports_plain_char(b: Seq<u8>) -> bool {
    !all_hex_digits(b) && plain_ascii(b[first_non_hex(b)])
}

/// The message for the first non-hex byte of `b`.
pub open spec fn invalid_hex_message(b: Seq<u8>) -> Seq<char> {
    "Invalid character "@ + plain_char_debug(b[first_non_hex(b)] as char) + " at position "@
        + decimal(first_non_hex(b) as nat)
}

/// UTF-8 bytes of a string's characters.
pub open spec fn utf8_of(s: Seq<char>) -> Seq<u8> {
    encode_utf8(s)
}

/// Lowercase hexadecimal encoding of `bytes` (`hex::encode`): the text holds
/// two digits per byte, high nibble first, with `0-9a-f`.
#[verifier::external_body]
pub(crate) fn hex_encode(bytes: &[u8]) -> (r: String)
    ensures
        r@ == hex_text(bytes@),
{
    hex::encode(bytes)
}

/// Hexadecimal decoding of the UTF-8 bytes of `text` (`hex::decode`), with the
/// crate's error message. An odd length is refused first ("Odd number of
/// digits"); otherwise the first byte that is no hex digit (either case) is
/// reported as "Invalid character {c:?} at position {index}". Where that byte
/// is not printable ASCII (or is a quote or backslash) the message is the
/// crate's `Debug` escape of it, which is left unstated here.
#[verifier::external_body]
pub(crate) fn hex_decode(text: &str) -> (r: Result<Vec<u8>, String>)
    ensures
        r is Ok <==> (utf8_of(text@).len() % 2 == 0 && all_hex_digits(utf8_of(text@))),
        r matches Ok(v) ==> v@ == hex_bytes(utf8_of(text@)),
        r matches Err(m) ==> (utf8_of(text@).len() % 2 == 1 ==> m@ == "Odd number of digits"@),
        r matches Err(m) ==> (utf8_of(text@).len() % 2 == 0 && reports_plain_char(utf8_of(text@))
            ==> m@ == invalid_hex_message(utf8_of(text@))),
{
    hex::decode(text).map_err(|e| e.to_string())
}

/// The letter of the standard base64 alphabet for a value below 64.
pub open spec fn b64_letter(v: u8) -> char {
    if v < 26 {
        (('A' as u8) + v) as char
    } else if v < 52 {
        (('a' as u8) + (v - 26)) as char
    } else if v < 62 {
        (('0' as u8) + (v - 52)) as char
    } else if v == 62 {
        '+'
    } else {
        '/'
    }
}

/// The letter of the URL-safe base64 alphabet for a value below 64: the
/// standard one with `-` and `_` in place of `+` and `/`.
pub open spec fn b64url_letter(v: u8) -> char {
    if v == 62 {
        '-'
    } else if v == 63 {
        '_'
    } else {
        b64_letter(v)
    }
}

/// The letter for a value below 64, in the URL-safe or the standard alphabet.
pub open spec fn b64_sextet(v: u8, url: bool) -> char {
    if url {
        b64url_letter(v)
    } else {
        b64_letter(v)
    }
}

/// Base64 of a byte string without padding (RFC 4648): each group of three
/// bytes gives four letters, a last group of one or two bytes gives two or
/// three, the unused low bits being zero.
pub open spec fn b64_unpadded(b: Seq<u8>, url: bool) -> Seq<char>
    decreases b.len(),
{
    if b.len() == 0 {
        Seq::empty()
    } else if b.len() == 1 {
        seq![b64_sextet(b[0] / 4, url), b64_sextet(((b[0] % 4) * 16) as u8, url)]
    } else if b.len() == 2 {
        seq![
            b64_sextet(b[0] / 4, url),
            b64_sextet(((b[0] % 4) * 16 + b[1] / 16) as u8, url),
            b64_sextet(((b[1] % 16) * 4) as u8, url),
        ]
    } else {
        seq![
            b64_sextet(b[0] / 4, url),
            b64_sextet(((b[0] % 4) * 16 + b[1] / 16) as u8, url),
            b64_sextet(((b[1] % 16) * 4 + b[2] / 64) as u8, url),
            b64_sextet(b[2] % 64, url),
        ] + b64_unpadded(b.skip(3), url)
    }
}

/// The `=` signs that bring a base64 text of `len` letters to a multiple of
/// four.
pub open spec fn base64_padding(len: nat) -> Seq<char> {
    if len % 4 == 2 {
        seq!['=', '=']
    } else if len % 4 == 3 {
        seq!['=']
    } else {
        Seq::empty()
    }
}

/// The standard padded base64 text of a byte string (what the `STANDARD`
/// engine encodes).
pub open spec fn base64_standard_text(b: Seq<u8>) -> Seq<char> {
    b64_unpadded(b, false) + base64_padding(b64_unpadded(b, false).len())
}

/// The unpadded URL-safe base64 text of a byte string (`URL_SAFE_NO_PAD`).
pub open spec fn base64url_text(b: Seq<u8>) -> Seq<char> {
    b64_unpadded(b, true)
}

/// The padded URL-safe base64 text of a byte string (`URL_SAFE`).
pub open spec fn base64url_padded_text(b: Seq<u8>) -> Seq<char> {
    b64_unpadded(b, true) + base64_padding(b64_unpadded(b, true).len())
}

/// What decoding `text` with the standard padded base64 engine of the
/// `base64` crate gives: the bytes, or the text of its `DecodeError`.
pub uninterp spec fn base64_standard_decoding(text: Seq<char>) -> Result<Seq<u8>, Seq<char>>;

/// The outcome of a byte-producing step, by views.
pub open spec fn bytes_outcome(r: Result<Vec<u8>, String>) -> Result<Seq<u8>, Seq<char>> {
    match r {
        Ok(v) => Ok(v@),
        Err(e) => Err(e@),
    }
}

/// A successful decoding that gives `b`.
pub open spec fn decoded(b: Seq<u8>) -> Result<Seq<u8>, Seq<char>> {
    Ok(b)
}

/// `base64::engine::general_purpose::STANDARD.decode(text)`, with the error
/// turned into its `Display` text. What it returns is the named
/// `base64_standard_decoding` of the text; the canonical padded encoding of
/// some bytes decodes to those bytes.
#[verifier::external_body]
pub(crate) fn decode_base64_standard(text: &str) -> (r: Result<Vec<u8>, String>)
    ensures
        bytes_outcome(r) == base64_standard_decoding(text@),
        forall|b: Seq<u8>| #[trigger] base64_standard_text(b) == text@ ==> bytes_outcome(r) == decoded(b),
{
    base64::Engine::decode(&base64::engine::general_purpose::STANDARD, text).map_err(|e| e.to_string())
}

/// `std::str::from_utf8`: the text when `bytes` is valid UTF-8, else nothing.
#[verifier::external_body]
pub(crate) fn utf8_str(bytes: &[u8]) -> (r: Option<&str>)
    ensures
        r is Some <==> valid_utf8(bytes@),
        r matches Some(s) ==> s@ == decode_utf8(bytes@),
{
    std::str::from_utf8(bytes).ok()
}


proof fn lemma_hex_text_shape(b: Seq<u8>)
    ensures
        hex_text(b).len() == 2 * b.len(),
        forall|i: int| 0 <= i < b.len() ==> hex_text(b)[2 * i] == hex_digit(#[trigger] b[i] / 16)
            && hex_text(b)[2 * i + 1] == hex_digit(b[i] % 16),
    decreases b.len(),
{
    if b.len() > 0 {
        lemma_hex_text_shape(b.drop_first());
        assert forall|i: int| 0 <= i < b.len() implies hex_text(b)[2 * i] == hex_digit(#[trigger] b[i] / 16)
            && hex_text(b)[2 * i + 1] == hex_digit(b[i] % 16) by {
            if i > 0 {
                assert(b[i] == b.drop_first()[i - 1]);
                assert(hex_text(b)[2 * i] == hex_text(b.drop_first())[2 * (i - 1)]);
                assert(hex_text(b)[2 * i + 1] == hex_text(b.drop_first())[2 * (i - 1) + 1]);
            }
        }
    }
}

proof fn lemma_hex_digit_value(d: u8)
    requires
        d < 16,
    ensures
        (hex_digit(d) as u8) < 0x7f,
        hex_digit(d) <= '\u{7f}',
        hex_value(hex_digit(d) as u8) == Some(d),
{
}

proof fn lemma_hex_bytes_index(x: Seq<u8>)
    requires
        x.len() % 2 == 0,
        all_hex_digits(x),
    ensures
        hex_bytes(x).len() == x.len() / 2,
        forall|i: int| 0 <= i < x.len() / 2 ==> #[trigger] hex_bytes(x)[i] == (hex_value(x[2 * i])->Some_0 * 16
            + hex_value(x[2 * i + 1])->Some_0) as u8,
    decreases x.len(),
{
    if x.len() >= 2 {
        let rest = x.skip(2);
        assert forall|k: int| 0 <= k < rest.len() implies hex_value(#[trigger] rest[k]) is Some by {
            assert(rest[k] == x[k + 2]);
        }
        lemma_hex_bytes_index(rest);
        assert forall|i: int| 0 <= i < x.len() / 2 implies #[trigger] hex_bytes(x)[i] == (hex_value(x[2 * i])->Some_0 * 16
            + hex_value(x[2 * i + 1])->Some_0) as u8 by {
            if i > 0 {
                assert(hex_bytes(x)[i] == hex_bytes(rest)[i - 1]);
                assert(rest[2 * (i - 1)] == x[2 * i]);
                assert(rest[2 * (i - 1) + 1] == x[2 * i + 1]);
            }
        }
    }
}

/// Decoding the hex text of some bytes gives them back: `hex_decode` of what
/// `hex_encode` wrote is `Ok` with the same bytes.
pub proof fn lemma_hex_roundtrip(b: Seq<u8>)
    ensures
        utf8_of(hex_text(b)).len() % 2 == 0,
        all_hex_digits(utf8_of(hex_text(b))),
        hex_bytes(utf8_of(hex_text(b))) == b,
{
    let t = hex_text(b);
    lemma_hex_text_shape(b);
    assert forall|j: int| 0 <= j < t.len() implies '\0' <= #[trigger] t[j] <= '\u{7f}' by {
        let i = j / 2;
        assert(j == 2 * i || j == 2 * i + 1);
        lemma_hex_digit_value(b[i] / 16);
        lemma_hex_digit_value(b[i] % 16);
    }
    assert(vstd::utf8::is_ascii_chars(t));
    vstd::utf8::is_ascii_chars_encode_utf8(t);
    let x = utf8_of(t);
    assert forall|k: int| 0 <= k < x.len() implies hex_value(#[trigger] x[k]) is Some by {
        let i = k / 2;
        assert(k == 2 * i || k == 2 * i + 1);
        assert(x[k] == t[k] as u8);
        lemma_hex_digit_value(b[i] / 16);
        lemma_hex_digit_value(b[i] % 16);
    }
    lemma_hex_bytes_index(x);
    assert forall|i: int| 0 <= i < b.len() implies hex_bytes(x)[i] == b[i] by {
        assert(x[2 * i] == t[2 * i] as u8);
        assert(x[2 * i + 1] == t[2 * i + 1] as u8);
        lemma_hex_digit_value(b[i] / 16);
        lemma_hex_digit_value(b[i] % 16);
        assert(hex_bytes(x)[i] == ((b[i] / 16) * 16 + b[i] % 16) as u8);
    }
    assert(hex_bytes(x) =~= b);
}

} // verus!
