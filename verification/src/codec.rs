//! Workspace identifiers (UUID text) and Base64 file contents.

use vstd::prelude::*;
use base64::Engine;

verus! {

/// An ASCII hexadecimal digit, either case.
pub open spec fn is_hex_digit(c: char) -> bool {
    ('0' <= c && c <= '9') || ('a' <= c && c <= 'f') || ('A' <= c && c <= 'F')
}

/// An ASCII hexadecimal digit in lower case.
pub open spec fn is_lower_hex_digit(c: char) -> bool {
    ('0' <= c && c <= '9') || ('a' <= c && c <= 'f')
}

/// Positions of the four hyphens in the 8-4-4-4-12 layout.
pub open spec fn is_hyphen_position(i: int) -> bool {
    i == 8 || i == 13 || i == 18 || i == 23
}

/// The hyphenated layout `xxxxxxxx-xxxx-xxxx-xxxx-xxxxxxxxxxxx`.
pub open spec fn is_hyphenated_uuid(s: Seq<char>) -> bool {
    &&& s.len() == 36
    &&& forall|i: int|
        0 <= i < 36 ==> if is_hyphen_position(i) {
            s[i] == '-'
        } else {
            is_hex_digit(#[trigger] s[i])
        }
}

/// ASCII lower-casing of one character.
pub open spec fn ascii_lower(c: char) -> char {
    if 'A' <= c && c <= 'Z' {
        ((c as int) + 32) as char
    } else {
        c
    }
}

/// The `urn:uuid:` prefix, in any ASCII case.
pub open spec fn has_urn_prefix(s: Seq<char>) -> bool {
    &&& s.len() >= 9
    &&& forall|i: int| 0 <= i < 9 ==> ascii_lower(#[trigger] s[i]) == "urn:uuid:"@[i]
}

/// The texts that the `uuid` crate accepts as a UUID: 32 hex digits, the
/// hyphenated layout, the hyphenated layout in braces, or the hyphenated
/// layout behind a `urn:uuid:` prefix.
pub open spec fn is_uuid_text(s: Seq<char>) -> bool {
    ||| s.len() == 32 && forall|i: int| 0 <= i < 32 ==> is_hex_digit(#[trigger] s[i])
    ||| is_hyphenated_uuid(s)
    ||| s.len() == 38 && s[0] == '{' && s[37] == '}' && is_hyphenated_uuid(s.subrange(1, 37))
    ||| s.len() == 45 && has_urn_prefix(s) && is_hyphenated_uuid(s.subrange(9, 45))
}

/// The text of a freshly generated workspace identifier: the hyphenated
/// layout in lower case.
pub open spec fn is_canonical_uuid(s: Seq<char>) -> bool {
    &&& is_hyphenated_uuid(s)
    &&& forall|i: int| 0 <= i < 36 && !is_hyphen_position(i) ==> is_lower_hex_digit(#[trigger] s[i])
}

/// The text of a random (version-4) UUID: lower-case hyphenated, version
/// digit `4`, variant digit one of `8`, `9`, `a`, `b`.
pub open spec fn is_v4_uuid(s: Seq<char>) -> bool {
    &&& is_canonical_uuid(s)
    &&& s[14] == '4'
    &&& (s[19] == '8' || s[19] == '9' || s[19] == 'a' || s[19] == 'b')
}

/// Whether `uuid::Uuid::parse_str` accepts `text`.
///
/// The contract restates the formats that the crate's parser accepts
/// (`try_parse` in `uuid/src/parser.rs`): inputs of any other shape, or with a
/// non-hex digit, are refused.
#[verifier::external_body]
fn uuid_parses(text: &str) -> (r: bool)
    ensures
        r == is_uuid_text(text@),
{
    uuid::Uuid::parse_str(text).is_ok()
}

/// A random version-4 UUID from `uuid::Uuid::new_v4`, as its `Display` text.
///
/// Claimed: the text is the lower-case hyphenated layout (`Display` for
/// `Uuid` writes `LowerHex` of the hyphenated form), with the version digit
/// `4` and the variant bits `10` that `new_v4` sets by its mask. Which UUID
/// comes out is left open: it is random.
#[verifier::external_body]
fn random_uuid_text() -> (r: String)
    ensures
        is_v4_uuid(r@),
{
    uuid::Uuid::new_v4().to_string()
}

/// Whether `id` names a workspace: whether it is a UUID in a form that the
/// `uuid` crate accepts.
pub fn is_valid_uuid(id: &str) -> (r: bool)
    ensures
        r == is_uuid_text(id@),
{
    uuid_parses(id)
}

/// A fresh workspace identifier.
pub fn new_workspace_id() -> (r: String)
    ensures
        is_v4_uuid(r@),
        is_canonical_uuid(r@),
        is_uuid_text(r@),
{
    random_uuid_text()
}

/// Every canonical identifier is accepted as a workspace identifier.
pub proof fn law_canonical_ids_are_valid(s: Seq<char>)
    requires
        is_canonical_uuid(s),
    ensures
        is_uuid_text(s),
{
}

/// The character of a 6-bit value in the standard Base64 alphabet.
pub open spec fn base64_digit(v: int) -> char {
    if v < 26 {
        (65 + v) as char
    } else if v < 52 {
        (97 + (v - 26)) as char
    } else if v < 62 {
        (48 + (v - 52)) as char
    } else if v == 62 {
        '+'
    } else {
        '/'
    }
}

/// Standard Base64 (RFC 4648, with `=` padding) of `data`.
pub open spec fn base64_text(data: Seq<u8>) -> Seq<char>
    decreases data.len(),
{
    if data.len() == 0 {
        seq![]
    } else if data.len() == 1 {
        seq![base64_digit((data[0] as int) / 4), base64_digit(((data[0] as int) % 4) * 16), '=', '=']
    } else if data.len() == 2 {
        seq![
            base64_digit((data[0] as int) / 4),
            base64_digit(((data[0] as int) % 4) * 16 + (data[1] as int) / 16),
            base64_digit(((data[1] as int) % 16) * 4),
            '=',
        ]
    } else {
        seq![
            base64_digit((data[0] as int) / 4),
            base64_digit(((data[0] as int) % 4) * 16 + (data[1] as int) / 16),
            base64_digit(((data[1] as int) % 16) * 4 + (data[2] as int) / 64),
            base64_digit((data[2] as int) % 64),
        ] + base64_text(data.skip(3))
    }
}

/// What `STANDARD.decode` of the `base64` crate gives for `text`: the bytes,
/// or the `Display` text of its `DecodeError`.
pub uninterp spec fn base64_decoding(text: Seq<char>) -> Result<Seq<u8>, Seq<char>>;

/// `text` decodes to `data`.
pub open spec fn decodes_to(text: Seq<char>, data: Seq<u8>) -> bool {
    base64_decoding(text) matches Ok(d) && d == data
}

/// `base64::engine::general_purpose::STANDARD.encode`.
///
/// Claimed: the result is standard padded Base64 of `data`, and the same
/// engine's `decode` gives `data` back from it.
#[verifier::external_body]
fn base64_encode(data: &[u8]) -> (r: String)
    ensures
        r@ == base64_text(data@),
        decodes_to(r@, data@),
{
    base64::engine::general_purpose::STANDARD.encode(data)
}

/// `base64::engine::general_purpose::STANDARD.decode`, its error turned into
/// its `Display` text. Claimed: the outcome is `base64_decoding(text@)`.
#[verifier::external_body]
fn base64_decode(text: &str) -> (r: Result<Vec<u8>, String>)
    ensures
        r matches Ok(v) ==> (base64_decoding(text@) matches Ok(d) && d == v@),
        r matches Err(e) ==> (base64_decoding(text@) matches Err(m) && m == e@),
{
    match base64::engine::general_purpose::STANDARD.decode(text) {
        Ok(v) => Ok(v),
        Err(e) => Err(e.to_string()),
    }
}

/// File contents as standard Base64 text.
pub fn encode_contents(data: &[u8]) -> (r: String)
    ensures
        r@ == base64_text(data@),
        decodes_to(r@, data@),
{
    base64_encode(data)
}

/// File contents back from standard Base64 text; on failure, the decoder's
/// description of what is wrong.
pub fn decode_contents(text: &str) -> (r: Result<Vec<u8>, String>)
    ensures
        r matches Ok(v) ==> (base64_decoding(text@) matches Ok(d) && d == v@),
        r matches Err(e) ==> (base64_decoding(text@) matches Err(m) && m == e@),
{
    base64_decode(text)
}

} // verus!
