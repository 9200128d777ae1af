//! The JSON text of string values and the HS256 JSON web tokens, by way of
//! `serde_json` and `jsonwebtoken`.

use vstd::prelude::*;
use crate::text::digit_char;

verus! {

/// The lower-case hexadecimal digit of `d` (for `0 <= d < 16`).
pub open spec fn hex_digit(d: int) -> char {
    if d < 10 {
        digit_char(d)
    } else {
        (87 + d) as char
    }
}

/// How one character stands inside a JSON string: `"` and `\` behind a
/// backslash, backspace, tab, line feed, form feed and carriage return as
/// `\b \t \n \f \r`, every other character below U+0020 as `\u00xx` with
/// lower-case hex digits, and every other character as itself.
pub open spec fn json_escape(c: char) -> Seq<char> {
    if c == '"' {
        seq!['\\', '"']
    } else if c == '\\' {
        seq!['\\', '\\']
    } else if c == '\u{8}' {
        seq!['\\', 'b']
    } else if c == '\t' {
        seq!['\\', 't']
    } else if c == '\n' {
        seq!['\\', 'n']
    } else if c == '\u{c}' {
        seq!['\\', 'f']
    } else if c == '\r' {
        seq!['\\', 'r']
    } else if (c as u32) < 32 {
        seq!['\\', 'u', '0', '0', hex_digit((c as int) / 16), hex_digit((c as int) % 16)]
    } else {
        seq![c]
    }
}

/// The characters of `s`, each escaped as in a JSON string.
pub open spec fn json_escaped(s: Seq<char>) -> Seq<char>
    decreases s.len(),
{
    if s.len() == 0 {
        Seq::empty()
    } else {
        json_escaped(s.drop_last()) + json_escape(s.last())
    }
}

/// The JSON string literal of `s`: its escaped characters between quotes.
pub open spec fn json_quote(s: Seq<char>) -> Seq<char> {
    seq!['"'] + json_escaped(s) + seq!['"']
}

/// `serde_json::to_string` on a `&str`. Its contract claims that the call
/// succeeds and gives the quoted, escaped string of `json_quote`, as
/// serde_json's string formatter writes it (the writer is a `Vec`, which
/// cannot fail).
#[verifier::external_body]
pub(crate) fn json_string(s: &str) -> (r: Option<String>)
    ensures
        r is Some,
        r matches Some(t) ==> t@ == json_quote(s@),
{
    serde_json::to_string(s).ok()
}

/// Whether `c` may stand in a token: a letter, a digit, `-` or `_` (the
/// URL-safe base64 alphabet) or the `.` between the parts.
pub open spec fn is_token_char(c: char) -> bool {
    ('A' <= c && c <= 'Z') || ('a' <= c && c <= 'z') || ('0' <= c && c <= '9') || c == '-' || c
        == '_' || c == '.'
}

/// Whether every character of `s` may stand in a token.
pub open spec fn is_token_text(s: Seq<char>) -> bool {
    forall|k: int| 0 <= k < s.len() ==> is_token_char(#[trigger] s[k])
}

/// Whether `c` is in the URL-safe base64 alphabet: a letter, a digit, `-`
/// or `_`.
pub open spec fn is_b64url_char(c: char) -> bool {
    ('A' <= c && c <= 'Z') || ('a' <= c && c <= 'z') || ('0' <= c && c <= '9') || c == '-' || c
        == '_'
}

/// Whether every character of `s` is in the URL-safe base64 alphabet.
pub open spec fn is_b64url_text(s: Seq<char>) -> bool {
    forall|k: int| 0 <= k < s.len() ==> is_b64url_char(#[trigger] s[k])
}

/// Whether `t` has the shape of a token: three runs of URL-safe base64
/// characters joined by two dots.
pub open spec fn is_token_shape(t: Seq<char>) -> bool {
    exists|h: Seq<char>, p: Seq<char>, s: Seq<char>|
        #[trigger] (h + seq!['.'] + p + seq!['.'] + s) == t && is_b64url_text(h) && is_b64url_text(p)
            && is_b64url_text(s)
}

/// Whether `t` is written as an HS256 token is: a header part and a claims
/// part, both non-empty, and a signature part of 43 characters (the 32 bytes
/// of an HMAC-SHA256 digest in URL-safe base64 without padding), all in the
/// URL-safe base64 alphabet and joined by two dots.
pub open spec fn is_hs256_token_text(t: Seq<char>) -> bool {
    exists|h: Seq<char>, p: Seq<char>, s: Seq<char>|
        #[trigger] (h + seq!['.'] + p + seq!['.'] + s) == t && is_b64url_text(h) && is_b64url_text(p)
            && is_b64url_text(s) && h.len() > 0 && p.len() > 0 && s.len() == 43
}

/// A text written as an HS256 token has a token's shape and is at least 47
/// characters long.
pub proof fn lemma_hs256_token_text(t: Seq<char>)
    requires
        is_hs256_token_text(t),
    ensures
        is_token_shape(t),
        t.len() >= 47,
{
    let (h, p, s) = choose|h: Seq<char>, p: Seq<char>, s: Seq<char>|
        #[trigger] (h + seq!['.'] + p + seq!['.'] + s) == t && is_b64url_text(h) && is_b64url_text(p)
            && is_b64url_text(s) && h.len() > 0 && p.len() > 0 && s.len() == 43;
    assert((h + seq!['.'] + p + seq!['.'] + s) == t);
}

/// A text with a character that is neither in the URL-safe base64 alphabet
/// nor a dot does not have a token's shape.
pub proof fn lemma_foreign_char_not_token_shape(t: Seq<char>, k: int)
    requires
        0 <= k < t.len(),
        !is_b64url_char(t[k]),
        t[k] != '.',
    ensures
        !is_token_shape(t),
{
    if is_token_shape(t) {
        let (h, p, s) = choose|h: Seq<char>, p: Seq<char>, s: Seq<char>|
            #[trigger] (h + seq!['.'] + p + seq!['.'] + s) == t && is_b64url_text(h)
                && is_b64url_text(p) && is_b64url_text(s);
        let w = h + seq!['.'] + p + seq!['.'] + s;
        assert(w == t);
        if k < h.len() {
            assert(w[k] == h[k]);
        } else if k == h.len() {
            assert(w[k] == '.');
        } else if k < h.len() + 1 + p.len() {
            assert(w[k] == p[k - h.len() - 1]);
        } else if k == h.len() + 1 + p.len() {
            assert(w[k] == '.');
        } else {
            assert(w[k] == s[k - h.len() - 2 - p.len()]);
        }
    }
}

/// A text without a dot does not have a token's shape.
pub proof fn lemma_no_dot_not_token_shape(t: Seq<char>)
    requires
        forall|k: int| 0 <= k < t.len() ==> #[trigger] t[k] != '.',
    ensures
        !is_token_shape(t),
{
    if is_token_shape(t) {
        let (h, p, s) = choose|h: Seq<char>, p: Seq<char>, s: Seq<char>|
            #[trigger] (h + seq!['.'] + p + seq!['.'] + s) == t && is_b64url_text(h)
                && is_b64url_text(p) && is_b64url_text(s);
        let w = h + seq!['.'] + p + seq!['.'] + s;
        assert(w == t);
        assert(w[h.len() as int] == '.');
    }
}

/// The outcome of `jsonwebtoken::encode` with an HS256 header, the claims
/// given as the JSON text `claims_json` and `secret` as the HMAC key: the
/// token, or `None` where the call fails (as when `claims_json` is not JSON).
pub uninterp spec fn hs256_token(claims_json: Seq<char>, secret: Seq<char>) -> Option<Seq<char>>;

/// Whether `json` is the JSON text of claims of the shape the service
/// issues: a user id and a name as JSON strings and a `u64` expiry, as
/// serde_json writes them.
pub open spec fn is_issued_claims(json: Seq<char>) -> bool {
    exists|u: Seq<char>, n: Seq<char>, e: nat|
        e <= u64::MAX && #[trigger] crate::routes::claims_json(u, n, e) == json
}

/// Whether `json` is the JSON text of claims of a user id and a name only,
/// as serde_json writes them.
pub open spec fn is_plain_claims(json: Seq<char>) -> bool {
    exists|u: Seq<char>, n: Seq<char>| #[trigger] crate::handlers::claims_json(u, n) == json
}

/// Signs the JSON text `claims_json` into an HS256 token: calls
/// `jsonwebtoken::encode` with `Header::new(Algorithm::HS256)`, the claims
/// as a `serde_json` raw value and `EncodingKey::from_secret` of the bytes of
/// `secret`. Its contract claims that the outcome is the one that
/// `hs256_token` names for these arguments, and that claims of the issued
/// shape are always signed and read back unchanged by `decode_hs256` under
/// the same secret (serde_json keeps the raw text, base64 and the HMAC check
/// undo what encoding did, the header names HS256, and the claims carry the
/// required numeric `exp` and no `aud`). Base64 and HMAC-SHA256 themselves
/// are left unstated. Any JSON text is signed (only `RawValue::from_string`
/// can fail, on text that is not JSON; HS256 signing cannot), so claims of
/// either shape the service writes always give a token. The token is its
/// base64 header, base64 claims and the 43-character base64 digest, joined
/// by dots (URL-safe base64 without padding).
#[verifier::external_body]
pub(crate) fn encode_hs256(claims_json: &str, secret: &str) -> (r: Option<String>)
    ensures
        match r {
            Some(t) => hs256_token(claims_json@, secret@) == Some(t@),
            None => hs256_token(claims_json@, secret@) is None,
        },
        r matches Some(t) ==> is_token_text(t@),
        r matches Some(t) ==> is_hs256_token_text(t@),
        is_issued_claims(claims_json@) ==> r is Some,
        is_plain_claims(claims_json@) ==> r is Some,
        is_issued_claims(claims_json@) && r is Some ==> hs256_claims(r->0@, secret@) == Some(
            claims_json@,
        ),
{
    let claims = serde_json::value::RawValue::from_string(claims_json.to_string()).ok()?;
    let header = jsonwebtoken::Header::new(jsonwebtoken::Algorithm::HS256);
    let key = jsonwebtoken::EncodingKey::from_secret(secret.as_bytes());
    jsonwebtoken::encode(&header, &claims, &key).ok()
}

/// The claims text that `jsonwebtoken::decode` with
/// `Validation::new(Algorithm::HS256)` and `DecodingKey::from_secret` of the
/// bytes of `secret` yields for `token`, leaving aside only its comparison of
/// the `exp` claim with the clock: `None` where the token is malformed, its
/// header does not name HS256, its signature does not match, or its claims
/// lack a numeric `exp` or fail the other checks of that validation.
pub uninterp spec fn hs256_claims(token: Seq<char>, secret: Seq<char>) -> Option<Seq<char>>;

/// Checks the HS256 token `token` under `secret` and gives its claims as JSON
/// text: calls `jsonwebtoken::decode` with the claims read as a `serde_json`
/// raw value. The call also compares the `exp` claim with the system clock,
/// so its outcome is not a function of its arguments; the contract claims
/// only what holds of every outcome: a token that `hs256_claims` rejects is
/// rejected, and claims handed out are the ones it names; and a text that is
/// not three runs of URL-safe base64 joined by two dots is rejected (fewer
/// dots fail the split, a dot or another character in the header or claims
/// part fails the base64 decoding, and one in the signature part cannot
/// equal the recomputed base64 digest). That an unexpired token is accepted
/// is left unstated.
#[verifier::external_body]
pub(crate) fn decode_hs256(token: &str, secret: &str) -> (r: Option<String>)
    ensures
        !is_token_shape(token@) ==> r is None,
        hs256_claims(token@, secret@) is None ==> r is None,
        r matches Some(c) ==> hs256_claims(token@, secret@) == Some(c@),
{
    let key = jsonwebtoken::DecodingKey::from_secret(secret.as_bytes());
    let validation = jsonwebtoken::Validation::new(jsonwebtoken::Algorithm::HS256);
    let data = jsonwebtoken::decode::<Box<serde_json::value::RawValue>>(token, &key, &validation).ok()?;
    Some(data.claims.get().to_string())
}

} // verus!
