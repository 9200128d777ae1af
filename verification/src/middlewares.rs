//! The authentication layer in front of the protected routes.

use vstd::prelude::*;
use crate::jwt::{hs256_claims, is_token_shape, is_token_text};
use crate::models::user::StatusCode;
use crate::routes::validate_token;
use crate::text::{all_visible, ascii_chars, header_text, is_visible_ascii};
use vstd::utf8::{encode_utf8, is_ascii_chars, is_ascii_chars_encode_utf8};

verus! {

/// Decides whether a request passes the authentication layer, from the raw
/// bytes of its `Authorization` header (`None` when it has none) and the
/// token secret. The header, read as text, is the token itself. A missing
/// header, one that is not visible ASCII text, one that is not a bare token
/// (three runs of URL-safe base64 joined by two dots, so no scheme such as
/// `Bearer ` before it), or a token that is refused gives a 401; otherwise
/// the token's claims, as JSON text, are what the layer attaches to the
/// request.
pub fn with_auth(auth_header: Option<&[u8]>, jwt_secret: &str) -> (r: Result<String, StatusCode>)
    ensures
        r matches Err(e) ==> e == StatusCode::Unauthorized,
        match auth_header {
            None => r == Err::<String, StatusCode>(StatusCode::Unauthorized),
            Some(bytes) => if !all_visible(bytes@) {
                r == Err::<String, StatusCode>(StatusCode::Unauthorized)
            } else {
                &&& !is_token_shape(ascii_chars(bytes@)) ==> r == Err::<String, StatusCode>(
                    StatusCode::Unauthorized,
                )
                &&& hs256_claims(ascii_chars(bytes@), jwt_secret@) is None ==> r == Err::<
                    String,
                    StatusCode,
                >(StatusCode::Unauthorized)
                &&& r matches Ok(c) ==> hs256_claims(ascii_chars(bytes@), jwt_secret@) == Some(c@)
            },
        },
{
    let bytes = match auth_header {
        Some(b) => b,
        None => return Err(StatusCode::Unauthorized),
    };
    let token = match header_text(bytes) {
        Some(t) => t,
        None => return Err(StatusCode::Unauthorized),
    };
    match validate_token(token.as_str(), jwt_secret) {
        Ok(claims) => Ok(claims),
        Err(_) => Err(StatusCode::Unauthorized),
    }
}

/// A token sent as the `Authorization` header reads back, byte for byte, as
/// the token itself: its UTF-8 bytes are all visible ASCII and their
/// characters are the token's characters. So the layer checks exactly the
/// token that login or sign-up granted.
pub proof fn law_token_header_reads_as_token(t: Seq<char>)
    requires
        is_token_text(t),
    ensures
        all_visible(encode_utf8(t)),
        ascii_chars(encode_utf8(t)) == t,
{
    assert(is_ascii_chars(t));
    is_ascii_chars_encode_utf8(t);
    let bs = encode_utf8(t);
    assert forall|k: int| 0 <= k < bs.len() implies is_visible_ascii(#[trigger] bs[k]) by {
        assert(t[k] as u8 == bs[k]);
    }
    assert forall|k: int| 0 <= k < t.len() implies #[trigger] ascii_chars(bs)[k] == t[k] by {
        assert(t[k] as u8 == bs[k]);
    }
}

} // verus!
