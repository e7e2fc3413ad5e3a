//! Signing and checking of tokens. The work is done by the `jsonwebtoken`
//! crate; this module says what is relied upon and proves nothing of it.

use crate::claims::{Claims, Payload, PayloadView};
use vstd::prelude::*;

verus! {

/// The error type of `jsonwebtoken`. Nothing is read from it.
#[verifier::external_type_specification]
#[verifier::external_body]
pub struct ExTokenError(jsonwebtoken::errors::Error);

/// The HS256 signature of `message` under `secret`, as `jsonwebtoken::crypto::sign`
/// returns it: the HMAC-SHA256 digest in unpadded URL-safe base64.
pub uninterp spec fn hs256_signature(secret: Seq<char>, message: Seq<char>) -> Seq<char>;

/// The token that `jsonwebtoken::encode` makes of these four claims under
/// `secret` with its default header, or `None` where it fails.
pub uninterp spec fn jwt_encode(
    secret: Seq<char>,
    sub: Seq<char>,
    exp: u64,
    iat: u64,
    iss: Seq<char>,
) -> Option<Seq<char>>;

/// The four claims that the payload holds which `jsonwebtoken::decode`
/// reads from `token` under `secret`, or `None` where it refuses the token.
/// It is called with its default validation for HS256, but for the expiry
/// time, which it leaves unchecked.
pub uninterp spec fn jwt_decode(secret: Seq<char>, token: Seq<char>) -> Option<PayloadView>;

/// A character of the URL-safe base64 alphabet.
pub open spec fn base64url_char(c: char) -> bool {
    ||| 'A' <= c <= 'Z'
    ||| 'a' <= c <= 'z'
    ||| '0' <= c <= '9'
    ||| c == '-'
    ||| c == '_'
}

/// `token` has the compact form: three segments that are not empty, made
/// of URL-safe base64 characters and set apart by two `.`.
pub open spec fn compact(token: Seq<char>) -> bool {
    exists|first: int, second: int|
        {
            &&& 0 < first && first + 1 < second && second + 1 < token.len()
            &&& #[trigger] token[first] == '.' && #[trigger] token[second] == '.'
            &&& forall|i: int|
                0 <= i < token.len() && i != first && i != second ==> base64url_char(token[i])
        }
}

/// `dot` is the place of the last `.` in `token`.
pub open spec fn last_dot(token: Seq<char>, dot: int) -> bool {
    &&& 0 <= dot < token.len()
    &&& token[dot] == '.'
    &&& forall|i: int| dot < i < token.len() ==> token[i] != '.'
}

/// `token` ends, after its last `.`, in the HS256 signature under `secret`
/// of everything before that `.`.
pub open spec fn signed_with(secret: Seq<char>, token: Seq<char>) -> bool {
    exists|dot: int|
        #[trigger] last_dot(token, dot) && token.skip(dot + 1) == hs256_signature(
            secret,
            token.take(dot),
        )
}

/// Calls `jsonwebtoken::encode` with the default header (type `JWT`,
/// algorithm HS256), the four claims as a JSON object, and `secret` as an
/// HMAC key.
///
/// Relied upon: the result is a function of the arguments; a token that is
/// returned has the compact form of three base64 segments, ends in its own
/// HS256 signature under `secret`, and decodes under the same secret to
/// the four claims.
#[verifier::external_body]
pub(crate) fn encode_claims(secret: &str, claims: &Claims) -> (r: Result<
    String,
    jsonwebtoken::errors::Error,
>)
    ensures
        r matches Ok(token) ==> jwt_encode(
            secret@,
            claims.sub@,
            claims.exp,
            claims.iat,
            claims.iss@,
        ) == Some(token@),
        r is Err ==> jwt_encode(secret@, claims.sub@, claims.exp, claims.iat, claims.iss@) is None,
        r matches Ok(token) ==> compact(token@),
        r matches Ok(token) ==> exists|dot: int|
            #[trigger] last_dot(token@, dot) && token@.skip(dot + 1) == hs256_signature(
                secret@,
                token@.take(dot),
            ),
        r matches Ok(token) ==> jwt_decode(secret@, token@) == Some(PayloadView::of(claims@)),
{
    let mut payload = serde_json::Map::new();
    payload.insert(String::from("exp"), serde_json::Value::from(claims.exp));
    payload.insert(String::from("iat"), serde_json::Value::from(claims.iat));
    payload.insert(String::from("iss"), serde_json::Value::from(claims.iss.as_str()));
    payload.insert(String::from("sub"), serde_json::Value::from(claims.sub.as_str()));
    let key = jsonwebtoken::EncodingKey::from_secret(secret.as_bytes());
    jsonwebtoken::encode(&jsonwebtoken::Header::default(), &serde_json::Value::Object(payload), &key)
}

/// Calls `jsonwebtoken::decode` with `secret` as an HMAC key and the
/// default validation for HS256 with the expiry check switched off, so that
/// the clock is not read; then picks the four claims out of the JSON
/// payload, each as `None` where the payload has no such member of the
/// right type.
///
/// Relied upon: the result is a function of the arguments, and a token
/// that is accepted ends in its own HS256 signature under `secret`.
#[verifier::external_body]
pub(crate) fn decode_claims(secret: &str, token: &str) -> (r: Result<
    Payload,
    jsonwebtoken::errors::Error,
>)
    ensures
        r matches Ok(payload) ==> jwt_decode(secret@, token@) == Some(payload@),
        r is Err ==> jwt_decode(secret@, token@) is None,
        r is Ok ==> exists|dot: int|
            #[trigger] last_dot(token@, dot) && token@.skip(dot + 1) == hs256_signature(
                secret@,
                token@.take(dot),
            ),
{
    let mut rules = jsonwebtoken::Validation::new(jsonwebtoken::Algorithm::HS256);
    rules.validate_exp = false;
    let key = jsonwebtoken::DecodingKey::from_secret(secret.as_bytes());
    let data = jsonwebtoken::decode::<serde_json::Value>(token, &key, &rules)?;
    Ok(Payload {
        sub: data.claims["sub"].as_str().map(String::from),
        exp: data.claims["exp"].as_u64(),
        iat: data.claims["iat"].as_u64(),
        iss: data.claims["iss"].as_str().map(String::from),
    })
}

} // verus!
