//! Issuing tokens and checking them on protected requests.

use crate::claims::{Claims, ClaimsView, GetJWT, GetJWTView, Payload, PayloadView, TOKEN_TTL};
use crate::clock::unix_now;
use crate::config::{settings, JWTConfig, JWTConfigView};
use crate::error::{AuthError, Rejection};
use crate::header::{authorization_of, find_authorization};
use crate::token::{
    compact, decode_claims, encode_claims, hs256_signature, jwt_decode, jwt_encode, last_dot,
    signed_with,
};
use vstd::prelude::*;
use vstd::string::*;

verus! {

/// The scheme prefix of an `Authorization` header value: the word `Bearer`
/// and one space.
pub open spec fn scheme() -> Seq<char> {
    seq!['B', 'e', 'a', 'r', 'e', 'r', ' ']
}

/// The token that a header value carries: what follows the scheme prefix,
/// if the value begins with it.
pub open spec fn bearer_token(header: Seq<char>) -> Option<Seq<char>> {
    if scheme().is_prefix_of(header) {
        Some(header.skip(scheme().len() as int))
    } else {
        None
    }
}

/// The view of an identity that may be absent.
pub open spec fn named(identity: Option<&str>) -> Option<Seq<char>> {
    match identity {
        Some(h) => Some(h@),
        None => None,
    }
}

/// Splits the scheme prefix off a header value.
pub fn strip_scheme(header: &str) -> (token: Option<&str>)
    ensures
        match bearer_token(header@) {
            Some(t) => token matches Some(x) && x@ == t,
            None => token is None,
        },
{
    let prefix = "Bearer ";
    proof {
        reveal_strlit("Bearer ");
        assert(prefix@ =~= scheme());
    }
    let n = header.unicode_len();
    if n < 7 {
        return None;
    }
    let mut i: usize = 0;
    while i < 7
        invariant
            i <= 7 <= n == header@.len(),
            prefix@ == scheme(),
            forall|j: int| 0 <= j < i ==> header@[j] == scheme()[j],
        decreases 7 - i,
    {
        if header.get_char(i) != prefix.get_char(i) {
            return None;
        }
        i += 1;
    }
    assert(header@.subrange(0, 7) =~= scheme());
    Some(header.substring_char(7, n))
}

/// The payload of a token that passes under `secret`: the token is not
/// empty, it ends in its HS256 signature under `secret`, and it decodes.
pub open spec fn verified(secret: Seq<char>, token: Seq<char>) -> Option<PayloadView> {
    if token.len() > 0 && signed_with(secret, token) {
        jwt_decode(secret, token)
    } else {
        None
    }
}

/// The claims of a token that is accepted under `secret`: it passes under
/// `secret` and its payload holds all four claims.
pub open spec fn accepted(secret: Seq<char>, token: Seq<char>) -> Option<ClaimsView> {
    match verified(secret, token) {
        Some(payload) => payload.claims(),
        None => None,
    }
}

/// What becomes, at time `now`, of a payload whose token has passed: it
/// must hold all four claims, `now` must lie before the expiry time, and
/// the issuer must be the configured one.
pub open spec fn judge(issuer: Seq<char>, payload: PayloadView, now: u64) -> Result<
    ClaimsView,
    Rejection,
> {
    match payload.claims() {
        None => Err(Rejection::InvalidToken),
        Some(claims) => if claims.exp <= now {
            Err(Rejection::Expired)
        } else if claims.iss != issuer {
            Err(Rejection::WrongIssuer)
        } else {
            Ok(claims)
        },
    }
}

/// What becomes of a request that arrives at time `now` with the given
/// `Authorization` header value: the claims it is let through with, or the
/// first check that it fails. The checks, in order: a configuration is
/// there; the header is there; it begins with the scheme prefix; the token
/// is accepted under the configured secret; it has not expired; it was
/// issued under the configured name.
pub open spec fn examine(
    config: Option<JWTConfigView>,
    authorization: Option<Seq<char>>,
    now: u64,
) -> Result<ClaimsView, Rejection> {
    match (config, authorization) {
        (None, _) => Err(Rejection::Unconfigured),
        (Some(_), None) => Err(Rejection::MissingHeader),
        (Some(c), Some(header)) => match bearer_token(header) {
            None => Err(Rejection::WrongScheme),
            Some(token) => match verified(c.secret, token) {
                None => Err(Rejection::InvalidToken),
                Some(payload) => judge(c.issuer, payload, now),
            },
        },
    }
}

/// `result` is what `finding` says, with claims taken by their view.
pub open spec fn agrees<E>(result: Result<Claims, E>, finding: Result<ClaimsView, E>) -> bool {
    match finding {
        Ok(claims) => result matches Ok(c) && c@ == claims,
        Err(e) => result matches Err(x) && x == e,
    }
}

/// What the client observes of an examination: every cause of rejection but a
/// missing configuration looks the same.
pub open spec fn observed(finding: Result<ClaimsView, Rejection>) -> Result<ClaimsView, AuthError> {
    match finding {
        Ok(claims) => Ok(claims),
        Err(cause) => Err(cause.outcome()),
    }
}

/// Checks the payload of a token that has passed against the clock and
/// the configured issuer.
pub fn check_claims(config: &JWTConfig, payload: Payload, now: u64) -> (result: Result<
    Claims,
    Rejection,
>)
    ensures
        agrees(result, judge(config.issuer@, payload@, now)),
        result matches Ok(claims) ==> claims@.valid_at(now, config.issuer@),
{
    let claims = match payload.into_claims() {
        Some(c) => c,
        None => return Err(Rejection::InvalidToken),
    };
    if claims.exp <= now {
        return Err(Rejection::Expired);
    }
    if claims.iss != config.issuer {
        return Err(Rejection::WrongIssuer);
    }
    Ok(claims)
}

/// Checks a request with the given headers that arrives at time `now`,
/// and says, when it is turned away, which check it failed.
pub fn inspect(config: Option<&JWTConfig>, headers: &Vec<(String, String)>, now: u64) -> (result:
    Result<Claims, Rejection>)
    ensures
        agrees(result, examine(settings(config), authorization_of(headers@), now)),
{
    let config = match config {
        Some(c) => c,
        None => return Err(Rejection::Unconfigured),
    };
    let header = match find_authorization(headers) {
        Some(h) => h,
        None => return Err(Rejection::MissingHeader),
    };
    let token = match strip_scheme(header) {
        Some(t) => t,
        None => return Err(Rejection::WrongScheme),
    };
    if token.unicode_len() == 0 {
        return Err(Rejection::InvalidToken);
    }
    let payload = match decode_claims(config.secret.as_str(), token) {
        Ok(p) => p,
        Err(_) => return Err(Rejection::InvalidToken),
    };
    check_claims(config, payload, now)
}

/// A request is turned away for its header alone: the header is missing,
/// it does not begin with the scheme prefix, or nothing follows the prefix.
pub open spec fn turned_away(authorization: Option<Seq<char>>) -> bool {
    match authorization {
        None => true,
        Some(header) => bearer_token(header) is None || header == scheme(),
    }
}

/// The claims of the token that the request presents, if it presents one
/// that is accepted under the configured secret.
pub open spec fn presented(config: JWTConfigView, authorization: Option<Seq<char>>) -> Option<
    ClaimsView,
> {
    match authorization {
        Some(header) => match bearer_token(header) {
            Some(token) => accepted(config.secret, token),
            None => None,
        },
        None => None,
    }
}

/// The request presents an accepted token whose expiry time has been
/// reached at time `now`.
pub open spec fn presents_expired(
    config: JWTConfigView,
    authorization: Option<Seq<char>>,
    now: u64,
) -> bool {
    presented(config, authorization) matches Some(claims) && claims.exp <= now
}

/// The request presents an accepted token that names another issuer than
/// the configured one.
pub open spec fn presents_foreign(config: JWTConfigView, authorization: Option<Seq<char>>) -> bool {
    presented(config, authorization) matches Some(claims) && claims.iss != config.issuer
}

/// Admits a request with the given headers that arrives at time `now`: the
/// verified claims, whose `sub` is the caller's identity, or the error that
/// the client is shown.
///
/// Without a configuration the answer is a server error. With one, a
/// request that is turned away is unauthorized, whatever the cause: among
/// others a request without the header, with another scheme, or with
/// nothing after the scheme, and one whose token, whatever its signature,
/// has reached its expiry time or names another issuer.
pub fn authorize_at(config: Option<&JWTConfig>, headers: &Vec<(String, String)>, now: u64) -> (result:
    Result<Claims, AuthError>)
    ensures
        agrees(result, observed(examine(settings(config), authorization_of(headers@), now))),
        config is None ==> result == Err::<Claims, AuthError>(AuthError::ServerError),
        config is Some && result is Err ==> result == Err::<Claims, AuthError>(
            AuthError::Unauthorized,
        ),
        config is Some && turned_away(authorization_of(headers@)) ==> result == Err::<
            Claims,
            AuthError,
        >(AuthError::Unauthorized),
        config is Some && presents_expired(config->0@, authorization_of(headers@), now) ==> result
            == Err::<Claims, AuthError>(AuthError::Unauthorized),
        config is Some && presents_foreign(config->0@, authorization_of(headers@)) ==> result
            == Err::<Claims, AuthError>(AuthError::Unauthorized),
        result is Ok ==> config is Some && result->Ok_0@.valid_at(now, config->0.issuer@),
{
    match inspect(config, headers, now) {
        Ok(claims) => Ok(claims),
        Err(cause) => Err(cause.outcome()),
    }
}

/// Admits a request at the present time, read from the system clock.
/// The result is that of [`authorize_at`] at some time `now`.
pub fn authorize(config: Option<&JWTConfig>, headers: &Vec<(String, String)>) -> (result: Result<
    Claims,
    AuthError,
>)
    ensures
        exists|now: u64|
            agrees(
                result,
                observed(#[trigger] examine(settings(config), authorization_of(headers@), now)),
            ),
        config is None ==> result == Err::<Claims, AuthError>(AuthError::ServerError),
        config is Some && result is Err ==> result == Err::<Claims, AuthError>(
            AuthError::Unauthorized,
        ),
        config is Some && turned_away(authorization_of(headers@)) ==> result == Err::<
            Claims,
            AuthError,
        >(AuthError::Unauthorized),
        config is Some && presents_foreign(config->0@, authorization_of(headers@)) ==> result
            == Err::<Claims, AuthError>(AuthError::Unauthorized),
        result is Ok ==> config is Some && result->Ok_0.iss@ == config->0.issuer@,
{
    let now = unix_now();
    authorize_at(config, headers, now as u64)
}

/// A token was issued to `subject` at time `now` under `config`: it is
/// the encoding of the claims written then, it has the compact form, it
/// ends in its signature under the configured secret, and it decodes under
/// that secret to those claims.
pub open spec fn issued(config: JWTConfigView, subject: Seq<char>, now: u64, token: Seq<char>) -> bool {
    let claims = ClaimsView::minted(subject, config.issuer, now);
    &&& now + TOKEN_TTL <= u64::MAX
    &&& jwt_encode(config.secret, claims.sub, claims.exp, claims.iat, claims.iss) == Some(token)
    &&& compact(token)
    &&& signed_with(config.secret, token)
    &&& jwt_decode(config.secret, token) == Some(PayloadView::of(claims))
}

/// What a request for a token is answered with at time `now`, where
/// `identity` is what the credential check came back with. A failed
/// credential check comes first, then a missing configuration; after that
/// only writing the expiry time and signing can fail.
pub open spec fn issuance(
    config: Option<JWTConfigView>,
    identity: Option<Seq<char>>,
    now: u64,
) -> Result<GetJWTView, AuthError> {
    match (identity, config) {
        (None, _) => Err(AuthError::Unauthorized),
        (Some(_), None) => Err(AuthError::ServerError),
        (Some(subject), Some(c)) => if now + TOKEN_TTL > u64::MAX {
            Err(AuthError::ServerError)
        } else {
            let claims = ClaimsView::minted(subject, c.issuer, now);
            match jwt_encode(c.secret, claims.sub, claims.exp, claims.iat, claims.iss) {
                Some(token) => Ok(GetJWTView::bearer(token)),
                None => Err(AuthError::ServerError),
            }
        },
    }
}

/// `token` is accepted under `config`, and its claims name `subject` and
/// the configured issuer and expire one time-to-live after they were
/// issued.
pub open spec fn stands_for(config: JWTConfigView, token: Seq<char>, subject: Seq<char>) -> bool {
    &&& accepted(config.secret, token) matches Some(claims)
    &&& claims.sub == subject
    &&& claims.iss == config.issuer
    &&& claims.exp - claims.iat == TOKEN_TTL
}

/// `result` is what `answer` says, with the reply taken by its view.
pub open spec fn replies(result: Result<GetJWT, AuthError>, answer: Result<GetJWTView, AuthError>) -> bool {
    match answer {
        Ok(reply) => result matches Ok(r) && r@ == reply,
        Err(e) => result matches Err(x) && x == e,
    }
}

/// Issues a token at time `now` for the identity that the credential check
/// came back with, `None` standing for credentials that were not accepted.
///
/// A token that is returned is accepted under the same configuration, and
/// its claims name `identity` as subject and the configured issuer, and
/// expire one time-to-live after they were issued.
pub fn new_at(config: Option<&JWTConfig>, identity: Option<&str>, now: u64) -> (result: Result<
    GetJWT,
    AuthError,
>)
    ensures
        replies(result, issuance(settings(config), named(identity), now)),
        result is Ok ==> config is Some && identity is Some,
        result is Ok ==> issued(config->0@, identity->0@, now, result->Ok_0.access_token@),
        result is Ok ==> stands_for(config->0@, result->Ok_0.access_token@, identity->0@),
{
    let subject = match identity {
        Some(s) => s,
        None => return Err(AuthError::Unauthorized),
    };
    let config = match config {
        Some(c) => c,
        None => return Err(AuthError::ServerError),
    };
    let claims = match Claims::mint(subject, config.issuer.as_str(), now) {
        Some(c) => c,
        None => return Err(AuthError::ServerError),
    };
    match encode_claims(config.secret.as_str(), &claims) {
        Ok(token) => Ok(GetJWT::bearer(token)),
        Err(_) => Err(AuthError::ServerError),
    }
}

/// Issues a token at the present time, read from the system clock.
/// The result is that of [`new_at`] at some time `now`.
pub fn new(config: Option<&JWTConfig>, identity: Option<&str>) -> (result: Result<GetJWT, AuthError>)
    ensures
        exists|now: u64|
            {
                &&& now + TOKEN_TTL <= u64::MAX
                &&& replies(result, #[trigger] issuance(settings(config), named(identity), now))
                &&& result is Ok ==> issued(
                    config->0@,
                    identity->0@,
                    now,
                    result->Ok_0.access_token@,
                )
            },
        identity is None ==> result == Err::<GetJWT, AuthError>(AuthError::Unauthorized),
        identity is Some && config is None ==> result == Err::<GetJWT, AuthError>(
            AuthError::ServerError,
        ),
        result is Ok ==> config is Some && identity is Some,
        result is Ok ==> stands_for(config->0@, result->Ok_0.access_token@, identity->0@),
{
    let now = unix_now();
    new_at(config, identity, now as u64)
}

/// What a token's signature is computed over: everything before its last `.`.
pub open spec fn signed_part(token: Seq<char>) -> Seq<char> {
    token.take(choose|dot: int| last_dot(token, dot))
}

/// A header value made of the scheme prefix and `token` carries `token`.
pub proof fn scheme_then_token_carries_token(token: Seq<char>)
    ensures
        bearer_token(scheme() + token) == Some(token),
{
    let header = scheme() + token;
    assert(header.subrange(0, scheme().len() as int) =~= scheme());
    assert(header.skip(scheme().len() as int) =~= token);
}

/// Round trip: a token that was issued under a configuration is let
/// through under the same configuration at any time before it expires,
/// with the claims that were written when it was issued, and so with the
/// identity it was issued to.
pub proof fn issued_token_is_accepted(
    config: JWTConfigView,
    subject: Seq<char>,
    issued_at: u64,
    token: Seq<char>,
    now: u64,
)
    requires
        issued(config, subject, issued_at, token),
        now < issued_at + TOKEN_TTL,
    ensures
        examine(Some(config), Some(scheme() + token), now) == Ok::<ClaimsView, Rejection>(
            ClaimsView::minted(subject, config.issuer, issued_at),
        ),
        examine(Some(config), Some(scheme() + token), now) matches Ok(claims) && claims.sub
            == subject,
{
    scheme_then_token_carries_token(token);
}

/// A token that was issued under one secret is turned away under another,
/// provided the two secrets do not happen to sign the token's signed part
/// alike.
pub proof fn token_is_rejected_under_other_secret(
    config: JWTConfigView,
    other: JWTConfigView,
    subject: Seq<char>,
    issued_at: u64,
    token: Seq<char>,
    now: u64,
)
    requires
        issued(config, subject, issued_at, token),
        hs256_signature(other.secret, signed_part(token)) != hs256_signature(
            config.secret,
            signed_part(token),
        ),
    ensures
        examine(Some(other), Some(scheme() + token), now) == Err::<ClaimsView, Rejection>(
            Rejection::InvalidToken,
        ),
        observed(examine(Some(other), Some(scheme() + token), now)) == Err::<ClaimsView, AuthError>(
            AuthError::Unauthorized,
        ),
{
    scheme_then_token_carries_token(token);
    let dot = choose|dot: int| last_dot(token, dot);
    assert(last_dot(token, dot));
    assert forall|d: int| #[trigger] last_dot(token, d) implies d == dot by {}
}

} // verus!
