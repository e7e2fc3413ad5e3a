//! The signed payload of a token, and the answer given when one is issued.

use vstd::prelude::*;

verus! {

/// How long a token stays valid after it was issued, in seconds.
pub const TOKEN_TTL: u64 = 3600;

/// What a token asserts: who it stands for, when it was issued, when it
/// expires, and who issued it. Times are seconds since the Unix epoch.
#[derive(Clone, Debug, PartialEq, Eq)]
pub struct Claims {
    pub sub: String,
    pub exp: u64,
    pub iat: u64,
    pub iss: String,
}

/// [`Claims`] as specifications see them.
pub struct ClaimsView {
    pub sub: Seq<char>,
    pub exp: u64,
    pub iat: u64,
    pub iss: Seq<char>,
}

impl View for Claims {
    type V = ClaimsView;

    open spec fn view(&self) -> ClaimsView {
        ClaimsView { sub: self.sub@, exp: self.exp, iat: self.iat, iss: self.iss@ }
    }
}

impl ClaimsView {
    /// The claims that are written for `subject` at time `now` under `issuer`.
    pub open spec fn minted(subject: Seq<char>, issuer: Seq<char>, now: u64) -> ClaimsView
        recommends
            now + TOKEN_TTL <= u64::MAX,
    {
        ClaimsView { sub: subject, exp: (now + TOKEN_TTL) as u64, iat: now, iss: issuer }
    }

    /// What holds of claims when they are issued: they name someone, and
    /// they expire one time-to-live after they were issued.
    pub open spec fn fresh(self) -> bool {
        &&& self.sub.len() > 0
        &&& self.exp == self.iat + TOKEN_TTL
    }

    /// What must hold of claims when they are presented at time `now` to a
    /// service that issues under the name `issuer`.
    pub open spec fn valid_at(self, now: u64, issuer: Seq<char>) -> bool {
        &&& now < self.exp
        &&& self.iss == issuer
    }
}

impl Claims {
    /// Writes the claims for `subject` at time `now` under `issuer`. There
    /// are none where the expiry time cannot be written in 64 bits.
    pub fn mint(subject: &str, issuer: &str, now: u64) -> (claims: Option<Claims>)
        ensures
            claims is Some <==> now + TOKEN_TTL <= u64::MAX,
            claims is Some ==> claims->0@ == ClaimsView::minted(subject@, issuer@, now),
            claims is Some && subject@.len() > 0 ==> claims->0@.fresh(),
    {
        match now.checked_add(TOKEN_TTL) {
            Some(exp) => Some(
                Claims { sub: subject.to_owned(), exp, iat: now, iss: issuer.to_owned() },
            ),
            None => None,
        }
    }
}

/// The fields of a decoded token payload, each present only if the payload
/// has a member of that name and of the right JSON type.
#[derive(Clone, Debug, PartialEq, Eq)]
pub struct Payload {
    pub sub: Option<String>,
    pub exp: Option<u64>,
    pub iat: Option<u64>,
    pub iss: Option<String>,
}

/// A [`Payload`] as specifications see it.
pub struct PayloadView {
    pub sub: Option<Seq<char>>,
    pub exp: Option<u64>,
    pub iat: Option<u64>,
    pub iss: Option<Seq<char>>,
}

/// The view of a string that may be absent.
pub open spec fn text(s: Option<String>) -> Option<Seq<char>> {
    match s {
        Some(s) => Some(s@),
        None => None,
    }
}

impl View for Payload {
    type V = PayloadView;

    open spec fn view(&self) -> PayloadView {
        PayloadView { sub: text(self.sub), exp: self.exp, iat: self.iat, iss: text(self.iss) }
    }
}

impl PayloadView {
    /// The payload that holds exactly these claims.
    pub open spec fn of(claims: ClaimsView) -> PayloadView {
        PayloadView {
            sub: Some(claims.sub),
            exp: Some(claims.exp),
            iat: Some(claims.iat),
            iss: Some(claims.iss),
        }
    }

    /// The claims that a payload holds, if it holds all four.
    pub open spec fn claims(self) -> Option<ClaimsView> {
        if self.sub is Some && self.exp is Some && self.iat is Some && self.iss is Some {
            Some(
                ClaimsView {
                    sub: self.sub->0,
                    exp: self.exp->0,
                    iat: self.iat->0,
                    iss: self.iss->0,
                },
            )
        } else {
            None
        }
    }
}

impl Payload {
    /// Turns a payload into claims; fails if a field is missing.
    pub fn into_claims(self) -> (claims: Option<Claims>)
        ensures
            match self@.claims() {
                Some(c) => claims matches Some(x) && x@ == c,
                None => claims is None,
            },
    {
        match (self.sub, self.exp, self.iat, self.iss) {
            (Some(sub), Some(exp), Some(iat), Some(iss)) => Some(Claims { sub, exp, iat, iss }),
            _ => None,
        }
    }
}

/// What the client receives when a token is issued.
#[derive(Clone, Debug, PartialEq, Eq)]
pub struct GetJWT {
    pub access_token: String,
    pub token_type: String,
    pub expires_in: i64,
}

impl GetJWT {
    /// The reply that hands out `access_token` as a bearer token with the
    /// full time-to-live ahead of it.
    pub fn bearer(access_token: String) -> (reply: GetJWT)
        ensures
            reply@ == GetJWTView::bearer(access_token@),
    {
        GetJWT { access_token, token_type: "Bearer".to_owned(), expires_in: TOKEN_TTL as i64 }
    }
}

/// A [`GetJWT`] as specifications see it.
pub struct GetJWTView {
    pub access_token: Seq<char>,
    pub token_type: Seq<char>,
    pub expires_in: i64,
}

impl GetJWTView {
    /// The reply that hands out `access_token` as a bearer token with the
    /// full time-to-live ahead of it.
    pub open spec fn bearer(access_token: Seq<char>) -> GetJWTView {
        GetJWTView { access_token, token_type: "Bearer"@, expires_in: TOKEN_TTL as i64 }
    }
}

impl View for GetJWT {
    type V = GetJWTView;

    open spec fn view(&self) -> GetJWTView {
        GetJWTView {
            access_token: self.access_token@,
            token_type: self.token_type@,
            expires_in: self.expires_in,
        }
    }
}

} // verus!
