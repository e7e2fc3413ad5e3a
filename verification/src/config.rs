//! Process configuration: read once at start-up, never changed afterwards.

use vstd::prelude::*;

verus! {

/// How to reach the database.
#[derive(Clone, Debug)]
pub struct PostgresConfig {
    pub user: String,
    pub password: String,
    pub host: String,
    pub port: String,
    pub database: String,
    pub database_url: String,
}

/// What tokens are signed with and whom they name as their issuer.
#[derive(Clone, Debug)]
pub struct JWTConfig {
    pub secret: String,
    pub issuer: String,
}

/// The whole configuration of the service.
#[derive(Clone, Debug)]
pub struct Config {
    pub postgres: PostgresConfig,
    pub jwt: JWTConfig,
}

/// A [`JWTConfig`] as specifications see it.
pub struct JWTConfigView {
    pub secret: Seq<char>,
    pub issuer: Seq<char>,
}

impl View for JWTConfig {
    type V = JWTConfigView;

    open spec fn view(&self) -> JWTConfigView {
        JWTConfigView { secret: self.secret@, issuer: self.issuer@ }
    }
}

/// The view of a configuration that may be absent.
pub open spec fn settings(config: Option<&JWTConfig>) -> Option<JWTConfigView> {
    match config {
        Some(c) => Some(c@),
        None => None,
    }
}

impl JWTConfig {
    /// Builds the signing configuration from the two values it consists of.
    /// The configuration exists exactly when both are present.
    pub fn from_parts(secret: Option<String>, issuer: Option<String>) -> (config: Option<JWTConfig>)
        ensures
            match (secret, issuer) {
                (Some(s), Some(i)) => config matches Some(c) && c.secret@ == s@ && c.issuer@ == i@,
                _ => config is None,
            },
    {
        match (secret, issuer) {
            (Some(s), Some(i)) => Some(JWTConfig { secret: s, issuer: i }),
            _ => None,
        }
    }
}

} // verus!
