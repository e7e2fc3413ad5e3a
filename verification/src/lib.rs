//! Stateless bearer-token authentication.
//!
//! A token is issued once an identity has been established and is checked on
//! every later request. Tokens are HS256-signed JSON Web Tokens; the signing
//! secret and the issuer name are fixed for the life of the process.
//!
//! * [`jwt`] issues tokens and admits or turns away requests.
//! * [`header`] finds the `Authorization` header of a request.
//! * [`claims`] and [`config`] hold the data both sides share.
//! * [`error`] names what a client can be told, and why.
//! * [`token`] is where signing and decoding are handed to `jsonwebtoken`.
//! * [`identity`], [`keygen`] and [`reply`] serve the handlers behind it.

pub mod claims;
mod clock;
pub mod config;
pub mod error;
pub mod header;
pub mod identity;
pub mod jwt;
pub mod keygen;
pub mod reply;
pub mod token;
