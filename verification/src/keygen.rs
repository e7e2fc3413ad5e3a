//! Making a fresh signing secret.

use vstd::prelude::*;

verus! {

/// How many random bytes a secret is made of.
pub const KEY_BYTES: usize = 32;

/// The standard, padded base64 text of `bytes`, as the `base64` crate's
/// `STANDARD` engine writes it.
pub uninterp spec fn base64_standard(bytes: Seq<u8>) -> Seq<char>;

/// Calls `fill_bytes` of `rand::rngs::OsRng`, which overwrites `buffer`
/// with bytes from the operating system's random source.
///
/// Relied upon: the buffer keeps its length. Nothing is said of the bytes.
/// The call does not return if the operating system has no randomness to
/// give.
#[verifier::external_body]
fn fill_random(buffer: &mut [u8; 32])
    ensures
        final(buffer)@.len() == old(buffer)@.len(),
{
    rand::RngCore::fill_bytes(&mut rand::rngs::OsRng, buffer)
}

/// Calls `encode` of `base64::engine::general_purpose::STANDARD`.
///
/// Relied upon: the result is a function of the bytes, and 32 bytes give
/// 44 characters (ten groups of four, and one padded group).
#[verifier::external_body]
fn encode_base64(bytes: &[u8; 32]) -> (text: String)
    ensures
        text@ == base64_standard(bytes@),
        text@.len() == 44,
{
    base64::Engine::encode(&base64::engine::general_purpose::STANDARD, bytes)
}

/// Writes key material as text.
pub fn encode_key(bytes: &[u8; 32]) -> (key: String)
    ensures
        key@ == base64_standard(bytes@),
        key@.len() == 44,
{
    encode_base64(bytes)
}

/// Draws 32 random bytes and returns them as base64 text.
pub fn generate_random_key() -> (key: String)
    ensures
        exists|bytes: Seq<u8>| bytes.len() == KEY_BYTES && key@ == #[trigger] base64_standard(bytes),
        key@.len() == 44,
{
    let mut bytes = [0u8; 32];
    fill_random(&mut bytes);
    encode_key(&bytes)
}

} // verus!
