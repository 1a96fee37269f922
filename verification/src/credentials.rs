//! The key under which the credentials are locked away.

use vstd::prelude::*;
use vstd::string::*;

verus! {

/// The SHA-256 digest of `data`, as `sha2` computes it.
pub uninterp spec fn sha256(data: Seq<u8>) -> Seq<u8>;

/// Calls `sha2::Sha256::digest`.
///
/// The claims are that the digest depends on `data` alone and that it has
/// 32 bytes, the output size that `sha2` declares for SHA-256.
#[verifier::external_body]
fn sha256_digest(data: &[u8]) -> (digest: Vec<u8>)
    ensures
        digest@ == sha256(data@),
        digest@.len() == 32,
{
    <sha2::Sha256 as sha2::Digest>::digest(data).to_vec()
}

/// What is hashed into the key: the application's identifier, a colon, and
/// the directory.
pub open spec fn password_input(app_identifier: Seq<char>, app_dir: Seq<char>) -> Seq<char> {
    app_identifier + ":"@ + app_dir
}

/// Derives the 32-byte key of the credential store from the application's
/// identifier and its data directory, so that each user and machine has a
/// key of its own and none is stored anywhere.
pub fn derive_stronghold_password(app_identifier: &str, app_dir: &str) -> (key: Vec<u8>)
    ensures
        key@ == sha256(vstd::utf8::encode_utf8(password_input(app_identifier@, app_dir@))),
        key@.len() == 32,
{
    let mut input = String::from_str(app_identifier);
    input.append(":");
    input.append(app_dir);
    sha256_digest(input.as_str().as_bytes())
}

} // verus!
