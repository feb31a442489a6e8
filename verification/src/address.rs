use vstd::prelude::*;

use crate::types::{AccountId, ProjectError};

verus! {

/// The 32 public-key bytes that a string encodes as an SS58Check address of
/// a non-reserved format, or nothing where the string is not such an
/// address. The decoding depends on the characters alone.
pub uninterp spec fn ss58_decoded(s: Seq<char>) -> Option<Seq<u8>>;

/// Relies on sp_core::crypto::Ss58Codec::from_ss58check_with_version for
/// sr25519 public keys: it base58-decodes the string, parses the format
/// prefix, verifies the blake2 checksum, and hands back the 32 key bytes
/// exactly when all of that succeeds — a function of the input string alone.
#[verifier::external_body]
pub(crate) fn decode_ss58(s: &String) -> (r: Result<AccountId, ProjectError>)
    ensures
        (r matches Ok(a) ==> ss58_decoded(s@) == Some(a.bytes@) && a.bytes@.len() == 32),
        (r is Err ==> ss58_decoded(s@) is None && r == Err::<AccountId, ProjectError>(
            ProjectError::InvalidAddress,
        )),
{
    match <sp_core::sr25519::Public as sp_core::crypto::Ss58Codec>::from_ss58check_with_version(s) {
        Ok((public, _format)) => Ok(AccountId { bytes: public.0.to_vec() }),
        Err(_) => Err(ProjectError::InvalidAddress),
    }
}

} // verus!
