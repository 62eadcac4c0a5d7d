//! The content hash behind batch identifiers.
//!
//! The digest itself is computed by the `sha2` crate; this module gives its
//! result a name, `sha256_of`, that the rest of the library's contracts can
//! speak of. Identifier uniqueness rests on the collision resistance of
//! SHA-256, a design dependency that is assumed, not proved, here.

use vstd::prelude::*;

verus! {

/// The SHA-256 digest of a byte sequence: 32 bytes, a function of the input
/// alone.
pub uninterp spec fn sha256_of(bytes: Seq<u8>) -> Seq<u8>;

/// Relies on sha2::Sha256 through the Digest trait: the digest is 32 bytes
/// long and depends on the input bytes alone.
#[verifier::external_body]
pub(crate) fn sha256_digest(data: &Vec<u8>) -> (r: Vec<u8>)
    ensures
        r@ == sha256_of(data@),
        r@.len() == 32,
{
    let digest = <sha2::Sha256 as sha2::Digest>::digest(data.as_slice());
    digest.to_vec()
}

} // verus!
