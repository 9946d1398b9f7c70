//! The two outside computations of the registry: SHA-256 and base64.

use vstd::prelude::*;

verus! {

/// The SHA-256 digest of `data`, as the crate `sha2` computes it.
pub uninterp spec fn sha256_of(data: Seq<u8>) -> Seq<u8>;

/// The base64 text of `data` in the standard alphabet with padding, as the crate
/// `base64` computes it.
pub uninterp spec fn base64_of(data: Seq<u8>) -> Seq<char>;

/// The number of characters that base64 with padding needs for `len` bytes.
pub open spec fn base64_size(len: nat) -> int {
    (len / 3) * 4 + if len % 3 > 0 {
        4int
    } else {
        0int
    }
}

/// Calls `sha2::Sha256::digest`. Trusted: the result is the digest of `data`, a
/// function of `data` alone, and is 32 bytes long.
#[verifier::external_body]
pub(crate) fn sha_256(data: &[u8]) -> (hash: Vec<u8>)
    ensures
        hash@ == sha256_of(data@),
        hash@.len() == 32,
{
    <sha2::Sha256 as sha2::Digest>::digest(data).to_vec()
}

/// Calls `base64::encode`. Trusted: the result is the encoding of `data`, a
/// function of `data` alone. The outside function panics where the size of the
/// encoding does not fit `usize`; `requires` leaves those inputs out.
#[verifier::external_body]
pub(crate) fn base64_encode(data: &[u8]) -> (text: String)
    requires
        base64_size(data@.len()) <= usize::MAX,
    ensures
        text@ == base64_of(data@),
{
    base64::encode(data)
}

} // verus!
