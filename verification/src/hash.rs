//! Artifact integrity: the SHA-1 digest of downloaded bytes, rendered
//! as lowercase hexadecimal and compared to the declared checksum.
use sha1::Digest;
use vstd::prelude::*;

verus! {

/// A lowercase hexadecimal digit.
pub open spec fn is_lower_hex(c: char) -> bool {
    ('0' <= c && c <= '9') || ('a' <= c && c <= 'f')
}

/// The SHA-1 digest of a byte sequence, rendered as 40 lowercase
/// hexadecimal characters.
pub uninterp spec fn sha1_hex(data: Seq<u8>) -> Seq<char>;

/// Relies on sha1::Sha1 (Digest::new, update and finalize) and its
/// lower-hex rendering: the SHA-1 digest of the bytes as 40 lowercase
/// hexadecimal characters.
#[verifier::external_body]
pub(crate) fn sha1_digest_hex(data: &Vec<u8>) -> (r: String)
    ensures
        r@ == sha1_hex(data@),
        r@.len() == 40,
        forall|i: int| 0 <= i < r@.len() ==> is_lower_hex(r@[i]),
{
    let mut hasher = sha1::Sha1::new();
    hasher.update(data.as_slice());
    format!("{:x}", hasher.finalize())
}

} // verus!
