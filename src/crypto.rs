//! The outside cryptographic and decoding primitives that validation relies
//! on, each behind a single trusted item.

use vstd::prelude::*;

use openssl::ecdsa::EcdsaSig;
use openssl::x509::X509;
use sev::certs::snp::ecdsa::Signature;

verus! {

/// Size in bytes of a SHA-384 digest.
pub const DIGEST_LEN: usize = 48;

/// The SHA-384 digest of `data`.
pub uninterp spec fn sha384_of(data: Seq<u8>) -> Seq<u8>;

/// Relies on openssl::sha::sha384: the digest depends on the data alone and
/// is 48 bytes long.
#[verifier::external_body]
pub(crate) fn sha384(data: &[u8]) -> (r: Vec<u8>)
    ensures
        r@ == sha384_of(data@),
        r@.len() == DIGEST_LEN,
{
    openssl::sha::sha384(data).to_vec()
}

/// What the ECDSA check of a raw report signature field against a digest
/// and a DER-encoded certificate gives: `None` where the signature record
/// or the certificate's key cannot be used or the backend fails,
/// otherwise whether the signature is valid.
pub uninterp spec fn ecdsa_outcome_of(sig_field: Seq<u8>, digest: Seq<u8>, cert_der: Seq<u8>) -> Option<bool>;

/// Relies on the ECDSA check of a report signature: bincode::deserialize
/// reads sev's signature record (the `r` and `s` components, each 72 bytes
/// little-endian, then the reserved tail); sev's
/// `TryFrom<&Signature> for EcdsaSig` turns it into an openssl signature;
/// X509::from_der, X509Ref::public_key and PKeyRef::ec_key give the
/// certificate's elliptic-curve key; EcdsaSig::verify checks the digest.
/// Each step depends on its arguments alone. EcdsaSig::verify asserts that
/// the digest's length fits in a C int.
#[verifier::external_body]
pub(crate) fn ecdsa_outcome(sig_field: &[u8], digest: &[u8], cert_der: &[u8]) -> (r: Option<bool>)
    requires
        digest@.len() <= 0x7fff_ffff,
    ensures
        r == ecdsa_outcome_of(sig_field@, digest@, cert_der@),
{
    let record: Signature = bincode::deserialize(sig_field).ok()?;
    let sig = EcdsaSig::try_from(&record).ok()?;
    let key = X509::from_der(cert_der).ok()?.public_key().ok()?.ec_key().ok()?;
    sig.verify(digest, &key).ok()
}

} // verus!
