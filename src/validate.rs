//! The validation pipeline: the TCB gate, then the signature gate.

use vstd::prelude::*;

use crate::crypto::{ecdsa_outcome, ecdsa_outcome_of, sha384, sha384_of, DIGEST_LEN};
use crate::error::ValidateError;
use crate::report::{signature_field, signed_prefix_spec, tcb_consistent, AttestationReport};

verus! {

/// The versioned chip endorsement key certificate whose key signs reports,
/// held in its DER encoding.
pub struct Vcek(pub Vec<u8>);

impl View for Vcek {
    type V = Seq<u8>;

    open spec fn view(&self) -> Seq<u8> {
        self.0@
    }
}

/// The result of the signature gate for an ECDSA outcome: a valid
/// signature passes, an invalid one is a signature failure, and an
/// unusable signature or key is a backend error.
pub open spec fn verdict(o: Option<bool>) -> Result<(), ValidateError> {
    match o {
        Some(true) => Ok(()),
        Some(false) => Err(ValidateError::MeasurementSignature),
        None => Err(ValidateError::CryptoBackend),
    }
}

/// The result of the signature gate for the report `r` and the certificate
/// `cert`: the ECDSA check of the signature field against the SHA-384
/// digest of the signed prefix.
pub open spec fn signature_outcome(r: Seq<u8>, cert: Seq<u8>) -> Result<(), ValidateError> {
    verdict(ecdsa_outcome_of(signature_field(r), sha384_of(signed_prefix_spec(r)), cert))
}

/// The result of validating the report `r` against the certificate `cert`:
/// the TCB gate first, then the signature gate.
pub open spec fn validation_result(r: Seq<u8>, cert: Seq<u8>) -> Result<(), ValidateError> {
    if !tcb_consistent(r) {
        Err(ValidateError::Tcb)
    } else {
        signature_outcome(r, cert)
    }
}

/// The outcome of the signature gate, given what the ECDSA check returned.
pub fn signature_verdict(o: Option<bool>) -> (r: Result<(), ValidateError>)
    ensures
        r == verdict(o),
{
    match o {
        Some(true) => Ok(()),
        Some(false) => Err(ValidateError::MeasurementSignature),
        None => Err(ValidateError::CryptoBackend),
    }
}

impl AttestationReport {
    /// The SHA-384 digest of the signed prefix: the message the signature
    /// is checked against.
    pub fn report_digest(&self) -> (r: Vec<u8>)
        ensures
            r@ == sha384_of(signed_prefix_spec(self@)),
            r@.len() == DIGEST_LEN,
    {
        let base = self.signed_prefix();
        sha384(base.as_slice())
    }

    /// Checks the report's signature against the key of `vcek`. Fails with
    /// `CryptoBackend` where the signature field, the key or the backend
    /// cannot be used, and with `MeasurementSignature` where the signature
    /// was evaluated and does not match.
    pub fn verify_signature(&self, vcek: &Vcek) -> (r: Result<(), ValidateError>)
        ensures
            r == signature_outcome(self@, vcek@),
    {
        let field = self.signature_bytes();
        let digest = self.report_digest();
        signature_verdict(ecdsa_outcome(field.as_slice(), digest.as_slice(), vcek.0.as_slice()))
    }
}

/// A report that can be checked against a VCEK.
pub trait Validateable {
    /// What validating this report against `vcek` gives.
    spec fn validation_spec(&self, vcek: &Vcek) -> Result<(), ValidateError>;

    /// Runs the TCB gate, then the signature gate.
    fn validate(&self, vcek: &Vcek) -> (r: Result<(), ValidateError>)
        ensures
            r == self.validation_spec(vcek),
    ;
}

impl Validateable for AttestationReport {
    /// A report whose TCB versions disagree fails with `Tcb`, before any
    /// cryptographic work; any other gets the signature gate's result.
    open spec fn validation_spec(&self, vcek: &Vcek) -> Result<(), ValidateError> {
        validation_result(self@, vcek@)
    }

    fn validate(&self, vcek: &Vcek) -> (r: Result<(), ValidateError>) {
        if !self.is_tcb_consistent() {
            return Err(ValidateError::Tcb);
        }
        self.verify_signature(vcek)
    }
}

} // verus!
