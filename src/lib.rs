//! Validation of SEV-SNP guest attestation reports: decoding of the fixed
//! wire layout, the TCB consistency gate and the ECDSA P-384 signature check
//! against the key of a VCEK certificate.

pub mod error;
pub mod report;
pub mod crypto;
pub mod validate;
