use vstd::prelude::*;

verus! {

/// Why a report was not accepted.
#[derive(Debug, Clone, Copy, PartialEq, Eq, Structural)]
pub enum ValidateError {
    /// The input is not a report of the fixed layout.
    Decode,
    /// The reported TCB differs from the committed TCB.
    Tcb,
    /// The signature was evaluated and does not match the report.
    MeasurementSignature,
    /// The cryptographic backend failed: malformed key, malformed signature
    /// encoding, or an internal fault.
    CryptoBackend,
}

} // verus!
