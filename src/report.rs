use vstd::prelude::*;

use crate::error::ValidateError;

verus! {

/// Size in bytes of a whole report on the wire.
pub const REPORT_LEN: usize = 1184;

/// Size in bytes of the trailing signature field.
pub const SIGNATURE_LEN: usize = 512;

/// Number of leading bytes covered by the signature: everything but the
/// signature field.
pub const SIGNED_LEN: usize = 672;

/// Size in bytes of one TCB version record.
pub const TCB_LEN: usize = 8;

/// Offset of the TCB version used to derive the signing key.
pub const REPORTED_TCB_OFFSET: usize = 384;

/// Offset of the TCB version the platform has committed to.
pub const COMMITTED_TCB_OFFSET: usize = 480;

/// Offset of the launch measurement.
pub const MEASUREMENT_OFFSET: usize = 144;

/// Size in bytes of the launch measurement.
pub const MEASUREMENT_LEN: usize = 48;

/// The report that the bytes `b` decode to, given as its wire image: only a
/// buffer of exactly the report size decodes.
pub open spec fn decode_spec(b: Seq<u8>) -> Option<Seq<u8>> {
    if b.len() == REPORT_LEN {
        Some(b)
    } else {
        None
    }
}

/// The wire bytes of a report, given as its wire image.
pub open spec fn encode_spec(r: Seq<u8>) -> Seq<u8> {
    r
}

/// The bytes that the signature covers.
pub open spec fn signed_prefix_spec(r: Seq<u8>) -> Seq<u8> {
    encode_spec(r).subrange(0, SIGNED_LEN as int)
}

/// The raw signature field.
pub open spec fn signature_field(r: Seq<u8>) -> Seq<u8> {
    r.subrange(SIGNED_LEN as int, REPORT_LEN as int)
}

/// The TCB version record that starts at `off`.
pub open spec fn tcb_at(r: Seq<u8>, off: int) -> Seq<u8> {
    r.subrange(off, off + TCB_LEN)
}

/// The reported TCB equals the committed TCB in every byte.
pub open spec fn tcb_consistent(r: Seq<u8>) -> bool {
    tcb_at(r, REPORTED_TCB_OFFSET as int) == tcb_at(r, COMMITTED_TCB_OFFSET as int)
}

/// Copies `b[lo..hi]` into a new vector.
fn copy_range(b: &[u8], lo: usize, hi: usize) -> (r: Vec<u8>)
    requires
        lo <= hi <= b@.len(),
    ensures
        r@ == b@.subrange(lo as int, hi as int),
{
    let mut r: Vec<u8> = Vec::with_capacity(hi - lo);
    let mut i: usize = lo;
    while i < hi
        invariant
            lo <= i <= hi <= b@.len(),
            r@ == b@.subrange(lo as int, i as int),
        decreases hi - i,
    {
        r.push(b[i]);
        i = i + 1;
        assert(r@ =~= b@.subrange(lo as int, i as int));
    }
    r
}

/// The named components of a TCB version record. Bytes 2 to 5 of the record
/// are reserved and not held here, so two records can differ while their
/// components agree; the consistency gate compares whole records.
#[derive(Debug, Clone, Copy, PartialEq, Eq, Structural)]
pub struct TcbVersion {
    pub bootloader: u8,
    pub tee: u8,
    pub snp: u8,
    pub microcode: u8,
}

/// The components of the TCB version record that starts at `off`.
pub open spec fn tcb_version_at(r: Seq<u8>, off: int) -> TcbVersion {
    TcbVersion { bootloader: r[off], tee: r[off + 1], snp: r[off + 6], microcode: r[off + 7] }
}

/// The launch measurement.
pub open spec fn measurement_field(r: Seq<u8>) -> Seq<u8> {
    r.subrange(MEASUREMENT_OFFSET as int, MEASUREMENT_OFFSET + MEASUREMENT_LEN)
}

/// A guest attestation report, held as its wire image.
pub struct AttestationReport {
    bytes: Vec<u8>,
}

impl View for AttestationReport {
    type V = Seq<u8>;

    closed spec fn view(&self) -> Seq<u8> {
        self.bytes@
    }
}

impl AttestationReport {
    #[verifier::type_invariant]
    spec fn inv(&self) -> bool {
        self.bytes@.len() == REPORT_LEN
    }

    /// The wire bytes of this report.
    pub fn encode(&self) -> (r: Vec<u8>)
        ensures
            r@ == encode_spec(self@),
            r@.len() == REPORT_LEN,
    {
        proof {
            use_type_invariant(self);
        }
        copy_range(self.bytes.as_slice(), 0, REPORT_LEN)
    }

    /// The bytes the signature covers: all fields but the signature.
    pub fn signed_prefix(&self) -> (r: Vec<u8>)
        ensures
            r@ == signed_prefix_spec(self@),
            r@.len() == SIGNED_LEN,
    {
        proof {
            use_type_invariant(self);
        }
        copy_range(self.bytes.as_slice(), 0, SIGNED_LEN)
    }

    /// The raw signature field.
    pub fn signature_bytes(&self) -> (r: Vec<u8>)
        ensures
            r@ == signature_field(self@),
            r@.len() == SIGNATURE_LEN,
    {
        proof {
            use_type_invariant(self);
        }
        copy_range(self.bytes.as_slice(), SIGNED_LEN, REPORT_LEN)
    }

    /// The TCB version record that starts at `off`.
    fn tcb_version(&self, off: usize) -> (r: TcbVersion)
        requires
            off + TCB_LEN <= REPORT_LEN,
        ensures
            r == tcb_version_at(self@, off as int),
    {
        proof {
            use_type_invariant(self);
        }
        TcbVersion {
            bootloader: self.bytes[off],
            tee: self.bytes[off + 1],
            snp: self.bytes[off + 6],
            microcode: self.bytes[off + 7],
        }
    }

    /// The TCB version used to derive the key that signed this report.
    pub fn reported_tcb(&self) -> (r: TcbVersion)
        ensures
            r == tcb_version_at(self@, REPORTED_TCB_OFFSET as int),
    {
        self.tcb_version(REPORTED_TCB_OFFSET)
    }

    /// The TCB version the platform has committed to.
    pub fn committed_tcb(&self) -> (r: TcbVersion)
        ensures
            r == tcb_version_at(self@, COMMITTED_TCB_OFFSET as int),
    {
        self.tcb_version(COMMITTED_TCB_OFFSET)
    }

    /// The launch measurement.
    pub fn measurement(&self) -> (r: Vec<u8>)
        ensures
            r@ == measurement_field(self@),
            r@.len() == MEASUREMENT_LEN,
    {
        proof {
            use_type_invariant(self);
        }
        copy_range(self.bytes.as_slice(), MEASUREMENT_OFFSET, MEASUREMENT_OFFSET + MEASUREMENT_LEN)
    }

    /// Whether the reported TCB equals the committed TCB.
    pub fn is_tcb_consistent(&self) -> (r: bool)
        ensures
            r == tcb_consistent(self@),
    {
        proof {
            use_type_invariant(self);
        }
        let ghost rep = tcb_at(self@, REPORTED_TCB_OFFSET as int);
        let ghost com = tcb_at(self@, COMMITTED_TCB_OFFSET as int);
        let mut i: usize = 0;
        while i < TCB_LEN
            invariant
                i <= TCB_LEN,
                self.bytes@.len() == REPORT_LEN,
                rep == tcb_at(self@, REPORTED_TCB_OFFSET as int),
                com == tcb_at(self@, COMMITTED_TCB_OFFSET as int),
                forall|j: int| 0 <= j < i ==> rep[j] == com[j],
            decreases TCB_LEN - i,
        {
            if self.bytes[REPORTED_TCB_OFFSET + i] != self.bytes[COMMITTED_TCB_OFFSET + i] {
                assert(rep[i as int] != com[i as int]);
                return false;
            }
            i = i + 1;
        }
        assert(rep =~= com);
        true
    }
}

/// Where the TCB records agree in every byte, so do their named components.
pub proof fn lemma_consistent_tcb_components(r: Seq<u8>)
    requires
        r.len() == REPORT_LEN,
        tcb_consistent(r),
    ensures
        tcb_version_at(r, REPORTED_TCB_OFFSET as int) == tcb_version_at(
            r,
            COMMITTED_TCB_OFFSET as int,
        ),
{
    let a = tcb_at(r, REPORTED_TCB_OFFSET as int);
    let b = tcb_at(r, COMMITTED_TCB_OFFSET as int);
    assert(a[0] == b[0] && a[1] == b[1] && a[6] == b[6] && a[7] == b[7]);
}

/// Decodes a report from its wire bytes. Only a buffer of exactly the report
/// size is accepted; nothing is decoded from a shorter or longer one.
pub fn parse(bytes: &[u8]) -> (r: Result<AttestationReport, ValidateError>)
    ensures
        decode_spec(bytes@) is None ==> r == Err::<AttestationReport, ValidateError>(
            ValidateError::Decode,
        ),
        decode_spec(bytes@) matches Some(v) ==> (r matches Ok(rep) && rep@ == v),
        r matches Ok(rep) ==> rep@.len() == REPORT_LEN,
{
    if bytes.len() != REPORT_LEN {
        return Err(ValidateError::Decode);
    }
    let copy = copy_range(bytes, 0, REPORT_LEN);
    assert(copy@ =~= bytes@);
    Ok(AttestationReport { bytes: copy })
}

/// Decoding the encoding of a wire-valid buffer gives the buffer back.
pub proof fn lemma_round_trip(b: Seq<u8>)
    requires
        b.len() == REPORT_LEN,
    ensures
        decode_spec(b) matches Some(v) && encode_spec(v) == b,
{
}

/// Encoding a report and decoding the bytes gives the same report.
pub proof fn lemma_decode_encode(r: Seq<u8>)
    requires
        r.len() == REPORT_LEN,
    ensures
        decode_spec(encode_spec(r)) == Some(r),
{
}

} // verus!
