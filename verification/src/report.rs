//! The attestation report that an SEV-SNP guest obtains from the AMD
//! secure processor, read from its binary layout, and the TCB version that
//! it carries.

use vstd::prelude::*;
use vstd::slice::slice_to_vec;

verus! {

/// The size in bytes of an attestation report.
pub const REPORT_SIZE: usize = 0x4a0;

/// The report's bytes up to this offset are what the signature covers.
pub const SIGNED_LEN: usize = 0x2a0;

/// Offset of the signature algorithm (a little-endian `u32`).
pub const SIGNATURE_ALGO_OFFSET: usize = 0x34;

/// Offset of the reported TCB version (eight bytes).
pub const REPORTED_TCB_OFFSET: usize = 0x180;

/// Offset of the CPUID family identifier.
pub const CPUID_FAM_ID_OFFSET: usize = 0x188;

/// Offset of the CPUID model identifier.
pub const CPUID_MOD_ID_OFFSET: usize = 0x189;

/// Offset of the chip identifier (64 bytes).
pub const CHIP_ID_OFFSET: usize = 0x1a0;

/// Length of the chip identifier.
pub const CHIP_ID_LEN: usize = 64;

/// Offset of the signature's R component (72 bytes, little-endian).
pub const SIGNATURE_R_OFFSET: usize = 0x2a0;

/// Offset of the signature's S component (72 bytes, little-endian).
pub const SIGNATURE_S_OFFSET: usize = 0x2e8;

/// Length of each signature component.
pub const SIGNATURE_COMPONENT_LEN: usize = 72;

/// The little-endian `u32` at `off` in `b`.
pub open spec fn le_u32(b: Seq<u8>, off: int) -> int {
    b[off] + 0x100 * b[off + 1] + 0x10000 * b[off + 2] + 0x1000000 * b[off + 3]
}

/// An attestation report, held as its bytes.
pub struct AttestationReport {
    bytes: Vec<u8>,
}

/// A report that does not have the size of an attestation report.
#[derive(Debug, Clone, Copy, PartialEq, Eq, Structural)]
pub struct ReportSizeError {
    pub len: usize,
}

impl View for AttestationReport {
    type V = Seq<u8>;

    closed spec fn view(&self) -> Seq<u8> {
        self.bytes@
    }
}

/// The ECDSA signature of a report, each component little-endian.
pub struct Signature {
    pub r: Vec<u8>,
    pub s: Vec<u8>,
}

/// The eight bytes of a TCB version, lowest byte first.
#[derive(Debug, Clone, Copy, PartialEq, Eq)]
pub struct TcbVersion {
    pub raw: [u8; 8],
}

/// The components of a Milan or Genoa TCB version.
#[derive(Debug, Clone, Copy, PartialEq, Eq, Structural)]
pub struct MilanGenoaTcb {
    pub boot_loader: u8,
    pub tee: u8,
    pub snp: u8,
    pub microcode: u8,
}

/// The components of a Turin TCB version.
#[derive(Debug, Clone, Copy, PartialEq, Eq, Structural)]
pub struct TurinTcb {
    pub fmc: u8,
    pub boot_loader: u8,
    pub tee: u8,
    pub snp: u8,
    pub microcode: u8,
}

impl TcbVersion {
    /// Reads the version with the layout of Milan and Genoa: boot loader in
    /// byte 0, TEE in byte 1, SNP in byte 6, microcode in byte 7.
    pub fn as_milan_genoa(&self) -> (t: MilanGenoaTcb)
        ensures
            t == (MilanGenoaTcb {
                boot_loader: self.raw@[0],
                tee: self.raw@[1],
                snp: self.raw@[6],
                microcode: self.raw@[7],
            }),
    {
        MilanGenoaTcb { boot_loader: self.raw[0], tee: self.raw[1], snp: self.raw[6], microcode: self.raw[7] }
    }

    /// Reads the version with the layout of Turin: FMC in byte 0, boot
    /// loader in byte 1, TEE in byte 2, SNP in byte 3, microcode in byte 7.
    pub fn as_turin(&self) -> (t: TurinTcb)
        ensures
            t == (TurinTcb {
                fmc: self.raw@[0],
                boot_loader: self.raw@[1],
                tee: self.raw@[2],
                snp: self.raw@[3],
                microcode: self.raw@[7],
            }),
    {
        TurinTcb {
            fmc: self.raw[0],
            boot_loader: self.raw[1],
            tee: self.raw[2],
            snp: self.raw[3],
            microcode: self.raw[7],
        }
    }
}

impl AttestationReport {
    #[verifier::type_invariant]
    spec fn has_report_size(&self) -> bool {
        self.bytes@.len() == REPORT_SIZE
    }

    /// Takes the bytes of a report; refuses bytes of any other length.
    pub fn from_bytes(bytes: &[u8]) -> (r: Result<AttestationReport, ReportSizeError>)
        ensures
            r matches Ok(rep) ==> bytes@.len() == REPORT_SIZE && rep@ == bytes@,
            r matches Err(e) ==> bytes@.len() != REPORT_SIZE && e.len == bytes@.len(),
    {
        if bytes.len() == REPORT_SIZE {
            Ok(AttestationReport { bytes: slice_to_vec(bytes) })
        } else {
            Err(ReportSizeError { len: bytes.len() })
        }
    }

    /// The whole report.
    pub fn as_bytes(&self) -> (b: &[u8])
        ensures
            b@ == self@,
            b@.len() == REPORT_SIZE,
    {
        proof { use_type_invariant(self); }
        self.bytes.as_slice()
    }

    /// The signature algorithm: 1 stands for ECDSA P-384 with SHA-384.
    pub fn signature_algo(&self) -> (a: u32)
        ensures
            a == le_u32(self@, SIGNATURE_ALGO_OFFSET as int),
    {
        proof { use_type_invariant(self); }
        let b = &self.bytes;
        let o = SIGNATURE_ALGO_OFFSET;
        b[o] as u32 + 0x100 * (b[o + 1] as u32) + 0x10000 * (b[o + 2] as u32) + 0x1000000 * (
        b[o + 3] as u32)
    }

    /// The TCB version that the report states.
    pub fn reported_tcb(&self) -> (t: TcbVersion)
        ensures
            t.raw@ == self@.subrange(REPORTED_TCB_OFFSET as int, REPORTED_TCB_OFFSET + 8),
    {
        proof { use_type_invariant(self); }
        let b = &self.bytes;
        let o = REPORTED_TCB_OFFSET;
        let t = TcbVersion { raw: [b[o], b[o + 1], b[o + 2], b[o + 3], b[o + 4], b[o + 5], b[o + 6], b[o + 7]] };
        assert(t.raw@ =~= self@.subrange(REPORTED_TCB_OFFSET as int, REPORTED_TCB_OFFSET + 8));
        t
    }

    /// The CPUID family of the reporting processor.
    pub fn cpuid_fam_id(&self) -> (f: u8)
        ensures
            f == self@[CPUID_FAM_ID_OFFSET as int],
    {
        proof { use_type_invariant(self); }
        self.bytes[CPUID_FAM_ID_OFFSET]
    }

    /// The CPUID model of the reporting processor.
    pub fn cpuid_mod_id(&self) -> (m: u8)
        ensures
            m == self@[CPUID_MOD_ID_OFFSET as int],
    {
        proof { use_type_invariant(self); }
        self.bytes[CPUID_MOD_ID_OFFSET]
    }

    /// The chip identifier.
    pub fn chip_id(&self) -> (c: &[u8])
        ensures
            c@ == self@.subrange(CHIP_ID_OFFSET as int, CHIP_ID_OFFSET + CHIP_ID_LEN),
            c@.len() == CHIP_ID_LEN,
    {
        proof { use_type_invariant(self); }
        &self.bytes.as_slice()[CHIP_ID_OFFSET..CHIP_ID_OFFSET + CHIP_ID_LEN]
    }

    /// The bytes that the signature covers.
    pub fn signed_bytes(&self) -> (s: &[u8])
        ensures
            s@ == self@.subrange(0, SIGNED_LEN as int),
            s@.len() == SIGNED_LEN,
    {
        proof { use_type_invariant(self); }
        &self.bytes.as_slice()[0..SIGNED_LEN]
    }

    /// The signature of the report.
    pub fn signature(&self) -> (sig: Signature)
        ensures
            sig.r@ == self@.subrange(
                SIGNATURE_R_OFFSET as int,
                SIGNATURE_R_OFFSET + SIGNATURE_COMPONENT_LEN,
            ),
            sig.s@ == self@.subrange(
                SIGNATURE_S_OFFSET as int,
                SIGNATURE_S_OFFSET + SIGNATURE_COMPONENT_LEN,
            ),
            sig.r@.len() == SIGNATURE_COMPONENT_LEN,
            sig.s@.len() == SIGNATURE_COMPONENT_LEN,
            self@.len() == REPORT_SIZE,
    {
        proof { use_type_invariant(self); }
        let b = self.bytes.as_slice();
        let r = slice_to_vec(&b[SIGNATURE_R_OFFSET..SIGNATURE_R_OFFSET + SIGNATURE_COMPONENT_LEN]);
        let s = slice_to_vec(&b[SIGNATURE_S_OFFSET..SIGNATURE_S_OFFSET + SIGNATURE_COMPONENT_LEN]);
        Signature { r, s }
    }
}

} // verus!
