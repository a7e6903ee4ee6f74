//! The check of a report's TCB version and chip identifier against the
//! extensions of the VCEK certificate that AMD issued for the chip.

use crate::ber::{
    ber_error_text, ber_integer_u8, ber_octet_string_rest, parse_ber_octet_string_rest,
    parse_ber_u8,
};
use crate::model::{
    spec_generation, unsupported_processor_message, Generation, UnsupportedProcessor,
};
use crate::text::{byte_list, decimal, push_byte_list, push_decimal};
use crate::oid::{oid_text, Oid};
use crate::report::{
    AttestationReport, CHIP_ID_LEN, CHIP_ID_OFFSET, CPUID_FAM_ID_OFFSET, CPUID_MOD_ID_OFFSET,
    REPORTED_TCB_OFFSET,
};
use crate::attestation::SevVerifier;
use vstd::prelude::*;
use vstd::slice::slice_to_vec;

verus! {

/// The extension values of a VCEK certificate, each as the lookup by its
/// OID gave it: the extension's data, or why it could not be read.
pub struct VcekExtensions {
    pub boot_loader: Result<Vec<u8>, String>,
    pub tee: Result<Vec<u8>, String>,
    pub snp: Result<Vec<u8>, String>,
    pub ucode: Result<Vec<u8>, String>,
    pub hw_id: Result<Vec<u8>, String>,
    pub fmc: Result<Vec<u8>, String>,
}

impl VcekExtensions {
    /// The lookup result of the extension with the given OID.
    pub open spec fn spec_lookup(&self, oid: Oid) -> Result<Vec<u8>, String> {
        match oid {
            Oid::BootLoader => self.boot_loader,
            Oid::Tee => self.tee,
            Oid::Snp => self.snp,
            Oid::Ucode => self.ucode,
            Oid::HwId => self.hw_id,
            Oid::Fmc => self.fmc,
        }
    }

    /// The lookup result of the extension with the given OID.
    pub fn lookup(&self, oid: Oid) -> (r: &Result<Vec<u8>, String>)
        ensures
            *r == self.spec_lookup(oid),
    {
        match oid {
            Oid::BootLoader => &self.boot_loader,
            Oid::Tee => &self.tee,
            Oid::Snp => &self.snp,
            Oid::Ucode => &self.ucode,
            Oid::HwId => &self.hw_id,
            Oid::Fmc => &self.fmc,
        }
    }
}

/// A TCB component that the VCEK certificate states.
#[derive(Debug, Clone, Copy, PartialEq, Eq, Structural)]
pub enum TcbComponent {
    BootLoader,
    Tee,
    Snp,
    Microcode,
    Fmc,
}

/// The extension that states a component.
pub open spec fn component_oid(c: TcbComponent) -> Oid {
    match c {
        TcbComponent::BootLoader => Oid::BootLoader,
        TcbComponent::Tee => Oid::Tee,
        TcbComponent::Snp => Oid::Snp,
        TcbComponent::Microcode => Oid::Ucode,
        TcbComponent::Fmc => Oid::Fmc,
    }
}

impl TcbComponent {
    /// The extension that states this component.
    pub fn oid(&self) -> (o: Oid)
        ensures
            o == component_oid(*self),
    {
        match self {
            TcbComponent::BootLoader => Oid::BootLoader,
            TcbComponent::Tee => Oid::Tee,
            TcbComponent::Snp => Oid::Snp,
            TcbComponent::Microcode => Oid::Ucode,
            TcbComponent::Fmc => Oid::Fmc,
        }
    }
}

/// Why one extension did not confirm one component value.
pub enum ExtensionCheckError {
    /// The extension could not be read.
    Lookup { oid: Oid, reason: String },
    /// The extension's data is no BER INTEGER that fits in a byte.
    NotU8 { oid: Oid, value: Vec<u8>, reason: String },
    /// The certificate states another value than the report.
    Mismatch { cert: u8, report: u8 },
}

/// Why the TCB check failed.
pub enum TcbError {
    /// The report names no known processor generation.
    Processor(UnsupportedProcessor),
    /// A component of the reported TCB is not confirmed.
    Component { component: TcbComponent, cause: ExtensionCheckError },
    /// A Turin report whose chip identifier has non-zero bytes past the
    /// eighth.
    TurinHwidUpperBytes,
    /// The hardware identifier extension could not be read.
    HwidLookup { reason: String },
    /// The hardware identifier extension differs from the chip identifier
    /// and is no BER OCTET STRING either.
    HwidNotOctetString { reason: String },
    /// The hardware identifier does not match the chip identifier.
    HwidMismatch { cert: Vec<u8>, report: Vec<u8> },
}


/// The name under which messages mention a component.
pub open spec fn component_name(c: TcbComponent) -> Seq<char> {
    match c {
        TcbComponent::BootLoader => "boot loader"@,
        TcbComponent::Tee => "TEE"@,
        TcbComponent::Snp => "SNP"@,
        TcbComponent::Microcode => "microcode"@,
        TcbComponent::Fmc => "FMC"@,
    }
}

/// The text that reports an extension check failure.
pub open spec fn ext_error_message(e: ExtensionCheckError) -> Seq<char> {
    match e {
        ExtensionCheckError::Lookup { oid, reason } => "Failed to get extension "@ + oid_text(oid)
            + ": "@ + reason@,
        ExtensionCheckError::NotU8 { oid, value, reason } => "Failed to parse "@ + byte_list(
            value@,
            true,
        ) + " from extension "@ + oid_text(oid) + " as u8: "@ + reason@,
        ExtensionCheckError::Mismatch { cert, report } => "Value mismatch: cert="@ + decimal(
            cert as nat,
        ) + " report="@ + decimal(report as nat),
    }
}

/// The text that reports a TCB check failure.
pub open spec fn tcb_error_message(e: TcbError) -> Seq<char> {
    match e {
        TcbError::Processor(p) => unsupported_processor_message(p.family, p.model),
        TcbError::Component { component, cause } => "Error verifying TCB "@ + component_name(
            component,
        ) + ": "@ + ext_error_message(cause),
        TcbError::TurinHwidUpperBytes => "Invalid HWID in attestation report for Turin: upper bytes must be zero"@,
        TcbError::HwidLookup { reason } => "Failed to get extension "@ + oid_text(Oid::HwId) + ": "@
            + reason@,
        TcbError::HwidNotOctetString { reason } => "Failed to parse HWID from extension "@
            + oid_text(Oid::HwId) + " as octet string: "@ + reason@,
        TcbError::HwidMismatch { cert, report } => "HWID mismatch: cert="@ + byte_list(cert@, false)
            + " report="@ + byte_list(report@, false),
    }
}

impl TcbComponent {
    /// The name under which messages mention this component.
    pub fn name(&self) -> (s: &'static str)
        ensures
            s@ == component_name(*self),
    {
        match self {
            TcbComponent::BootLoader => "boot loader",
            TcbComponent::Tee => "TEE",
            TcbComponent::Snp => "SNP",
            TcbComponent::Microcode => "microcode",
            TcbComponent::Fmc => "FMC",
        }
    }
}

impl ExtensionCheckError {
    /// The text that reports this failure.
    pub fn message(&self) -> (s: String)
        ensures
            s@ == ext_error_message(*self),
    {
        match self {
            ExtensionCheckError::Lookup { oid, reason } => {
                let mut s = String::from_str("Failed to get extension ");
                s.append(oid.as_str());
                s.append(": ");
                s.append(reason.as_str());
                s
            },
            ExtensionCheckError::NotU8 { oid, value, reason } => {
                let mut s = String::from_str("Failed to parse ");
                push_byte_list(&mut s, value.as_slice(), true);
                s.append(" from extension ");
                s.append(oid.as_str());
                s.append(" as u8: ");
                s.append(reason.as_str());
                s
            },
            ExtensionCheckError::Mismatch { cert, report } => {
                let mut s = String::from_str("Value mismatch: cert=");
                push_decimal(&mut s, *cert as u64);
                s.append(" report=");
                push_decimal(&mut s, *report as u64);
                s
            },
        }
    }
}

impl TcbError {
    /// The text that reports this failure.
    pub fn message(&self) -> (s: String)
        ensures
            s@ == tcb_error_message(*self),
    {
        match self {
            TcbError::Processor(p) => p.message(),
            TcbError::Component { component, cause } => {
                let mut s = String::from_str("Error verifying TCB ");
                s.append(component.name());
                s.append(": ");
                let c = cause.message();
                s.append(c.as_str());
                s
            },
            TcbError::TurinHwidUpperBytes => String::from_str(
                "Invalid HWID in attestation report for Turin: upper bytes must be zero",
            ),
            TcbError::HwidLookup { reason } => {
                let mut s = String::from_str("Failed to get extension ");
                s.append(Oid::HwId.as_str());
                s.append(": ");
                s.append(reason.as_str());
                s
            },
            TcbError::HwidNotOctetString { reason } => {
                let mut s = String::from_str("Failed to parse HWID from extension ");
                s.append(Oid::HwId.as_str());
                s.append(" as octet string: ");
                s.append(reason.as_str());
                s
            },
            TcbError::HwidMismatch { cert, report } => {
                let mut s = String::from_str("HWID mismatch: cert=");
                push_byte_list(&mut s, cert.as_slice(), false);
                s.append(" report=");
                push_byte_list(&mut s, report.as_slice(), false);
                s
            },
        }
    }
}

/// The extension confirms the expected value.
pub open spec fn ext_passes(ext: Result<Vec<u8>, String>, expected: u8) -> bool {
    ext matches Ok(value) && ber_integer_u8(value@) == Some(expected)
}

/// What checking an extension against an expected value gives.
pub open spec fn ext_u8_verdict(
    r: Result<(), ExtensionCheckError>,
    oid: Oid,
    ext: Result<Vec<u8>, String>,
    expected: u8,
) -> bool {
    match ext {
        Err(reason) => r matches Err(ExtensionCheckError::Lookup { oid: o, reason: m }) && o == oid
            && m@ == reason@,
        Ok(value) => match ber_integer_u8(value@) {
            None => r matches Err(ExtensionCheckError::NotU8 { oid: o, value: v, .. }) && o == oid
                && v@ == value@,
            Some(x) => if x == expected {
                r is Ok
            } else {
                r matches Err(ExtensionCheckError::Mismatch { cert, report }) && cert == x && report
                    == expected
            },
        },
    }
}

/// The components that a generation's certificates state, in the order in
/// which they are checked, each with the value that the TCB version bytes
/// `raw` give it.
pub open spec fn tcb_checks(raw: Seq<u8>, g: Generation) -> Seq<(TcbComponent, u8)> {
    match g {
        Generation::Turin => seq![
            (TcbComponent::BootLoader, raw[1]),
            (TcbComponent::Tee, raw[2]),
            (TcbComponent::Snp, raw[3]),
            (TcbComponent::Microcode, raw[7]),
            (TcbComponent::Fmc, raw[0]),
        ],
        _ => seq![
            (TcbComponent::BootLoader, raw[0]),
            (TcbComponent::Tee, raw[1]),
            (TcbComponent::Snp, raw[6]),
            (TcbComponent::Microcode, raw[7]),
        ],
    }
}

/// The check at index `i` passes.
pub open spec fn check_passes(exts: VcekExtensions, checks: Seq<(TcbComponent, u8)>, i: int) -> bool {
    ext_passes(exts.spec_lookup(component_oid(checks[i].0)), checks[i].1)
}

/// The hardware identifier that the report's chip identifier gives: all
/// 64 bytes, or for Turin the first eight, provided that the rest are zero.
pub open spec fn spec_attestation_hwid(chip: Seq<u8>, g: Generation) -> Option<Seq<u8>> {
    match g {
        Generation::Turin => if forall|i: int| 8 <= i < chip.len() ==> chip[i] == 0 {
            Some(chip.subrange(0, 8))
        } else {
            None
        },
        _ => Some(chip),
    }
}

/// What the hardware identifier check gives.
pub open spec fn hwid_verdict(
    r: Result<(), TcbError>,
    hwid: Option<Seq<u8>>,
    ext: Result<Vec<u8>, String>,
) -> bool {
    match hwid {
        None => r matches Err(TcbError::TurinHwidUpperBytes),
        Some(h) => match ext {
            Err(reason) => r matches Err(TcbError::HwidLookup { reason: m }) && m@ == reason@,
            Ok(v) => if v@ == h {
                r is Ok
            } else {
                match ber_octet_string_rest(v@) {
                    None => r matches Err(TcbError::HwidNotOctetString { .. }),
                    Some(rest) => wrapped_hwid_verdict(r, h, Ok(rest)),
                }
            },
        },
    }
}

/// What the comparison with the parse of a BER-wrapped hardware
/// identifier gives.
pub open spec fn wrapped_hwid_verdict(
    r: Result<(), TcbError>,
    hwid: Seq<u8>,
    parsed: Result<Seq<u8>, Seq<char>>,
) -> bool {
    match parsed {
        Err(reason) => r matches Err(TcbError::HwidNotOctetString { reason: m }) && m@ == reason,
        Ok(rest) => if rest == hwid {
            r is Ok
        } else {
            r matches Err(TcbError::HwidMismatch { cert, report }) && cert@ == rest && report@
                == hwid
        },
    }
}

/// What the whole TCB check gives for a report of the given generation.
pub open spec fn tcb_verdict(r: Result<(), TcbError>, exts: VcekExtensions, report: Seq<u8>, g: Generation) -> bool {
    let checks = tcb_checks(report.subrange(REPORTED_TCB_OFFSET as int, REPORTED_TCB_OFFSET + 8), g);
    let chip = report.subrange(CHIP_ID_OFFSET as int, CHIP_ID_OFFSET + CHIP_ID_LEN);
    &&& forall|i: int|
        #![trigger checks[i]]
        0 <= i < checks.len() && (forall|j: int| 0 <= j < i ==> check_passes(exts, checks, j))
            && !check_passes(exts, checks, i) ==> {
            &&& r matches Err(TcbError::Component { component, cause })
            &&& component == checks[i].0
            &&& ext_u8_verdict(Err(cause), component_oid(component), exts.spec_lookup(component_oid(component)), checks[i].1)
        }
    &&& (forall|i: int| 0 <= i < checks.len() ==> check_passes(exts, checks, i)) ==> hwid_verdict(
        r,
        spec_attestation_hwid(chip, g),
        exts.hw_id,
    )
}

/// What checking the TCB values of the report with bytes `report` gives:
/// a report of no known generation fails; otherwise see `tcb_verdict`.
pub open spec fn tcb_outcome(r: Result<(), TcbError>, exts: VcekExtensions, report: Seq<u8>) -> bool {
    let family = report[CPUID_FAM_ID_OFFSET as int];
    let model = report[CPUID_MOD_ID_OFFSET as int];
    match spec_generation(family, model) {
        None => r matches Err(TcbError::Processor(e)) && e == (UnsupportedProcessor { family, model }),
        Some(g) => tcb_verdict(r, exts, report, g),
    }
}


/// If some check fails, a first one fails: every check before it passes.
proof fn lemma_first_failure(exts: VcekExtensions, checks: Seq<(TcbComponent, u8)>, i: int)
    requires
        0 <= i < checks.len(),
        !check_passes(exts, checks, i),
    ensures
        exists|k: int|
            #![trigger checks[k]]
            0 <= k <= i && (forall|j: int| 0 <= j < k ==> check_passes(exts, checks, j))
                && !check_passes(exts, checks, k),
    decreases i,
{
    if forall|j: int| 0 <= j < i ==> check_passes(exts, checks, j) {
        assert(checks[i] == checks[i]);
    } else {
        let j = choose|j: int| 0 <= j < i && !check_passes(exts, checks, j);
        lemma_first_failure(exts, checks, j);
    }
}

/// A report passes the TCB check only if it names a known generation,
/// the certificate confirms every TCB component of that generation with
/// exactly the reported value, and the certificate's hardware identifier
/// matches the one the chip identifier gives (as is, or as what follows a
/// BER OCTET STRING); for Turin, this needs the chip identifier's bytes past
/// the eighth to be zero.
pub proof fn lemma_tcb_pass_confirms_all(exts: VcekExtensions, report: Seq<u8>)
    requires
        tcb_outcome(Ok(()), exts, report),
    ensures
        ({
            let family = report[CPUID_FAM_ID_OFFSET as int];
            let model = report[CPUID_MOD_ID_OFFSET as int];
            let chip = report.subrange(CHIP_ID_OFFSET as int, CHIP_ID_OFFSET + CHIP_ID_LEN);
            spec_generation(family, model) matches Some(g) && {
                let checks = tcb_checks(
                    report.subrange(REPORTED_TCB_OFFSET as int, REPORTED_TCB_OFFSET + 8),
                    g,
                );
                &&& forall|i: int|
                    0 <= i < checks.len() ==> #[trigger] ext_passes(
                        exts.spec_lookup(component_oid(checks[i].0)),
                        checks[i].1,
                    )
                &&& spec_attestation_hwid(chip, g) matches Some(h) && exts.hw_id matches Ok(v) && (
                v@ == h || ber_octet_string_rest(v@) == Some(h))
                &&& g == Generation::Turin ==> forall|i: int| 8 <= i < chip.len() ==> chip[i] == 0
            }
        }),
{
    let family = report[CPUID_FAM_ID_OFFSET as int];
    let model = report[CPUID_MOD_ID_OFFSET as int];
    let g = spec_generation(family, model)->Some_0;
    let checks = tcb_checks(report.subrange(REPORTED_TCB_OFFSET as int, REPORTED_TCB_OFFSET + 8), g);
    assert forall|i: int| 0 <= i < checks.len() implies #[trigger] ext_passes(
        exts.spec_lookup(component_oid(checks[i].0)),
        checks[i].1,
    ) by {
        if !check_passes(exts, checks, i) {
            lemma_first_failure(exts, checks, i);
        }
    }
}


/// An extension check passes only when the extension holds a BER INTEGER
/// equal to the expected byte, and a different value is reported as a
/// mismatch of that value with the expected one.
pub proof fn lemma_ext_check_exact(
    r: Result<(), ExtensionCheckError>,
    oid: Oid,
    ext: Result<Vec<u8>, String>,
    expected: u8,
)
    requires
        ext_u8_verdict(r, oid, ext, expected),
    ensures
        r is Ok ==> (ext matches Ok(v) && ber_integer_u8(v@) == Some(expected)),
        ext matches Ok(v) ==> (ber_integer_u8(v@) is Some && ber_integer_u8(v@)->Some_0 != expected
            ==> (r matches Err(ExtensionCheckError::Mismatch { cert, report }) && cert
            == ber_integer_u8(v@)->Some_0 && report == expected)),
        ext is Err ==> r is Err,
{
}

/// A Turin report (CPUID family 0x1A, model at most 0x11) passes the TCB
/// check only if each component extension holds, as a BER INTEGER, exactly
/// the byte of the reported TCB version that Turin gives it: FMC
/// (1.3.6.1.4.1.3704.1.3.9) byte 0, boot loader (…3.1) byte 1, TEE (…3.2)
/// byte 2, SNP (…3.3) byte 3, microcode (…3.8) byte 7; and the chip
/// identifier's bytes past the eighth are zero, its first eight bytes being
/// the hardware identifier extension (…1.4), as is or after a BER OCTET
/// STRING.
pub proof fn lemma_tcb_pass_turin(exts: VcekExtensions, report: Seq<u8>)
    requires
        tcb_outcome(Ok(()), exts, report),
        report[CPUID_FAM_ID_OFFSET as int] == 0x1a,
        report[CPUID_MOD_ID_OFFSET as int] <= 0x11,
    ensures
        ({
            let raw = report.subrange(REPORTED_TCB_OFFSET as int, REPORTED_TCB_OFFSET + 8);
            let chip = report.subrange(CHIP_ID_OFFSET as int, CHIP_ID_OFFSET + CHIP_ID_LEN);
            &&& exts.spec_lookup(Oid::Fmc) matches Ok(v) && ber_integer_u8(v@) == Some(raw[0])
            &&& exts.spec_lookup(Oid::BootLoader) matches Ok(v) && ber_integer_u8(v@) == Some(raw[1])
            &&& exts.spec_lookup(Oid::Tee) matches Ok(v) && ber_integer_u8(v@) == Some(raw[2])
            &&& exts.spec_lookup(Oid::Snp) matches Ok(v) && ber_integer_u8(v@) == Some(raw[3])
            &&& exts.spec_lookup(Oid::Ucode) matches Ok(v) && ber_integer_u8(v@) == Some(raw[7])
            &&& forall|i: int| 8 <= i < chip.len() ==> chip[i] == 0
            &&& exts.spec_lookup(Oid::HwId) matches Ok(v) && (v@ == chip.subrange(0, 8) || ber_octet_string_rest(v@)
                == Some(chip.subrange(0, 8)))
        }),
{
    lemma_tcb_pass_confirms_all(exts, report);
    let raw = report.subrange(REPORTED_TCB_OFFSET as int, REPORTED_TCB_OFFSET + 8);
    let checks = tcb_checks(raw, Generation::Turin);
    assert(ext_passes(exts.spec_lookup(component_oid(checks[0].0)), checks[0].1));
    assert(ext_passes(exts.spec_lookup(component_oid(checks[1].0)), checks[1].1));
    assert(ext_passes(exts.spec_lookup(component_oid(checks[2].0)), checks[2].1));
    assert(ext_passes(exts.spec_lookup(component_oid(checks[3].0)), checks[3].1));
    assert(ext_passes(exts.spec_lookup(component_oid(checks[4].0)), checks[4].1));
}

/// A Milan or Genoa report (CPUID family 0x19, model 0x00-0x1F or
/// 0xA0-0xAF) passes the TCB check only if each component extension holds,
/// as a BER INTEGER, exactly the byte of the reported TCB version that
/// these generations give it: boot loader (1.3.6.1.4.1.3704.1.3.1) byte 0,
/// TEE (…3.2) byte 1, SNP (…3.3) byte 6, microcode (…3.8) byte 7; and the
/// hardware identifier extension (…1.4) is the whole 64-byte chip
/// identifier, as is or after a BER OCTET STRING.
pub proof fn lemma_tcb_pass_milan_genoa(exts: VcekExtensions, report: Seq<u8>)
    requires
        tcb_outcome(Ok(()), exts, report),
        report[CPUID_FAM_ID_OFFSET as int] == 0x19,
        report[CPUID_MOD_ID_OFFSET as int] <= 0x1f || (0xa0 <= report[CPUID_MOD_ID_OFFSET as int]
            && report[CPUID_MOD_ID_OFFSET as int] <= 0xaf),
    ensures
        ({
            let raw = report.subrange(REPORTED_TCB_OFFSET as int, REPORTED_TCB_OFFSET + 8);
            let chip = report.subrange(CHIP_ID_OFFSET as int, CHIP_ID_OFFSET + CHIP_ID_LEN);
            &&& exts.spec_lookup(Oid::BootLoader) matches Ok(v) && ber_integer_u8(v@) == Some(raw[0])
            &&& exts.spec_lookup(Oid::Tee) matches Ok(v) && ber_integer_u8(v@) == Some(raw[1])
            &&& exts.spec_lookup(Oid::Snp) matches Ok(v) && ber_integer_u8(v@) == Some(raw[6])
            &&& exts.spec_lookup(Oid::Ucode) matches Ok(v) && ber_integer_u8(v@) == Some(raw[7])
            &&& exts.spec_lookup(Oid::HwId) matches Ok(v) && (v@ == chip || ber_octet_string_rest(v@) == Some(chip))
        }),
{
    lemma_tcb_pass_confirms_all(exts, report);
    let g = spec_generation(report[CPUID_FAM_ID_OFFSET as int], report[CPUID_MOD_ID_OFFSET as int])->Some_0;
    assert(g != Generation::Turin);
    let raw = report.subrange(REPORTED_TCB_OFFSET as int, REPORTED_TCB_OFFSET + 8);
    let checks = tcb_checks(raw, g);
    assert(ext_passes(exts.spec_lookup(component_oid(checks[0].0)), checks[0].1));
    assert(ext_passes(exts.spec_lookup(component_oid(checks[1].0)), checks[1].1));
    assert(ext_passes(exts.spec_lookup(component_oid(checks[2].0)), checks[2].1));
    assert(ext_passes(exts.spec_lookup(component_oid(checks[3].0)), checks[3].1));
}

/// Decides an extension check once the extension's data has been parsed:
/// `parsed` is the BER INTEGER it holds, or why it holds none.
pub fn judge_ext_u8(oid: Oid, value: &Vec<u8>, parsed: Result<u8, String>, expected: u8) -> (r: Result<(), ExtensionCheckError>)
    ensures
        match parsed {
            Err(reason) => r matches Err(ExtensionCheckError::NotU8 { oid: o, value: v, reason: m })
                && o == oid && v@ == value@ && m@ == reason@,
            Ok(x) => if x == expected {
                r is Ok
            } else {
                r matches Err(ExtensionCheckError::Mismatch { cert, report }) && cert == x && report
                    == expected
            },
        },
{
    match parsed {
        Err(reason) => Err(ExtensionCheckError::NotU8 { oid, value: value.clone(), reason }),
        Ok(x) => if x == expected {
            Ok(())
        } else {
            Err(ExtensionCheckError::Mismatch { cert: x, report: expected })
        },
    }
}

/// Checks that the extension with the given OID holds, as a BER INTEGER,
/// the expected value.
pub fn check_ext_u8(exts: &VcekExtensions, oid: Oid, expected: u8) -> (r: Result<(), ExtensionCheckError>)
    ensures
        ext_u8_verdict(r, oid, exts.spec_lookup(oid), expected),
        r is Ok ==> (exts.spec_lookup(oid) matches Ok(v) && ber_integer_u8(v@) == Some(expected)),
        exts.spec_lookup(oid) matches Ok(v) ==> (ber_integer_u8(v@) is Some && ber_integer_u8(v@)->Some_0
            != expected ==> (r matches Err(ExtensionCheckError::Mismatch { cert, report }) && cert
            == ber_integer_u8(v@)->Some_0 && report == expected)),
{
    match exts.lookup(oid) {
        Err(reason) => Err(ExtensionCheckError::Lookup { oid, reason: reason.clone() }),
        Ok(value) => {
            let parsed = match parse_ber_u8(value.as_slice()) {
                Ok(x) => Ok(x),
                Err(e) => Err(ber_error_text(&e)),
            };
            judge_ext_u8(oid, value, parsed, expected)
        },
    }
}

/// Whether two byte slices are equal.
fn bytes_equal(a: &[u8], b: &[u8]) -> (r: bool)
    ensures
        r == (a@ == b@),
{
    if a.len() != b.len() {
        return false;
    }
    let mut i: usize = 0;
    while i < a.len()
        invariant
            a@.len() == b@.len(),
            i <= a@.len(),
            forall|j: int| 0 <= j < i ==> a@[j] == b@[j],
        decreases a@.len() - i,
    {
        if a[i] != b[i] {
            return false;
        }
        i = i + 1;
    }
    assert(a@ =~= b@);
    true
}

/// Decides the hardware identifier check for an extension that differs
/// from the identifier, once its data has been parsed as a BER OCTET
/// STRING: `parsed` is what follows the string, or why there is none.
pub fn judge_wrapped_hwid(hwid: &[u8], parsed: Result<&[u8], String>) -> (r: Result<(), TcbError>)
    ensures
        wrapped_hwid_verdict(
            r,
            hwid@,
            match parsed {
                Ok(rest) => Ok(rest@),
                Err(reason) => Err(reason@),
            },
        ),
{
    match parsed {
        Err(reason) => Err(TcbError::HwidNotOctetString { reason }),
        Ok(rest) => if bytes_equal(rest, hwid) {
            Ok(())
        } else {
            Err(TcbError::HwidMismatch { cert: slice_to_vec(rest), report: slice_to_vec(hwid) })
        },
    }
}

/// Whether all bytes of the chip identifier past the eighth are zero.
fn upper_chip_bytes_zero(chip: &[u8]) -> (r: bool)
    requires
        chip@.len() == CHIP_ID_LEN,
    ensures
        r == (forall|i: int| 8 <= i < chip@.len() ==> chip@[i] == 0),
{
    let mut i: usize = 8;
    while i < chip.len()
        invariant
            8 <= i <= chip@.len(),
            forall|j: int| 8 <= j < i ==> chip@[j] == 0,
        decreases chip@.len() - i,
    {
        if chip[i] != 0 {
            return false;
        }
        i = i + 1;
    }
    true
}

/// Checks the hardware identifier extension against the report's chip
/// identifier.
fn check_hwid(exts: &VcekExtensions, chip: &[u8], g: Generation) -> (r: Result<(), TcbError>)
    requires
        chip@.len() == CHIP_ID_LEN,
    ensures
        hwid_verdict(r, spec_attestation_hwid(chip@, g), exts.hw_id),
{
    let hwid: &[u8] = match g {
        Generation::Turin => {
            if !upper_chip_bytes_zero(chip) {
                return Err(TcbError::TurinHwidUpperBytes);
            }
            &chip[0..8]
        },
        _ => chip,
    };
    let extension_hwid = match &exts.hw_id {
        Err(reason) => {
            return Err(TcbError::HwidLookup { reason: reason.clone() });
        },
        Ok(v) => v,
    };
    if !bytes_equal(extension_hwid.as_slice(), hwid) {
        let parsed = match parse_ber_octet_string_rest(extension_hwid.as_slice()) {
            Ok(rest) => Ok(rest),
            Err(e) => Err(ber_error_text(&e)),
        };
        return judge_wrapped_hwid(hwid, parsed);
    }
    Ok(())
}

impl SevVerifier {

/// Checks each component of the reported TCB against the VCEK
/// certificate's extensions, in order, and then the hardware identifier;
/// the first failure ends the check.
pub fn verify_tcb_values(exts: &VcekExtensions, report: &AttestationReport) -> (r: Result<(), TcbError>)
    ensures
        tcb_outcome(r, *exts, report@),
{
    let g = match Generation::from_family_and_model(report.cpuid_fam_id(), report.cpuid_mod_id()) {
        Ok(g) => g,
        Err(e) => {
            return Err(TcbError::Processor(e));
        },
    };
    let tcb = report.reported_tcb();
    let checks: Vec<(TcbComponent, u8)> = match g {
        Generation::Turin => {
            let t = tcb.as_turin();
            vec![
                (TcbComponent::BootLoader, t.boot_loader),
                (TcbComponent::Tee, t.tee),
                (TcbComponent::Snp, t.snp),
                (TcbComponent::Microcode, t.microcode),
                (TcbComponent::Fmc, t.fmc),
            ]
        },
        _ => {
            let t = tcb.as_milan_genoa();
            vec![
                (TcbComponent::BootLoader, t.boot_loader),
                (TcbComponent::Tee, t.tee),
                (TcbComponent::Snp, t.snp),
                (TcbComponent::Microcode, t.microcode),
            ]
        },
    };
    let ghost spec_checks = tcb_checks(
        report@.subrange(REPORTED_TCB_OFFSET as int, REPORTED_TCB_OFFSET + 8),
        g,
    );
    assert(checks@ =~= spec_checks);
    let mut i: usize = 0;
    while i < checks.len()
        invariant
            i <= checks@.len(),
            checks@ == spec_checks,
            spec_checks == tcb_checks(
                report@.subrange(REPORTED_TCB_OFFSET as int, REPORTED_TCB_OFFSET + 8),
                g,
            ),
            spec_generation(report@[CPUID_FAM_ID_OFFSET as int], report@[CPUID_MOD_ID_OFFSET as int]) == Some(g),
            forall|j: int| 0 <= j < i ==> check_passes(*exts, spec_checks, j),
        decreases checks@.len() - i,
    {
        let (component, expected) = checks[i];
        match check_ext_u8(exts, component.oid(), expected) {
            Ok(()) => {},
            Err(cause) => {
                let r = Err(TcbError::Component { component, cause });
                assert(!check_passes(*exts, spec_checks, i as int));
                assert forall|k: int|
                    #![trigger spec_checks[k]]
                    0 <= k < spec_checks.len() && (forall|j: int| 0 <= j < k ==> check_passes(*exts, spec_checks, j))
                        && !check_passes(*exts, spec_checks, k) implies k == i by {
                    if k > i {
                        assert(check_passes(*exts, spec_checks, i as int));
                    }
                }
                return r;
            },
        }
        i = i + 1;
    }
    check_hwid(exts, report.chip_id(), g)
}

}

} // verus!
