//! AMD SEV-SNP attestation verification: identify the processor, obtain
//! the chip's VCEK certificate, check the report's signature with it, and
//! check the report's TCB values against the certificate's extensions.
//!
//! Obtaining the certificate is outside work; this module decides each
//! step: it says whether a certificate is needed for a report, and what
//! the verification result is once the certificate arrived or could not be
//! had.

use crate::crypto::{
    crypto_error_message, report_check_result, report_ecdsa_verdict, report_sig_r, report_sig_s,
    report_signature_verified, report_signed_part, verify_report, Certificate, CryptoError,
    ECDSA_P384_SHA384,
};
use crate::model::{
    generation_name, spec_generation, unsupported_processor_message, Generation,
};
use crate::report::{
    le_u32, AttestationReport, CPUID_FAM_ID_OFFSET, CPUID_MOD_ID_OFFSET, SIGNATURE_ALGO_OFFSET,
};
use crate::tcb::{tcb_error_message, tcb_outcome, TcbError, VcekExtensions};
use vstd::prelude::*;

verus! {

/// Detailed verification results for AMD SEV-SNP attestation
#[derive(Debug, Clone)]
pub struct SevVerificationDetails {
    /// Whether the processor model was identified successfully
    pub processor_identified: bool,
    /// Whether AMD certificates were fetched successfully
    pub certificates_fetched: bool,
    /// Whether the certificate chain is valid (ARK -> ASK -> VCEK)
    pub certificate_chain_valid: bool,
    /// Whether the attestation signature is valid
    pub signature_valid: bool,
    /// Whether TCB values match certificate extensions
    pub tcb_valid: bool,
    /// Processor model identified from the attestation report
    pub processor_model: Option<String>,
}

/// Result of AMD SEV-SNP attestation verification
#[derive(Debug, Clone)]
pub struct SevVerificationResult {
    /// Whether the attestation passed all verification checks
    pub is_valid: bool,
    /// Detailed verification status for each component
    pub details: SevVerificationDetails,
    /// Error messages if verification failed
    pub errors: Vec<String>,
}

/// The steps of a verification, in order: the processor is identified
/// (1), the certificates are fetched and their chain verified (2), the
/// signature is verified (3), the TCB values are verified (4).
/// `result_shape(r, stage, model)`: every step up to `stage` passed and no
/// later one did, the processor model shown is `model`, and there is one
/// error message unless all steps passed.
pub open spec fn result_shape(r: SevVerificationResult, stage: int, model: Option<Seq<char>>) -> bool {
    &&& r.is_valid == (stage >= 4)
    &&& r.details.processor_identified == (stage >= 1)
    &&& r.details.certificates_fetched == (stage >= 2)
    &&& r.details.certificate_chain_valid == (stage >= 2)
    &&& r.details.signature_valid == (stage >= 3)
    &&& r.details.tcb_valid == (stage >= 4)
    &&& match model {
        Some(m) => r.details.processor_model matches Some(pm) && pm@ == m,
        None => r.details.processor_model is None,
    }
    &&& r.errors@.len() == (if stage >= 4 { 0int } else { 1int })
}

impl SevVerificationResult {
    /// The result is consistent: it is valid exactly when the last step
    /// passed, a step passed only if the one before it did, the processor
    /// model is shown exactly when the processor was identified, and there
    /// is an error message exactly when the result is not valid (one).
    pub open spec fn consistent(&self) -> bool {
        &&& self.is_valid == self.details.tcb_valid
        &&& self.details.tcb_valid ==> self.details.signature_valid
        &&& self.details.signature_valid ==> self.details.certificate_chain_valid
        &&& self.details.certificate_chain_valid == self.details.certificates_fetched
        &&& self.details.certificates_fetched ==> self.details.processor_identified
        &&& self.details.processor_identified == self.details.processor_model is Some
        &&& self.is_valid ==> self.errors@.len() == 0
        &&& !self.is_valid ==> self.errors@.len() == 1
    }
}

/// Every result of the shape that a verification step gives is
/// consistent.
pub proof fn lemma_result_shape_consistent(r: SevVerificationResult, stage: int, model: Option<Seq<char>>)
    requires
        0 <= stage <= 4,
        (stage >= 1) == model is Some,
        result_shape(r, stage, model),
    ensures
        r.consistent(),
{
}

/// The prefix of the message of a failed signature check.
pub open spec fn signature_failure_prefix() -> Seq<char> {
    "Signature verification failed: Failed to verify attestation signature: "@
}

/// The message of a failed TCB check.
pub open spec fn tcb_failure_message(e: TcbError) -> Seq<char> {
    "TCB verification failed: "@ + tcb_error_message(e)
}

/// The message of a VCEK certificate that could not be had.
pub open spec fn vcek_failure_message(reason: Seq<char>) -> Seq<char> {
    "Failed to fetch/verify VCEK certificate: "@ + reason
}

/// What verifying a report needs next.
pub enum AttestationStart {
    /// The VCEK certificate for the chip of this generation.
    FetchVcek(Generation),
    /// Nothing: the verification ended with this result.
    Finished(SevVerificationResult),
}

/// The verifier of AMD SEV-SNP attestation reports.
pub struct SevVerifier;

impl SevVerifier {
    /// A result in which the steps up to `stage` passed.
    fn result_at(stage: u8, model: Option<String>, error: Option<String>) -> (r: SevVerificationResult)
        requires
            stage <= 4,
            (stage >= 1) == model is Some,
            (stage >= 4) == error is None,
        ensures
            result_shape(r, stage as int, match model { Some(m) => Some(m@), None => None }),
            error matches Some(e) ==> r.errors@[0]@ == e@,
    {
        let mut errors: Vec<String> = Vec::new();
        match error {
            Some(e) => errors.push(e),
            None => {},
        }
        SevVerificationResult {
            is_valid: stage >= 4,
            details: SevVerificationDetails {
                processor_identified: stage >= 1,
                certificates_fetched: stage >= 2,
                certificate_chain_valid: stage >= 2,
                signature_valid: stage >= 3,
                tcb_valid: stage >= 4,
                processor_model: model,
            },
            errors,
        }
    }

    /// Step 1: identifies the processor from the report. An unknown one
    /// ends the verification; a known one needs its VCEK certificate next.
    pub fn begin_attestation(report: &AttestationReport) -> (r: AttestationStart)
        ensures
            ({
                let family = report@[CPUID_FAM_ID_OFFSET as int];
                let model = report@[CPUID_MOD_ID_OFFSET as int];
                match spec_generation(family, model) {
                    Some(g) => r == AttestationStart::FetchVcek(g),
                    None => r matches AttestationStart::Finished(res) && result_shape(res, 0, None)
                        && res.errors@[0]@ == unsupported_processor_message(family, model)
                        && res.consistent(),
                }
            }),
    {
        match Generation::from_family_and_model(report.cpuid_fam_id(), report.cpuid_mod_id()) {
            Ok(g) => AttestationStart::FetchVcek(g),
            Err(e) => {
                let res = Self::result_at(0, None, Some(e.message()));
                AttestationStart::Finished(res)
            },
        }
    }

    /// Step 2 failed: the VCEK certificate could not be fetched or its
    /// chain could not be verified, for `reason`.
    pub fn vcek_unavailable(generation: Generation, reason: String) -> (res: SevVerificationResult)
        ensures
            result_shape(res, 1, Some(generation_name(generation))),
            res.errors@[0]@ == vcek_failure_message(reason@),
            res.consistent(),
    {
        let mut msg = String::from_str("Failed to fetch/verify VCEK certificate: ");
        msg.append(reason.as_str());
        Self::result_at(1, Some(generation.to_string()), Some(msg))
    }

    /// Step 3 failed: the signature check gave `e`.
    pub fn signature_failed(generation: Generation, e: CryptoError) -> (res: SevVerificationResult)
        ensures
            result_shape(res, 2, Some(generation_name(generation))),
            signature_failure_prefix().is_prefix_of(res.errors@[0]@),
            !(e is OpenSsl) ==> res.errors@[0]@ == signature_failure_prefix() + crypto_error_message(e),
            res.consistent(),
    {
        let mut msg = String::from_str(
            "Signature verification failed: Failed to verify attestation signature: ",
        );
        let text = e.message();
        msg.append(text.as_str());
        let res = Self::result_at(2, Some(generation.to_string()), Some(msg));
        assert(signature_failure_prefix().is_prefix_of(res.errors@[0]@)) by {
            assert(res.errors@[0]@.subrange(0, signature_failure_prefix().len() as int) =~= signature_failure_prefix());
        }
        res
    }

    /// Step 4 decided: the TCB check gave `tcb`.
    pub fn tcb_checked(generation: Generation, tcb: Result<(), TcbError>) -> (res: SevVerificationResult)
        ensures
            tcb is Ok ==> result_shape(res, 4, Some(generation_name(generation))),
            tcb matches Err(e) ==> result_shape(res, 3, Some(generation_name(generation)))
                && res.errors@[0]@ == tcb_failure_message(e),
            res.consistent(),
    {
        match tcb {
            Ok(()) => Self::result_at(4, Some(generation.to_string()), None),
            Err(e) => {
                let mut msg = String::from_str("TCB verification failed: ");
                let text = e.message();
                msg.append(text.as_str());
                Self::result_at(3, Some(generation.to_string()), Some(msg))
            },
        }
    }

    /// Verifies the report's signature with the VCEK certificate: the
    /// report check of `vcek` on the report. Only ECDSA P-384 with SHA-384
    /// is supported: a report that names another algorithm fails with that
    /// algorithm's number.
    pub fn verify_attestation_signature(report: &AttestationReport, vcek: &Certificate) -> (r: Result<(), CryptoError>)
        ensures
            report_check_result(r, vcek@, report@),
    {
        verify_report(vcek, report)
    }

    /// Steps 3 and 4, once the VCEK certificate for the chip has been
    /// fetched and its chain verified (step 2): checks the signature, and
    /// if it holds, the TCB values against the certificate's extensions
    /// `exts`. The generation is the report's own; a report of no known
    /// generation ends as step 1 ends it. A result is valid only if the
    /// report's signature verified under `vcek` and its TCB values passed.
    pub fn vcek_obtained(
        report: &AttestationReport,
        vcek: &Certificate,
        exts: &VcekExtensions,
    ) -> (res: SevVerificationResult)
        ensures
            res.consistent(),
            res.is_valid ==> report_signature_verified(vcek@, report@) && tcb_outcome(
                Ok(()),
                *exts,
                report@,
            ),
            ({
                let family = report@[CPUID_FAM_ID_OFFSET as int];
                let model = report@[CPUID_MOD_ID_OFFSET as int];
                match spec_generation(family, model) {
                    None => result_shape(res, 0, None) && res.errors@[0]@
                        == unsupported_processor_message(family, model),
                    Some(g) => vcek_step_result(res, g, vcek@, report@, *exts),
                }
            }),
    {
        let generation = match Generation::from_family_and_model(report.cpuid_fam_id(), report.cpuid_mod_id()) {
            Ok(g) => g,
            Err(e) => {
                return Self::result_at(0, None, Some(e.message()));
            },
        };
        match Self::verify_attestation_signature(report, vcek) {
            Err(e) => {
                let ghost err = e;
                let res = Self::signature_failed(generation, e);
                assert(report_check_result(Err(err), vcek@, report@));
                res
            },
            Ok(()) => {
                let tcb = Self::verify_tcb_values(exts, report);
                let ghost t = tcb;
                let res = Self::tcb_checked(generation, tcb);
                assert(tcb_outcome(t, *exts, report@));
                res
            },
        }
    }
}

/// What the steps after obtaining the VCEK certificate `vcek` give for a
/// report of generation `g`: the certificates count as fetched; a valid
/// signature is one that verified under `vcek`, and then the TCB check
/// decides; otherwise the report check failed with some error, whose
/// message is reported (for a signature that OpenSSL rejects, or an
/// unsupported algorithm, exactly).
pub open spec fn vcek_step_result(
    res: SevVerificationResult,
    g: Generation,
    vcek: Seq<u8>,
    report: Seq<u8>,
    exts: VcekExtensions,
) -> bool {
    &&& res.details.certificates_fetched
    &&& res.details.signature_valid == report_signature_verified(vcek, report)
    &&& le_u32(report, SIGNATURE_ALGO_OFFSET as int) == ECDSA_P384_SHA384 && report_ecdsa_verdict(
        vcek,
        report_signed_part(report),
        report_sig_r(report),
        report_sig_s(report),
    ) == Some(false) ==> res.errors@[0]@ == signature_failure_prefix() + crypto_error_message(
        CryptoError::SignatureRejected,
    )
    &&& !res.details.signature_valid ==> {
        &&& result_shape(res, 2, Some(generation_name(g)))
        &&& signature_failure_prefix().is_prefix_of(res.errors@[0]@)
        &&& exists|e: CryptoError|
            #![trigger report_check_result(Err(e), vcek, report)]
            report_check_result(Err(e), vcek, report) && (!(e is OpenSsl) ==> res.errors@[0]@
                == signature_failure_prefix() + crypto_error_message(e))
    }
    &&& res.details.signature_valid ==> exists|t: Result<(), TcbError>|
        #![trigger tcb_outcome(t, exts, report)]
        tcb_outcome(t, exts, report) && match t {
            Ok(()) => result_shape(res, 4, Some(generation_name(g))),
            Err(e) => result_shape(res, 3, Some(generation_name(g))) && res.errors@[0]@
                == tcb_failure_message(e),
        }
}

} // verus!
