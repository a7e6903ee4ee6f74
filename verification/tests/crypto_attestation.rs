use openssl::asn1::Asn1Time;
use openssl::bn::BigNum;
use openssl::ec::{EcGroup, EcKey};
use openssl::ecdsa::EcdsaSig;
use openssl::hash::MessageDigest;
use openssl::nid::Nid;
use openssl::pkey::{PKey, Private};
use openssl::x509::{X509Builder, X509NameBuilder};

use sev_verification::attestation::{AttestationStart, SevVerifier};
use sev_verification::crypto::{
    chain_verdict, openssl_outcome, reversed, signature_verdict, verify_certificate, verify_report,
    verify_report_sig_ecdsa_p384_sha384, Certificate, Crypto, CryptoError,
};
use sev_verification::model::Generation;
use sev_verification::report::AttestationReport;
use sev_verification::tcb::VcekExtensions;

fn p384_key() -> EcKey<Private> {
    let group = EcGroup::from_curve_name(Nid::SECP384R1).unwrap();
    EcKey::generate(&group).unwrap()
}

fn self_signed(key: &EcKey<Private>, name: &str) -> Certificate {
    let pkey = PKey::from_ec_key(key.clone()).unwrap();
    let mut n = X509NameBuilder::new().unwrap();
    n.append_entry_by_text("CN", name).unwrap();
    let n = n.build();
    let mut b = X509Builder::new().unwrap();
    b.set_version(2).unwrap();
    b.set_serial_number(&BigNum::from_u32(1).unwrap().to_asn1_integer().unwrap()).unwrap();
    b.set_subject_name(&n).unwrap();
    b.set_issuer_name(&n).unwrap();
    b.set_pubkey(&pkey).unwrap();
    b.set_not_before(&Asn1Time::days_from_now(0).unwrap()).unwrap();
    b.set_not_after(&Asn1Time::days_from_now(365).unwrap()).unwrap();
    b.sign(&pkey, MessageDigest::sha384()).unwrap();
    Crypto::from_der(&b.build().to_der().unwrap()).ok().unwrap()
}

const TCB: [u8; 8] = [3, 0, 0, 0, 0, 0, 8, 115];

fn chip() -> [u8; 64] {
    let mut c = [0u8; 64];
    for (i, x) in c.iter_mut().enumerate() {
        *x = i as u8 ^ 0x5a;
    }
    c
}

fn unsigned_report(family: u8, model: u8, algo: u32) -> Vec<u8> {
    let mut b = vec![0u8; 0x4a0];
    b[0] = 2;
    b[0x34..0x38].copy_from_slice(&algo.to_le_bytes());
    b[0x180..0x188].copy_from_slice(&TCB);
    b[0x188] = family;
    b[0x189] = model;
    b[0x1a0..0x1e0].copy_from_slice(&chip());
    b
}

fn sign_report(bytes: &mut [u8], key: &EcKey<Private>) {
    let digest = openssl::hash::hash(MessageDigest::sha384(), &bytes[..0x2a0]).unwrap();
    let sig = EcdsaSig::sign(&digest, key).unwrap();
    let mut r = sig.r().to_vec_padded(72).unwrap();
    let mut s = sig.s().to_vec_padded(72).unwrap();
    r.reverse();
    s.reverse();
    bytes[0x2a0..0x2e8].copy_from_slice(&r);
    bytes[0x2e8..0x330].copy_from_slice(&s);
}

fn ber_int(v: u8) -> Vec<u8> {
    if v < 0x80 {
        vec![0x02, 0x01, v]
    } else {
        vec![0x02, 0x02, 0x00, v]
    }
}

fn exts() -> VcekExtensions {
    VcekExtensions {
        boot_loader: Ok(ber_int(TCB[0])),
        tee: Ok(ber_int(TCB[1])),
        snp: Ok(ber_int(TCB[6])),
        ucode: Ok(ber_int(TCB[7])),
        hw_id: Ok(chip().to_vec()),
        fmc: Err("Extension OID 1.3.6.1.4.1.3704.1.3.9 not found".to_string()),
    }
}

#[test]
fn reversing_bytes() {
    assert_eq!(reversed(&vec![1, 2, 3]), vec![3, 2, 1]);
    assert_eq!(reversed(&vec![]), Vec::<u8>::new());
    assert_eq!(reversed(&reversed(&vec![9, 8, 7, 6])), vec![9, 8, 7, 6]);
}

#[test]
fn crypto_error_messages() {
    assert_eq!(CryptoError::UnsupportedAlgorithm(2).message(), "Unsupported signature algorithm: 0x0002");
    assert_eq!(CryptoError::UnsupportedAlgorithm(0xabc).message(), "Unsupported signature algorithm: 0x0ABC");
    assert_eq!(CryptoError::UnsupportedAlgorithm(0x12345).message(), "Unsupported signature algorithm: 0x12345");
    assert_eq!(CryptoError::ChainRejected.message(), "Certificate verification failed");
    assert_eq!(CryptoError::SignatureRejected.message(), "ECDSA signature verification failed");
}

#[test]
fn verdicts() {
    assert!(signature_verdict(Ok(true)).is_ok());
    assert!(matches!(signature_verdict(Ok(false)), Err(CryptoError::SignatureRejected)));
    assert!(chain_verdict(Ok(true)).is_ok());
    assert!(matches!(chain_verdict(Ok(false)), Err(CryptoError::ChainRejected)));
}

#[test]
fn der_and_pem_round_trip() {
    let cert = self_signed(&p384_key(), "vcek");
    let der = Crypto::to_der(&cert).ok().unwrap();
    let again = Crypto::from_der(&der).ok().unwrap();
    assert_eq!(Crypto::to_der(&again).ok().unwrap(), der);
    let x509 = openssl::x509::X509::from_der(&der).unwrap();
    let pem = x509.to_pem().unwrap();
    let from_pem = Crypto::from_pem(&pem).ok().unwrap();
    assert_eq!(Crypto::to_der(&from_pem).ok().unwrap(), der);
    assert!(matches!(Crypto::from_der(&[1, 2, 3]), Err(CryptoError::OpenSsl(_))));
}

#[test]
fn certificate_chains() {
    let a = self_signed(&p384_key(), "a");
    let b = self_signed(&p384_key(), "b");
    assert!(verify_certificate(&a, &a).is_ok());
    assert!(matches!(verify_certificate(&a, &b), Err(CryptoError::ChainRejected)));
    assert!(Crypto::verify_chain(vec![a.duplicate()], vec![], a.duplicate()).is_ok());
    assert!(Crypto::verify_chain(vec![a.duplicate(), b.duplicate()], vec![], b.duplicate()).is_ok());
    assert!(Crypto::verify_chain(vec![a.duplicate()], vec![], b.duplicate()).is_err());
    assert!(Crypto::verify_chain(vec![], vec![], a.duplicate()).is_err());
    assert!(Crypto::verify_chain(vec![], vec![a.duplicate()], a).is_err());
}

#[test]
fn signed_report_verifies() {
    let key = p384_key();
    let cert = self_signed(&key, "vcek");
    let mut bytes = unsigned_report(0x19, 0x01, 1);
    sign_report(&mut bytes, &key);
    let report = AttestationReport::from_bytes(&bytes).unwrap();
    assert!(verify_report(&cert, &report).is_ok());
    assert!(SevVerifier::verify_attestation_signature(&report, &cert).is_ok());
}

#[test]
fn tampered_report_is_rejected() {
    let key = p384_key();
    let cert = self_signed(&key, "vcek");
    let mut bytes = unsigned_report(0x19, 0x01, 1);
    sign_report(&mut bytes, &key);
    bytes[0x50] ^= 1;
    let report = AttestationReport::from_bytes(&bytes).unwrap();
    assert!(matches!(verify_report(&cert, &report), Err(CryptoError::SignatureRejected)));
}

#[test]
fn other_key_is_rejected() {
    let key = p384_key();
    let other = self_signed(&p384_key(), "other");
    let mut bytes = unsigned_report(0x19, 0x01, 1);
    sign_report(&mut bytes, &key);
    let report = AttestationReport::from_bytes(&bytes).unwrap();
    assert!(matches!(verify_report(&other, &report), Err(CryptoError::SignatureRejected)));
}

#[test]
fn unsupported_algorithm_is_refused() {
    let key = p384_key();
    let cert = self_signed(&key, "vcek");
    let mut bytes = unsigned_report(0x19, 0x01, 2);
    sign_report(&mut bytes, &key);
    let report = AttestationReport::from_bytes(&bytes).unwrap();
    assert!(matches!(verify_report(&cert, &report), Err(CryptoError::UnsupportedAlgorithm(2))));
}

#[test]
fn unknown_processor_ends_verification() {
    let report = AttestationReport::from_bytes(&unsigned_report(0x17, 0x31, 1)).unwrap();
    match SevVerifier::begin_attestation(&report) {
        AttestationStart::Finished(res) => {
            assert!(!res.is_valid);
            assert!(!res.details.processor_identified);
            assert!(res.details.processor_model.is_none());
            assert_eq!(res.errors, vec!["Unsupported processor family/model: 23 / 49".to_string()]);
        }
        AttestationStart::FetchVcek(_) => panic!("no certificate is needed"),
    }
}

#[test]
fn known_processor_needs_its_vcek() {
    let report = AttestationReport::from_bytes(&unsigned_report(0x19, 0x11, 1)).unwrap();
    assert!(matches!(
        SevVerifier::begin_attestation(&report),
        AttestationStart::FetchVcek(Generation::Genoa)
    ));
}

#[test]
fn unavailable_vcek_is_reported() {
    let res = SevVerifier::vcek_unavailable(Generation::Milan, "KDS unreachable".to_string());
    assert!(!res.is_valid);
    assert!(res.details.processor_identified);
    assert!(!res.details.certificates_fetched);
    assert!(!res.details.certificate_chain_valid);
    assert_eq!(res.details.processor_model.as_deref(), Some("Milan"));
    assert_eq!(res.errors, vec!["Failed to fetch/verify VCEK certificate: KDS unreachable".to_string()]);
}

#[test]
fn full_verification_passes() {
    let key = p384_key();
    let cert = self_signed(&key, "vcek");
    let mut bytes = unsigned_report(0x19, 0x01, 1);
    sign_report(&mut bytes, &key);
    let report = AttestationReport::from_bytes(&bytes).unwrap();
    assert!(matches!(
        SevVerifier::begin_attestation(&report),
        AttestationStart::FetchVcek(Generation::Milan)
    ));
    let res = SevVerifier::vcek_obtained(&report, &cert, &exts());
    assert!(res.is_valid);
    assert!(res.details.processor_identified);
    assert!(res.details.certificates_fetched);
    assert!(res.details.certificate_chain_valid);
    assert!(res.details.signature_valid);
    assert!(res.details.tcb_valid);
    assert_eq!(res.details.processor_model.as_deref(), Some("Milan"));
    assert!(res.errors.is_empty());
}

#[test]
fn bad_signature_stops_before_tcb() {
    let key = p384_key();
    let cert = self_signed(&p384_key(), "other");
    let mut bytes = unsigned_report(0x19, 0x01, 1);
    sign_report(&mut bytes, &key);
    let report = AttestationReport::from_bytes(&bytes).unwrap();
    let res = SevVerifier::vcek_obtained(&report, &cert, &exts());
    assert!(!res.is_valid);
    assert!(res.details.certificate_chain_valid);
    assert!(!res.details.signature_valid);
    assert!(!res.details.tcb_valid);
    assert_eq!(
        res.errors,
        vec!["Signature verification failed: Failed to verify attestation signature: ECDSA signature verification failed".to_string()]
    );
}

#[test]
fn tcb_mismatch_after_good_signature() {
    let key = p384_key();
    let cert = self_signed(&key, "vcek");
    let mut bytes = unsigned_report(0x19, 0x01, 1);
    sign_report(&mut bytes, &key);
    let report = AttestationReport::from_bytes(&bytes).unwrap();
    let mut e = exts();
    e.snp = Ok(ber_int(7));
    let res = SevVerifier::vcek_obtained(&report, &cert, &e);
    assert!(!res.is_valid);
    assert!(res.details.signature_valid);
    assert!(!res.details.tcb_valid);
    assert_eq!(
        res.errors,
        vec!["TCB verification failed: Error verifying TCB SNP: Value mismatch: cert=7 report=8".to_string()]
    );
}

#[test]
fn tcb_check_outcomes() {
    let res = SevVerifier::tcb_checked(Generation::Turin, Ok(()));
    assert!(res.is_valid && res.errors.is_empty());
    assert_eq!(res.details.processor_model.as_deref(), Some("Turin"));
    let res = SevVerifier::tcb_checked(
        Generation::Genoa,
        Err(sev_verification::tcb::TcbError::TurinHwidUpperBytes),
    );
    assert!(!res.is_valid && res.details.signature_valid);
    assert_eq!(
        res.errors,
        vec!["TCB verification failed: Invalid HWID in attestation report for Turin: upper bytes must be zero".to_string()]
    );
}

#[test]
fn signature_failure_outcomes() {
    let res = SevVerifier::signature_failed(Generation::Milan, CryptoError::UnsupportedAlgorithm(3));
    assert!(!res.details.signature_valid && res.details.certificates_fetched);
    assert_eq!(
        res.errors,
        vec!["Signature verification failed: Failed to verify attestation signature: Unsupported signature algorithm: 0x0003".to_string()]
    );
}

#[test]
fn openssl_outcomes_keep_values() {
    assert_eq!(openssl_outcome(Ok::<u8, openssl::error::ErrorStack>(7)).ok(), Some(7));
    let e = openssl::error::ErrorStack::get();
    assert!(matches!(openssl_outcome::<u8>(Err(e)), Err(CryptoError::OpenSsl(_))));
}

#[test]
fn unreadable_certificates_are_refused() {
    assert!(matches!(Crypto::from_pem(b"not a certificate"), Err(CryptoError::OpenSsl(_))));
    assert!(matches!(Crypto::from_der(&[]), Err(CryptoError::OpenSsl(_))));
    let cert = self_signed(&p384_key(), "vcek");
    assert!(!Crypto::to_der(&cert).ok().unwrap().is_empty());
}

#[test]
fn attestation_signature_refuses_other_algorithms() {
    let key = p384_key();
    let cert = self_signed(&key, "vcek");
    let mut bytes = unsigned_report(0x19, 0x01, 0x10);
    sign_report(&mut bytes, &key);
    let report = AttestationReport::from_bytes(&bytes).unwrap();
    let e = SevVerifier::verify_attestation_signature(&report, &cert).unwrap_err();
    assert!(matches!(e, CryptoError::UnsupportedAlgorithm(0x10)));
    assert_eq!(e.message(), "Unsupported signature algorithm: 0x0010");
}

#[test]
fn swapped_signature_components_are_rejected() {
    let key = p384_key();
    let cert = self_signed(&key, "vcek");
    let mut bytes = unsigned_report(0x19, 0x01, 1);
    sign_report(&mut bytes, &key);
    let report = AttestationReport::from_bytes(&bytes).unwrap();
    let sig = report.signature();
    let swapped = sev_verification::report::Signature { r: sig.s, s: sig.r };
    assert!(matches!(
        verify_report_sig_ecdsa_p384_sha384(&cert, report.signed_bytes(), swapped),
        Err(CryptoError::SignatureRejected)
    ));
    assert!(verify_report_sig_ecdsa_p384_sha384(&cert, report.signed_bytes(), report.signature()).is_ok());
}

#[test]
fn non_ec_key_fails_the_signature_check() {
    let rsa = openssl::rsa::Rsa::generate(2048).unwrap();
    let pkey = PKey::from_rsa(rsa).unwrap();
    let mut n = X509NameBuilder::new().unwrap();
    n.append_entry_by_text("CN", "rsa").unwrap();
    let n = n.build();
    let mut b = X509Builder::new().unwrap();
    b.set_version(2).unwrap();
    b.set_subject_name(&n).unwrap();
    b.set_issuer_name(&n).unwrap();
    b.set_pubkey(&pkey).unwrap();
    b.set_not_before(&Asn1Time::days_from_now(0).unwrap()).unwrap();
    b.set_not_after(&Asn1Time::days_from_now(1).unwrap()).unwrap();
    b.sign(&pkey, MessageDigest::sha256()).unwrap();
    let cert = Crypto::from_der(&b.build().to_der().unwrap()).ok().unwrap();
    let key = p384_key();
    let mut bytes = unsigned_report(0x19, 0x01, 1);
    sign_report(&mut bytes, &key);
    let report = AttestationReport::from_bytes(&bytes).unwrap();
    assert!(matches!(verify_report(&cert, &report), Err(CryptoError::OpenSsl(_))));
}

#[test]
fn vcek_step_on_unknown_processor_ends_as_step_one() {
    let key = p384_key();
    let cert = self_signed(&key, "vcek");
    let mut bytes = unsigned_report(0x17, 0x31, 1);
    sign_report(&mut bytes, &key);
    let report = AttestationReport::from_bytes(&bytes).unwrap();
    let res = SevVerifier::vcek_obtained(&report, &cert, &exts());
    assert!(!res.is_valid && !res.details.processor_identified);
    assert_eq!(res.errors, vec!["Unsupported processor family/model: 23 / 49".to_string()]);
}

#[test]
fn vcek_step_reports_unsupported_algorithm() {
    let key = p384_key();
    let cert = self_signed(&key, "vcek");
    let mut bytes = unsigned_report(0x19, 0x01, 2);
    sign_report(&mut bytes, &key);
    let report = AttestationReport::from_bytes(&bytes).unwrap();
    let res = SevVerifier::vcek_obtained(&report, &cert, &exts());
    assert!(!res.details.signature_valid && res.details.certificates_fetched);
    assert_eq!(
        res.errors,
        vec!["Signature verification failed: Failed to verify attestation signature: Unsupported signature algorithm: 0x0002".to_string()]
    );
}

#[test]
fn pem_and_der_read_the_same_certificate() {
    let cert = self_signed(&p384_key(), "vcek");
    let der = Crypto::to_der(&cert).ok().unwrap();
    let pem = openssl::x509::X509::from_der(&der).unwrap().to_pem().unwrap();
    let a = Crypto::from_pem(&pem).ok().unwrap();
    let b = Crypto::from_der(&der).ok().unwrap();
    assert_eq!(Crypto::to_der(&a).ok().unwrap(), Crypto::to_der(&b).ok().unwrap());
    assert!(matches!(Crypto::from_pem(b"-----BEGIN CERTIFICATE-----\n-----END CERTIFICATE-----\n"), Err(CryptoError::OpenSsl(_))));
}
