use sev_verification::attestation::SevVerifier;
use sev_verification::oid::Oid;
use sev_verification::report::{AttestationReport, ReportSizeError, REPORT_SIZE};
use sev_verification::tcb::{
    check_ext_u8, judge_ext_u8, judge_wrapped_hwid, ExtensionCheckError, TcbComponent, TcbError,
    VcekExtensions,
};

fn report_bytes(family: u8, model: u8, tcb: [u8; 8], chip: [u8; 64], algo: u32) -> Vec<u8> {
    let mut b = vec![0u8; 0x4a0];
    b[0x34..0x38].copy_from_slice(&algo.to_le_bytes());
    b[0x180..0x188].copy_from_slice(&tcb);
    b[0x188] = family;
    b[0x189] = model;
    b[0x1a0..0x1e0].copy_from_slice(&chip);
    for i in 0..0x2a0 {
        if b[i] == 0 && !(0x180..0x1e0).contains(&i) && !(0x34..0x38).contains(&i) {
            b[i] = (i % 251) as u8;
        }
    }
    b
}

fn report(family: u8, model: u8, tcb: [u8; 8], chip: [u8; 64]) -> AttestationReport {
    AttestationReport::from_bytes(&report_bytes(family, model, tcb, chip, 1)).unwrap()
}

fn ber_int(v: u8) -> Vec<u8> {
    if v < 0x80 {
        vec![0x02, 0x01, v]
    } else {
        vec![0x02, 0x02, 0x00, v]
    }
}

fn chip64() -> [u8; 64] {
    let mut c = [0u8; 64];
    for (i, x) in c.iter_mut().enumerate() {
        *x = (i as u8).wrapping_mul(7).wrapping_add(3);
    }
    c
}

fn milan_exts(tcb: [u8; 8], chip: &[u8]) -> VcekExtensions {
    VcekExtensions {
        boot_loader: Ok(ber_int(tcb[0])),
        tee: Ok(ber_int(tcb[1])),
        snp: Ok(ber_int(tcb[6])),
        ucode: Ok(ber_int(tcb[7])),
        hw_id: Ok(chip.to_vec()),
        fmc: Err("Extension OID 1.3.6.1.4.1.3704.1.3.9 not found".to_string()),
    }
}

const MILAN_TCB: [u8; 8] = [3, 0, 0, 0, 0, 0, 8, 115];

#[test]
fn report_of_wrong_size_is_refused() {
    assert_eq!(
        AttestationReport::from_bytes(&[0u8; 10]).err(),
        Some(ReportSizeError { len: 10 })
    );
    assert!(AttestationReport::from_bytes(&vec![0u8; REPORT_SIZE + 1]).is_err());
    assert!(AttestationReport::from_bytes(&vec![0u8; REPORT_SIZE]).is_ok());
}

#[test]
fn report_fields_come_from_their_offsets() {
    let chip = chip64();
    let bytes = report_bytes(0x19, 0x11, [1, 2, 3, 4, 5, 6, 7, 8], chip, 0x0102_0304);
    let r = AttestationReport::from_bytes(&bytes).unwrap();
    assert_eq!(r.signature_algo(), 0x0102_0304);
    assert_eq!(r.cpuid_fam_id(), 0x19);
    assert_eq!(r.cpuid_mod_id(), 0x11);
    assert_eq!(r.reported_tcb().raw, [1, 2, 3, 4, 5, 6, 7, 8]);
    assert_eq!(r.chip_id(), &chip[..]);
    assert_eq!(r.signed_bytes(), &bytes[..0x2a0]);
    assert_eq!(r.as_bytes(), &bytes[..]);
    let sig = r.signature();
    assert_eq!(sig.r, bytes[0x2a0..0x2e8].to_vec());
    assert_eq!(sig.s, bytes[0x2e8..0x330].to_vec());
}

#[test]
fn tcb_layouts() {
    let r = report(0x19, 0, [1, 2, 3, 4, 5, 6, 7, 8], chip64());
    let mg = r.reported_tcb().as_milan_genoa();
    assert_eq!((mg.boot_loader, mg.tee, mg.snp, mg.microcode), (1, 2, 7, 8));
    let t = r.reported_tcb().as_turin();
    assert_eq!((t.fmc, t.boot_loader, t.tee, t.snp, t.microcode), (1, 2, 3, 4, 8));
}

#[test]
fn matching_milan_extensions_pass() {
    let chip = chip64();
    let r = report(0x19, 0x01, MILAN_TCB, chip);
    assert!(SevVerifier::verify_tcb_values(&milan_exts(MILAN_TCB, &chip), &r).is_ok());
}

#[test]
fn large_component_values_pass() {
    let chip = chip64();
    let tcb = [200, 129, 0, 0, 0, 0, 255, 128];
    let r = report(0x19, 0x11, tcb, chip);
    assert!(SevVerifier::verify_tcb_values(&milan_exts(tcb, &chip), &r).is_ok());
}

#[test]
fn microcode_mismatch_is_reported() {
    let chip = chip64();
    let r = report(0x19, 0x01, MILAN_TCB, chip);
    let mut exts = milan_exts(MILAN_TCB, &chip);
    exts.ucode = Ok(ber_int(114));
    let err = SevVerifier::verify_tcb_values(&exts, &r).unwrap_err();
    assert!(matches!(
        err,
        TcbError::Component {
            component: TcbComponent::Microcode,
            cause: ExtensionCheckError::Mismatch { cert: 114, report: 115 }
        }
    ));
    assert_eq!(
        err.message(),
        "Error verifying TCB microcode: Value mismatch: cert=114 report=115"
    );
}

#[test]
fn first_failing_component_is_reported() {
    let chip = chip64();
    let r = report(0x19, 0x01, MILAN_TCB, chip);
    let mut exts = milan_exts(MILAN_TCB, &chip);
    exts.tee = Err("Extension OID 1.3.6.1.4.1.3704.1.3.2 not found".to_string());
    exts.snp = Ok(ber_int(9));
    let err = SevVerifier::verify_tcb_values(&exts, &r).unwrap_err();
    assert_eq!(
        err.message(),
        "Error verifying TCB TEE: Failed to get extension 1.3.6.1.4.1.3704.1.3.2: Extension OID 1.3.6.1.4.1.3704.1.3.2 not found"
    );
}

#[test]
fn extension_that_is_no_integer_is_reported() {
    let chip = chip64();
    let r = report(0x19, 0x01, MILAN_TCB, chip);
    let mut exts = milan_exts(MILAN_TCB, &chip);
    exts.boot_loader = Ok(vec![0x04, 0x01, 0x0a]);
    let err = SevVerifier::verify_tcb_values(&exts, &r).unwrap_err();
    match &err {
        TcbError::Component {
            component: TcbComponent::BootLoader,
            cause: ExtensionCheckError::NotU8 { oid, value, .. },
        } => {
            assert_eq!(*oid, Oid::BootLoader);
            assert_eq!(value, &vec![0x04, 0x01, 0x0a]);
        }
        _ => panic!("unexpected error"),
    }
    assert!(err.message().starts_with(
        "Error verifying TCB boot loader: Failed to parse [04, 01, 0a] from extension 1.3.6.1.4.1.3704.1.3.1 as u8: "
    ));
}

#[test]
fn integer_too_large_for_a_byte_is_refused() {
    let exts = VcekExtensions {
        boot_loader: Ok(vec![0x02, 0x02, 0x01, 0x00]),
        tee: Ok(vec![0x02, 0x01, 0xff]),
        snp: Ok(vec![]),
        ucode: Ok(vec![0x02, 0x01, 0x05]),
        hw_id: Ok(vec![]),
        fmc: Ok(vec![]),
    };
    assert!(matches!(
        check_ext_u8(&exts, Oid::BootLoader, 0),
        Err(ExtensionCheckError::NotU8 { .. })
    ));
    assert!(matches!(
        check_ext_u8(&exts, Oid::Tee, 0xff),
        Err(ExtensionCheckError::NotU8 { .. })
    ));
    assert!(matches!(check_ext_u8(&exts, Oid::Snp, 0), Err(ExtensionCheckError::NotU8 { .. })));
    assert!(check_ext_u8(&exts, Oid::Ucode, 5).is_ok());
}

#[test]
fn judging_a_parsed_extension() {
    let value = vec![0x02, 0x01, 0x05];
    assert!(judge_ext_u8(Oid::Snp, &value, Ok(5), 5).is_ok());
    assert!(matches!(
        judge_ext_u8(Oid::Snp, &value, Ok(4), 5),
        Err(ExtensionCheckError::Mismatch { cert: 4, report: 5 })
    ));
    let e = judge_ext_u8(Oid::Snp, &value, Err("bad".to_string()), 5).unwrap_err();
    assert_eq!(
        e.message(),
        "Failed to parse [02, 01, 05] from extension 1.3.6.1.4.1.3704.1.3.3 as u8: bad"
    );
}

#[test]
fn turin_checks_fmc_and_short_hwid() {
    let mut chip = [0u8; 64];
    chip[..8].copy_from_slice(&[0xde, 0xad, 0xbe, 0xef, 0x01, 0x02, 0x03, 0x04]);
    let tcb = [1, 2, 3, 4, 0, 0, 0, 9];
    let r = report(0x1a, 0x02, tcb, chip);
    let exts = VcekExtensions {
        boot_loader: Ok(ber_int(2)),
        tee: Ok(ber_int(3)),
        snp: Ok(ber_int(4)),
        ucode: Ok(ber_int(9)),
        hw_id: Ok(chip[..8].to_vec()),
        fmc: Ok(ber_int(1)),
    };
    assert!(SevVerifier::verify_tcb_values(&exts, &r).is_ok());

    let mut wrong_fmc = exts;
    wrong_fmc.fmc = Ok(ber_int(0));
    let err = SevVerifier::verify_tcb_values(&wrong_fmc, &r).unwrap_err();
    assert_eq!(err.message(), "Error verifying TCB FMC: Value mismatch: cert=0 report=1");
}

#[test]
fn turin_chip_id_with_upper_bytes_is_refused() {
    let mut chip = [0u8; 64];
    chip[0] = 1;
    chip[63] = 1;
    let tcb = [1, 2, 3, 4, 0, 0, 0, 9];
    let r = report(0x1a, 0x02, tcb, chip);
    let exts = VcekExtensions {
        boot_loader: Ok(ber_int(2)),
        tee: Ok(ber_int(3)),
        snp: Ok(ber_int(4)),
        ucode: Ok(ber_int(9)),
        hw_id: Ok(chip[..8].to_vec()),
        fmc: Ok(ber_int(1)),
    };
    let err = SevVerifier::verify_tcb_values(&exts, &r).unwrap_err();
    assert!(matches!(err, TcbError::TurinHwidUpperBytes));
    assert_eq!(
        err.message(),
        "Invalid HWID in attestation report for Turin: upper bytes must be zero"
    );
}

#[test]
fn missing_hwid_extension_is_reported() {
    let chip = chip64();
    let r = report(0x19, 0x01, MILAN_TCB, chip);
    let mut exts = milan_exts(MILAN_TCB, &chip);
    exts.hw_id = Err("Extension OID 1.3.6.1.4.1.3704.1.4 not found".to_string());
    let err = SevVerifier::verify_tcb_values(&exts, &r).unwrap_err();
    assert_eq!(
        err.message(),
        "Failed to get extension 1.3.6.1.4.1.3704.1.4: Extension OID 1.3.6.1.4.1.3704.1.4 not found"
    );
}

#[test]
fn hwid_after_an_octet_string_passes() {
    // The extension differs from the chip id; what follows the OCTET STRING
    // at its start is compared with the chip id.
    let chip = chip64();
    let r = report(0x19, 0x01, MILAN_TCB, chip);
    let mut exts = milan_exts(MILAN_TCB, &chip);
    let mut wrapped = vec![0x04, 0x00];
    wrapped.extend_from_slice(&chip);
    exts.hw_id = Ok(wrapped);
    assert!(SevVerifier::verify_tcb_values(&exts, &r).is_ok());
}

#[test]
fn hwid_mismatch_is_reported() {
    let chip = chip64();
    let r = report(0x19, 0x01, MILAN_TCB, chip);
    let mut exts = milan_exts(MILAN_TCB, &chip);
    let mut wrapped = vec![0x04, 0x40];
    wrapped.extend_from_slice(&chip);
    exts.hw_id = Ok(wrapped);
    let err = SevVerifier::verify_tcb_values(&exts, &r).unwrap_err();
    match &err {
        TcbError::HwidMismatch { cert, report } => {
            assert!(cert.is_empty());
            assert_eq!(report, &chip.to_vec());
        }
        _ => panic!("unexpected error"),
    }
    assert!(err.message().starts_with("HWID mismatch: cert=[] report=[3, a, 11, 18,"));
}

#[test]
fn hwid_that_is_no_octet_string_is_reported() {
    let chip = chip64();
    let r = report(0x19, 0x01, MILAN_TCB, chip);
    let mut exts = milan_exts(MILAN_TCB, &chip);
    exts.hw_id = Ok(vec![0x02, 0x01, 0x01]);
    let err = SevVerifier::verify_tcb_values(&exts, &r).unwrap_err();
    assert!(matches!(err, TcbError::HwidNotOctetString { .. }));
    assert!(err
        .message()
        .starts_with("Failed to parse HWID from extension 1.3.6.1.4.1.3704.1.4 as octet string: "));
}

#[test]
fn judging_a_wrapped_hwid() {
    assert!(judge_wrapped_hwid(&[1, 2], Ok(&[1, 2])).is_ok());
    let e = judge_wrapped_hwid(&[0xab, 0x01], Ok(&[0x0f])).unwrap_err();
    assert_eq!(e.message(), "HWID mismatch: cert=[f] report=[ab, 1]");
    let e = judge_wrapped_hwid(&[1], Err("why".to_string())).unwrap_err();
    assert_eq!(
        e.message(),
        "Failed to parse HWID from extension 1.3.6.1.4.1.3704.1.4 as octet string: why"
    );
}

#[test]
fn unknown_processor_fails_tcb_check() {
    let chip = chip64();
    let r = report(0x17, 0x31, MILAN_TCB, chip);
    let err = SevVerifier::verify_tcb_values(&milan_exts(MILAN_TCB, &chip), &r).unwrap_err();
    assert_eq!(err.message(), "Unsupported processor family/model: 23 / 49");
}
