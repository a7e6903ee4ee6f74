use sev_verification::model::{Generation, UnsupportedProcessor};
use sev_verification::oid::Oid;

#[test]
fn oid_strings() {
    assert_eq!(Oid::BootLoader.as_str(), "1.3.6.1.4.1.3704.1.3.1");
    assert_eq!(Oid::Tee.as_str(), "1.3.6.1.4.1.3704.1.3.2");
    assert_eq!(Oid::Snp.as_str(), "1.3.6.1.4.1.3704.1.3.3");
    assert_eq!(Oid::Ucode.as_str(), "1.3.6.1.4.1.3704.1.3.8");
    assert_eq!(Oid::HwId.as_str(), "1.3.6.1.4.1.3704.1.4");
    assert_eq!(Oid::Fmc.as_str(), "1.3.6.1.4.1.3704.1.3.9");
}

#[test]
fn oid_display_is_its_string() {
    for oid in [Oid::BootLoader, Oid::Tee, Oid::Snp, Oid::Ucode, Oid::HwId, Oid::Fmc] {
        assert_eq!(oid.to_string(), oid.as_str());
    }
}

#[test]
fn oid_strings_are_distinct() {
    let all = [Oid::BootLoader, Oid::Tee, Oid::Snp, Oid::Ucode, Oid::HwId, Oid::Fmc];
    for a in all {
        for b in all {
            assert_eq!(a == b, a.as_str() == b.as_str());
        }
    }
}

#[test]
fn generations_by_family_and_model() {
    assert_eq!(Generation::from_family_and_model(0x19, 0x00), Ok(Generation::Milan));
    assert_eq!(Generation::from_family_and_model(0x19, 0x01), Ok(Generation::Milan));
    assert_eq!(Generation::from_family_and_model(0x19, 0x0f), Ok(Generation::Milan));
    assert_eq!(Generation::from_family_and_model(0x19, 0x10), Ok(Generation::Genoa));
    assert_eq!(Generation::from_family_and_model(0x19, 0x11), Ok(Generation::Genoa));
    assert_eq!(Generation::from_family_and_model(0x19, 0x1f), Ok(Generation::Genoa));
    assert_eq!(Generation::from_family_and_model(0x19, 0xa0), Ok(Generation::Genoa));
    assert_eq!(Generation::from_family_and_model(0x19, 0xaf), Ok(Generation::Genoa));
    assert_eq!(Generation::from_family_and_model(0x1a, 0x00), Ok(Generation::Turin));
    assert_eq!(Generation::from_family_and_model(0x1a, 0x11), Ok(Generation::Turin));
}

#[test]
fn unknown_family_or_model_is_refused() {
    for (family, model) in [(0x19u8, 0x20u8), (0x19, 0x9f), (0x19, 0xb0), (0x1a, 0x12), (0x17, 0x01), (0x00, 0x00)] {
        assert_eq!(
            Generation::from_family_and_model(family, model),
            Err(UnsupportedProcessor { family, model })
        );
    }
}

#[test]
fn generation_names() {
    assert_eq!(Generation::Milan.to_string(), "Milan");
    assert_eq!(Generation::Genoa.to_string(), "Genoa");
    assert_eq!(Generation::Turin.to_string(), "Turin");
}

#[test]
fn unsupported_processor_message_is_decimal() {
    let e = UnsupportedProcessor { family: 23, model: 255 };
    assert_eq!(e.message(), "Unsupported processor family/model: 23 / 255");
    let e = UnsupportedProcessor { family: 0, model: 7 };
    assert_eq!(e.message(), "Unsupported processor family/model: 0 / 7");
}
