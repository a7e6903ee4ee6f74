//! Object identifiers of the VCEK certificate extensions that carry the
//! TCB component versions and the hardware identifier of a chip.

use vstd::prelude::*;

verus! {

/// SEV-SNP OID extensions for VCEK certificate verification.
#[derive(Debug, Clone, Copy, PartialEq, Eq, Structural)]
pub enum Oid {
    /// Boot loader SVN (1.3.6.1.4.1.3704.1.3.1)
    BootLoader,
    /// TEE SVN (1.3.6.1.4.1.3704.1.3.2)
    Tee,
    /// SNP firmware SVN (1.3.6.1.4.1.3704.1.3.3)
    Snp,
    /// Microcode SVN (1.3.6.1.4.1.3704.1.3.8)
    Ucode,
    /// Hardware ID (1.3.6.1.4.1.3704.1.4)
    HwId,
    /// FMC SVN - Turin only (1.3.6.1.4.1.3704.1.3.9)
    Fmc,
}

/// The dotted-decimal text of each OID.
pub open spec fn oid_text(oid: Oid) -> Seq<char> {
    match oid {
        Oid::BootLoader => "1.3.6.1.4.1.3704.1.3.1"@,
        Oid::Tee => "1.3.6.1.4.1.3704.1.3.2"@,
        Oid::Snp => "1.3.6.1.4.1.3704.1.3.3"@,
        Oid::Ucode => "1.3.6.1.4.1.3704.1.3.8"@,
        Oid::HwId => "1.3.6.1.4.1.3704.1.4"@,
        Oid::Fmc => "1.3.6.1.4.1.3704.1.3.9"@,
    }
}

impl Oid {
    /// Returns the OID string representation.
    pub fn as_str(&self) -> (s: &'static str)
        ensures
            s@ == oid_text(*self),
    {
        match self {
            Oid::BootLoader => "1.3.6.1.4.1.3704.1.3.1",
            Oid::Tee => "1.3.6.1.4.1.3704.1.3.2",
            Oid::Snp => "1.3.6.1.4.1.3704.1.3.3",
            Oid::Ucode => "1.3.6.1.4.1.3704.1.3.8",
            Oid::HwId => "1.3.6.1.4.1.3704.1.4",
            Oid::Fmc => "1.3.6.1.4.1.3704.1.3.9",
        }
    }

    /// The text that displaying an OID shows: its dotted-decimal form.
    pub fn to_string(&self) -> (s: String)
        ensures
            s@ == oid_text(*self),
    {
        self.as_str().to_owned()
    }
}

/// Distinct OIDs have distinct texts, so the text names the extension
/// without ambiguity.
pub proof fn lemma_oid_text_injective(a: Oid, b: Oid)
    ensures
        oid_text(a) == oid_text(b) ==> a == b,
{
    reveal_strlit("1.3.6.1.4.1.3704.1.3.1");
    reveal_strlit("1.3.6.1.4.1.3704.1.3.2");
    reveal_strlit("1.3.6.1.4.1.3704.1.3.3");
    reveal_strlit("1.3.6.1.4.1.3704.1.3.8");
    reveal_strlit("1.3.6.1.4.1.3704.1.4");
    reveal_strlit("1.3.6.1.4.1.3704.1.3.9");
    if oid_text(a) == oid_text(b) && a != b {
        let ta = oid_text(a);
        let tb = oid_text(b);
        assert(ta.len() == tb.len());
        assert(ta[ta.len() - 1] == tb[tb.len() - 1]);
    }
}

} // verus!
