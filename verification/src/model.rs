//! The processor generations that SEV-SNP attestation knows, and how a
//! report's CPUID family and model identify one.

use crate::text::{decimal, push_decimal};
use vstd::prelude::*;

verus! {

/// A generation of AMD EPYC processors that supports SEV-SNP.
#[derive(Debug, Clone, Copy, PartialEq, Eq, Structural)]
pub enum Generation {
    Milan,
    Genoa,
    Turin,
}

/// The generation that a CPUID family and model identify, if any:
/// family 0x19 models 0x00-0x0F are Milan, models 0x10-0x1F and 0xA0-0xAF
/// are Genoa; family 0x1A models 0x00-0x11 are Turin.
pub open spec fn spec_generation(family: u8, model: u8) -> Option<Generation> {
    if family == 0x19 {
        if model <= 0x0f {
            Some(Generation::Milan)
        } else if (0x10 <= model && model <= 0x1f) || (0xa0 <= model && model <= 0xaf) {
            Some(Generation::Genoa)
        } else {
            None
        }
    } else if family == 0x1a && model <= 0x11 {
        Some(Generation::Turin)
    } else {
        None
    }
}

/// The name under which a generation is shown.
pub open spec fn generation_name(generation: Generation) -> Seq<char> {
    match generation {
        Generation::Milan => "Milan"@,
        Generation::Genoa => "Genoa"@,
        Generation::Turin => "Turin"@,
    }
}

/// A CPUID family and model that no known generation has.
#[derive(Debug, Clone, Copy, PartialEq, Eq, Structural)]
pub struct UnsupportedProcessor {
    pub family: u8,
    pub model: u8,
}

/// The message of an unsupported family and model.
pub open spec fn unsupported_processor_message(family: u8, model: u8) -> Seq<char> {
    "Unsupported processor family/model: "@ + decimal(family as nat) + " / "@ + decimal(
        model as nat,
    )
}

impl UnsupportedProcessor {
    /// The text that reports this family and model.
    pub fn message(&self) -> (s: String)
        ensures
            s@ == unsupported_processor_message(self.family, self.model),
    {
        let mut s = String::from_str("Unsupported processor family/model: ");
        push_decimal(&mut s, self.family as u64);
        s.append(" / ");
        push_decimal(&mut s, self.model as u64);
        s
    }
}

impl Generation {
    /// Identifies the generation from the CPUID family and model that an
    /// attestation report carries.
    pub fn from_family_and_model(family: u8, model: u8) -> (r: Result<Generation, UnsupportedProcessor>)
        ensures
            r matches Ok(g) ==> spec_generation(family, model) == Some(g),
            r matches Err(e) ==> spec_generation(family, model) is None && e == (
            UnsupportedProcessor { family, model }),
    {
        if family == 0x19 {
            if model <= 0x0f {
                Ok(Generation::Milan)
            } else if (0x10 <= model && model <= 0x1f) || (0xa0 <= model && model <= 0xaf) {
                Ok(Generation::Genoa)
            } else {
                Err(UnsupportedProcessor { family, model })
            }
        } else if family == 0x1a && model <= 0x11 {
            Ok(Generation::Turin)
        } else {
            Err(UnsupportedProcessor { family, model })
        }
    }

    /// The name of the generation, as displaying it shows.
    pub fn to_string(&self) -> (s: String)
        ensures
            s@ == generation_name(*self),
    {
        match self {
            Generation::Milan => String::from_str("Milan"),
            Generation::Genoa => String::from_str("Genoa"),
            Generation::Turin => String::from_str("Turin"),
        }
    }
}

} // verus!
