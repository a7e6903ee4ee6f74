//! Verification of AMD SEV-SNP attestation reports against the VCEK
//! certificate that AMD issues for the reporting chip.

pub mod attestation;
pub mod ber;
pub mod crypto;
pub mod model;
pub mod oid;
pub mod report;
pub mod tcb;
pub mod text;
