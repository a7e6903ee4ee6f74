# sev_verification

Verification of AMD SEV-SNP attestation reports, written in Verus.

- `src/` is the verified library: the report's binary layout (`report`),
  processor generations (`model`), the VCEK extension OIDs (`oid`), the TCB
  and hardware-identifier check (`tcb`), the signature and certificate chain
  checks on top of OpenSSL (`crypto`), BER parsing through `asn1-rs` (`ber`),
  message rendering (`text`), and the steps of a verification
  (`attestation`).
- `app/` is the unverified glue: the asynchronous flow that fetches the VCEK
  certificate between the library's steps, reading certificate extensions
  through OpenSSL's C interface, logging, and serde copies of the results.
- `tests/` exercises the library, including real ECDSA P-384 signatures made
  with OpenSSL.
