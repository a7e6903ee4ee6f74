//! The cryptography of attestation: X.509 certificate chains and the
//! ECDSA P-384 signature of a report, both checked with OpenSSL.
//!
//! A certificate is held as its DER encoding, so that what is handed to
//! OpenSSL, and what OpenSSL answers, can be stated over plain bytes.

use crate::report::{
    le_u32, AttestationReport, Signature, SIGNATURE_ALGO_OFFSET, SIGNATURE_COMPONENT_LEN,
    SIGNATURE_R_OFFSET, SIGNATURE_S_OFFSET, SIGNED_LEN,
};
use crate::text::{hex_upper, push_hex_padded, zero_pad};
use openssl::bn::BigNum;
use openssl::ecdsa::EcdsaSig;
use openssl::error::ErrorStack;
use openssl::stack::Stack;
use openssl::x509::store::{X509Store, X509StoreBuilder};
use openssl::x509::verify::X509VerifyFlags;
use openssl::x509::{X509StoreContext, X509};
use vstd::prelude::*;

verus! {

/// The errors that OpenSSL reports.
#[verifier::external_type_specification]
#[verifier::external_body]
pub struct ExErrorStack(ErrorStack);

/// An OpenSSL certificate store under construction.
#[verifier::external_type_specification]
#[verifier::external_body]
pub struct ExX509StoreBuilder(X509StoreBuilder);

/// An OpenSSL certificate store.
#[verifier::external_type_specification]
#[verifier::external_body]
pub struct ExX509Store(X509Store);

/// An OpenSSL certificate verification context.
#[verifier::external_type_specification]
#[verifier::external_body]
pub struct ExX509StoreContext(X509StoreContext);

/// The untrusted certificates of a chain check: an OpenSSL
/// `Stack<X509>`, kept in a field that the verifier does not read.
#[verifier::external_body]
pub struct CertStack {
    stack: Stack<X509>,
}

/// An X.509 certificate, held as the DER encoding that OpenSSL gives it.
pub struct Certificate {
    der: Vec<u8>,
}

impl View for Certificate {
    type V = Seq<u8>;

    closed spec fn view(&self) -> Seq<u8> {
        self.der@
    }
}

impl Certificate {
    /// The encoding is OpenSSL's own: it reads back to itself.
    #[verifier::type_invariant]
    spec fn is_openssl_encoding(&self) -> bool {
        x509_der_encoding(self.der@) == Some(self.der@)
    }

    /// Another certificate with the same encoding.
    pub fn duplicate(&self) -> (c: Certificate)
        ensures
            c@ == self@,
    {
        proof { use_type_invariant(self); }
        let der = self.der.clone();
        assert(der@ =~= self.der@);
        Certificate { der }
    }
}

/// The DER encodings of a sequence of certificates.
pub open spec fn cert_ders(certs: Seq<Certificate>) -> Seq<Seq<u8>> {
    certs.map_values(|c: Certificate| c@)
}

/// The DER encoding that OpenSSL gives the certificate it reads from the
/// DER bytes `der`, if it reads one (`d2i_X509`, then `i2d_X509`).
pub uninterp spec fn x509_der_encoding(der: Seq<u8>) -> Option<Seq<u8>>;

/// The DER encoding that OpenSSL gives the certificate it reads from the
/// PEM text `pem`, if it reads one (`PEM_read_bio_X509`, then `i2d_X509`),
/// for text in which no PEM block is marked encrypted.
pub uninterp spec fn x509_pem_der(pem: Seq<u8>) -> Option<Seq<u8>>;

/// The bytes of the word `ENCRYPTED`, which marks an encrypted PEM block
/// (`Proc-Type: 4,ENCRYPTED`).
pub open spec fn encrypted_marker() -> Seq<u8> {
    seq![0x45u8, 0x4e, 0x43, 0x52, 0x59, 0x50, 0x54, 0x45, 0x44]
}

/// The text contains the word `ENCRYPTED` somewhere; text without it has
/// no encrypted PEM block, so OpenSSL asks for no passphrase on it.
pub open spec fn pem_mentions_encryption(pem: Seq<u8>) -> bool {
    exists|i: int| 0 <= i && i + 9 <= pem.len() && #[trigger] pem.subrange(i, i + 9) == encrypted_marker()
}

/// OpenSSL's verdict on an ECDSA signature with big-endian components
/// `r_be` and `s_be` over the SHA-384 digest of `data`, under the EC
/// public key of the certificate read from `cert_der`: `None` where
/// OpenSSL fails (the digest, the certificate, its key as an EC key, or
/// the signature cannot be had).
pub uninterp spec fn ecdsa_sha384_verdict(cert_der: Seq<u8>, data: Seq<u8>, r_be: Seq<u8>, s_be: Seq<u8>) -> Option<bool>;

/// The DER encodings of the certificates added to a store builder, in
/// order.
pub uninterp spec fn builder_certs(b: X509StoreBuilder) -> Seq<Seq<u8>>;

/// Whether a store builder has the `PARTIAL_CHAIN` flag.
pub uninterp spec fn builder_partial_chain(b: X509StoreBuilder) -> bool;

/// The DER encodings of the certificates of a store, in the order added.
pub uninterp spec fn store_certs(s: X509Store) -> Seq<Seq<u8>>;

/// Whether a store has the `PARTIAL_CHAIN` flag.
pub uninterp spec fn store_partial_chain(s: X509Store) -> bool;

/// The DER encodings of the certificates of a stack, in order.
pub uninterp spec fn stack_certs(s: CertStack) -> Seq<Seq<u8>>;

/// OpenSSL's verdict (`X509_verify_cert`) on the certificate read from
/// `leaf`, with a store holding the certificates read from `trusted` (with
/// or without `PARTIAL_CHAIN`), the certificates read from `untrusted` as
/// intermediates, in the run `run`: the circumstances that OpenSSL meets,
/// the current time and whether it gets the memory it asks for; `None`
/// where OpenSSL fails.
pub uninterp spec fn chain_verdict_at(
    trusted: Seq<Seq<u8>>,
    partial_chain: bool,
    untrusted: Seq<Seq<u8>>,
    leaf: Seq<u8>,
    run: int,
) -> Option<bool>;

/// In the run `run` OpenSSL fails every chain check, whatever it is asked:
/// it cannot get the memory it needs.
pub open spec fn run_fails_every_check(run: int) -> bool {
    forall|trusted: Seq<Seq<u8>>, partial_chain: bool, untrusted: Seq<Seq<u8>>, leaf: Seq<u8>|
        #[trigger] chain_verdict_at(trusted, partial_chain, untrusted, leaf, run) == None::<bool>
}

/// What an OpenSSL call that answers yes or no gave.
pub open spec fn verdict_of(outcome: Result<bool, ErrorStack>) -> Option<bool> {
    match outcome {
        Ok(b) => Some(b),
        Err(_) => None,
    }
}

/// `EcdsaSigRef::verify` over the SHA-384 digest of `data`, its
/// arguments converted from plain bytes: the digest by
/// `openssl::hash::hash` with `MessageDigest::sha384()`, the signature from
/// its big-endian components (`BigNum::from_slice`,
/// `EcdsaSig::from_private_components`), the key from the certificate's
/// DER (`X509::from_der`, `public_key`, `ec_key`). Claimed: it answers
/// exactly when `ecdsa_sha384_verdict` has a value, and answers that value;
/// the verdict depends on these bytes alone. `from_slice` asserts that its
/// input fits a `c_int`, hence the bounds (the digest is 48 bytes).
#[verifier::external_body]
fn ecdsa_sha384_verify_under_cert(cert_der: &[u8], data: &[u8], r_be: &[u8], s_be: &[u8]) -> (r: Result<
    bool,
    ErrorStack,
>)
    requires
        r_be@.len() <= i32::MAX,
        s_be@.len() <= i32::MAX,
    ensures
        verdict_of(r) == ecdsa_sha384_verdict(cert_der@, data@, r_be@, s_be@),
{
    let digest = openssl::hash::hash(openssl::hash::MessageDigest::sha384(), data)?;
    let sig = EcdsaSig::from_private_components(BigNum::from_slice(r_be)?, BigNum::from_slice(s_be)?)?;
    let key = X509::from_der(cert_der)?.public_key()?.ec_key()?;
    sig.verify(&digest, &key)
}

/// `X509::from_der` and then `X509Ref::to_der`. Claimed: it succeeds
/// exactly when `x509_der_encoding` has a value, and returns it; OpenSSL
/// reads its own encoding back to the same encoding.
#[verifier::external_body]
fn x509_reencode(der: &[u8]) -> (r: Result<Vec<u8>, ErrorStack>)
    ensures
        r is Ok <==> x509_der_encoding(der@) is Some,
        r matches Ok(d) ==> x509_der_encoding(der@) == Some(d@),
        r matches Ok(d) ==> x509_der_encoding(d@) == Some(d@),
{
    X509::from_der(der)?.to_der()
}

/// `X509::from_pem` and then `X509Ref::to_der`. Claimed: an encoding that
/// it returns is not empty (`to_der` fails through `cvt` unless the length
/// is positive) and reads back to itself; on text with no encrypted PEM
/// block it succeeds exactly when `x509_pem_der` has a value, and returns
/// it. On an encrypted block OpenSSL may ask for a passphrase, so nothing
/// more is claimed there. `from_pem` asserts that the input fits a `c_int`,
/// hence the bound.
#[verifier::external_body]
fn x509_pem_to_der(pem: &[u8]) -> (r: Result<Vec<u8>, ErrorStack>)
    requires
        pem@.len() <= i32::MAX,
    ensures
        r matches Ok(d) ==> d@.len() > 0 && x509_der_encoding(d@) == Some(d@),
        !pem_mentions_encryption(pem@) ==> (r is Ok <==> x509_pem_der(pem@) is Some),
        !pem_mentions_encryption(pem@) ==> (r matches Ok(d) ==> x509_pem_der(pem@) == Some(d@)),
{
    X509::from_pem(pem)?.to_der()
}

/// `X509StoreBuilder::new`. Claimed, as its documentation says: the store
/// is initially empty. `X509_STORE_new` fails only where it cannot
/// allocate, a run in which every chain check fails too.
#[verifier::external_body]
fn store_builder_new() -> (r: Result<X509StoreBuilder, ErrorStack>)
    ensures
        r matches Ok(b) ==> builder_certs(b) == Seq::<Seq<u8>>::empty(),
        r is Err ==> exists|run: int| #[trigger] run_fails_every_check(run),
{
    X509StoreBuilder::new()
}

/// `X509StoreBuilderRef::add_cert` of the certificate read from the DER
/// (`X509::from_der`). Claimed: on success the certificate is added and
/// the flags stay. The DER is OpenSSL's own encoding (the type invariant of
/// `Certificate`), so it reads, and `X509_STORE_add_cert` accepts a
/// certificate that the store already holds (OpenSSL 1.1.1 and later): the
/// call fails only where OpenSSL cannot allocate, a run in which every
/// chain check fails too.
#[verifier::external_body]
fn store_builder_add_cert(builder: &mut X509StoreBuilder, cert: &Certificate) -> (r: Result<(), ErrorStack>)
    ensures
        r is Ok ==> builder_certs(*final(builder)) == builder_certs(*old(builder)).push(cert@),
        r is Ok ==> builder_partial_chain(*final(builder)) == builder_partial_chain(*old(builder)),
        r is Err ==> exists|run: int| #[trigger] run_fails_every_check(run),
{
    builder.add_cert(X509::from_der(&cert.der)?)
}

/// `X509StoreBuilderRef::set_flags` with `X509VerifyFlags::PARTIAL_CHAIN`,
/// which lets a trusted certificate that is not self-signed end a chain.
/// Claimed: on success the flag is set and the certificates stay.
/// `X509_VERIFY_PARAM_set_flags` does not fail; a failure is claimed only
/// to come in a run in which every chain check fails too.
#[verifier::external_body]
fn store_builder_set_partial_chain(builder: &mut X509StoreBuilder) -> (r: Result<(), ErrorStack>)
    ensures
        r is Ok ==> builder_partial_chain(*final(builder)),
        r is Ok ==> builder_certs(*final(builder)) == builder_certs(*old(builder)),
        r is Err ==> exists|run: int| #[trigger] run_fails_every_check(run),
{
    builder.set_flags(X509VerifyFlags::PARTIAL_CHAIN)
}

/// `X509StoreBuilder::build`. Claimed: the store has the builder's
/// certificates and flags (it is the same OpenSSL object).
#[verifier::external_body]
fn store_builder_build(builder: X509StoreBuilder) -> (s: X509Store)
    ensures
        store_certs(s) == builder_certs(builder),
        store_partial_chain(s) == builder_partial_chain(builder),
{
    builder.build()
}

/// `X509StoreContext::new`. Claimed: `X509_STORE_CTX_new` fails only
/// where it cannot allocate, a run in which every chain check fails too.
#[verifier::external_body]
fn store_context_new() -> (r: Result<X509StoreContext, ErrorStack>)
    ensures
        r is Err ==> exists|run: int| #[trigger] run_fails_every_check(run),
{
    X509StoreContext::new()
}

/// `Stack::new`. Claimed: the stack is empty; `OPENSSL_sk_new_null` fails
/// only where it cannot allocate, a run in which every chain check fails
/// too.
#[verifier::external_body]
fn stack_new() -> (r: Result<CertStack, ErrorStack>)
    ensures
        r matches Ok(s) ==> stack_certs(s) == Seq::<Seq<u8>>::empty(),
        r is Err ==> exists|run: int| #[trigger] run_fails_every_check(run),
{
    Stack::new().map(|stack| CertStack { stack })
}

/// `Stack::push` of the certificate read from the DER (`X509::from_der`).
/// Claimed: on success the certificate is on top of the stack. The DER is
/// OpenSSL's own encoding (the type invariant of `Certificate`), so it
/// reads: the call fails only where OpenSSL cannot allocate, a run in which
/// every chain check fails too.
#[verifier::external_body]
fn stack_push(chain: &mut CertStack, cert: &Certificate) -> (r: Result<(), ErrorStack>)
    ensures
        r is Ok ==> stack_certs(*final(chain)) == stack_certs(*old(chain)).push(cert@),
        r is Err ==> exists|run: int| #[trigger] run_fails_every_check(run),
{
    chain.stack.push(X509::from_der(&cert.der)?)
}

/// `X509StoreContextRef::init` with a closure that calls `verify_cert`:
/// verifies the certificate read from `leaf` against the store, with
/// `chain` as untrusted intermediates. Claimed: the answer is OpenSSL's
/// verdict on these inputs in some run (OpenSSL takes the current time, so
/// no particular run is claimed).
#[verifier::external_body]
fn store_context_verify(
    ctx: &mut X509StoreContext,
    store: &X509Store,
    leaf: &Certificate,
    chain: &CertStack,
) -> (r: Result<bool, ErrorStack>)
    ensures
        exists|t: int|
            #![trigger chain_verdict_at(store_certs(*store), store_partial_chain(*store), stack_certs(*chain), leaf@, t)]
            verdict_of(r) == chain_verdict_at(
                store_certs(*store),
                store_partial_chain(*store),
                stack_certs(*chain),
                leaf@,
                t,
            ),
{
    let leaf = X509::from_der(&leaf.der)?;
    ctx.init(store, &leaf, &chain.stack, |c| c.verify_cert())
}

/// The text that displaying OpenSSL's errors shows. Nothing is claimed of
/// it.
#[verifier::external_body]
fn error_stack_text(e: &ErrorStack) -> String {
    format!("{}", e)
}

/// Why a certificate or a signature was not accepted.
pub enum CryptoError {
    /// OpenSSL reported an error.
    OpenSsl(ErrorStack),
    /// OpenSSL found the certificate chain invalid.
    ChainRejected,
    /// OpenSSL found the ECDSA signature invalid.
    SignatureRejected,
    /// The report names a signature algorithm other than ECDSA P-384 with
    /// SHA-384.
    UnsupportedAlgorithm(u32),
}

/// The text that reports a failure other than an OpenSSL error.
pub open spec fn crypto_error_message(e: CryptoError) -> Seq<char> {
    match e {
        CryptoError::OpenSsl(_) => Seq::empty(),
        CryptoError::ChainRejected => "Certificate verification failed"@,
        CryptoError::SignatureRejected => "ECDSA signature verification failed"@,
        CryptoError::UnsupportedAlgorithm(a) => "Unsupported signature algorithm: 0x"@ + zero_pad(
            hex_upper(a as nat),
            4,
        ),
    }
}

impl CryptoError {
    /// The text that reports this failure; for an OpenSSL error, what
    /// OpenSSL's errors display.
    pub fn message(&self) -> (s: String)
        ensures
            !(*self is OpenSsl) ==> s@ == crypto_error_message(*self),
    {
        match self {
            CryptoError::OpenSsl(e) => error_stack_text(e),
            CryptoError::ChainRejected => String::from_str("Certificate verification failed"),
            CryptoError::SignatureRejected => String::from_str("ECDSA signature verification failed"),
            CryptoError::UnsupportedAlgorithm(a) => {
                let mut s = String::from_str("Unsupported signature algorithm: 0x");
                push_hex_padded(&mut s, *a as u64, true, 4);
                s
            },
        }
    }
}

/// The result that a chain check gives for OpenSSL's verdict `v`.
pub open spec fn chain_outcome(r: Result<(), CryptoError>, v: Option<bool>) -> bool {
    match v {
        Some(true) => r is Ok,
        Some(false) => r matches Err(CryptoError::ChainRejected),
        None => r matches Err(CryptoError::OpenSsl(_)),
    }
}

/// What checking the chain from `leaf` through `untrusted` to one of
/// `trusted` (which may end it without being self-signed) gives: the
/// outcome of OpenSSL's verdict on them in some run.
pub open spec fn chain_check_result(
    r: Result<(), CryptoError>,
    trusted: Seq<Seq<u8>>,
    untrusted: Seq<Seq<u8>>,
    leaf: Seq<u8>,
) -> bool {
    exists|run: int|
        #![trigger chain_verdict_at(trusted, true, untrusted, leaf, run)]
        chain_outcome(r, chain_verdict_at(trusted, true, untrusted, leaf, run))
}

/// Where OpenSSL failed to prepare a chain check, in a run in which every
/// chain check fails, the OpenSSL error is the outcome of the chain check.
proof fn lemma_failed_run_is_check_outcome(
    e: ErrorStack,
    trusted: Seq<Seq<u8>>,
    untrusted: Seq<Seq<u8>>,
    leaf: Seq<u8>,
)
    requires
        exists|run: int| #[trigger] run_fails_every_check(run),
    ensures
        chain_check_result(Err(CryptoError::OpenSsl(e)), trusted, untrusted, leaf),
{
    let run = choose|run: int| #[trigger] run_fails_every_check(run);
    assert(chain_verdict_at(trusted, true, untrusted, leaf, run) == None::<bool>);
}

/// The result that a signature check gives for OpenSSL's verdict `v`.
pub open spec fn signature_outcome(r: Result<(), CryptoError>, v: Option<bool>) -> bool {
    match v {
        Some(true) => r is Ok,
        Some(false) => r matches Err(CryptoError::SignatureRejected),
        None => r matches Err(CryptoError::OpenSsl(_)),
    }
}

/// OpenSSL's verdict on the little-endian signature components `r_le`,
/// `s_le` over the SHA-384 digest of `signed`, under the key of the
/// certificate `cert`.
pub open spec fn report_ecdsa_verdict(cert: Seq<u8>, signed: Seq<u8>, r_le: Seq<u8>, s_le: Seq<u8>) -> Option<bool> {
    ecdsa_sha384_verdict(cert, signed, r_le.reverse(), s_le.reverse())
}

/// What the ECDSA check gives: the outcome of OpenSSL's verdict.
pub open spec fn ecdsa_check_result(
    r: Result<(), CryptoError>,
    cert: Seq<u8>,
    signed: Seq<u8>,
    r_le: Seq<u8>,
    s_le: Seq<u8>,
) -> bool {
    signature_outcome(r, report_ecdsa_verdict(cert, signed, r_le, s_le))
}

/// The signed part of a report's bytes.
pub open spec fn report_signed_part(report: Seq<u8>) -> Seq<u8> {
    report.subrange(0, SIGNED_LEN as int)
}

/// The R component of a report's signature, little-endian.
pub open spec fn report_sig_r(report: Seq<u8>) -> Seq<u8> {
    report.subrange(SIGNATURE_R_OFFSET as int, SIGNATURE_R_OFFSET + SIGNATURE_COMPONENT_LEN)
}

/// The S component of a report's signature, little-endian.
pub open spec fn report_sig_s(report: Seq<u8>) -> Seq<u8> {
    report.subrange(SIGNATURE_S_OFFSET as int, SIGNATURE_S_OFFSET + SIGNATURE_COMPONENT_LEN)
}

/// The report's signature verifies under the certificate: the report
/// names ECDSA P-384 with SHA-384, and OpenSSL accepts the signature over
/// the signed part.
pub open spec fn report_signature_verified(cert: Seq<u8>, report: Seq<u8>) -> bool {
    &&& le_u32(report, SIGNATURE_ALGO_OFFSET as int) == ECDSA_P384_SHA384
    &&& report_ecdsa_verdict(
        cert,
        report_signed_part(report),
        report_sig_r(report),
        report_sig_s(report),
    ) == Some(true)
}

/// What checking a report's signature under a certificate gives.
pub open spec fn report_check_result(r: Result<(), CryptoError>, cert: Seq<u8>, report: Seq<u8>) -> bool {
    let algo = le_u32(report, SIGNATURE_ALGO_OFFSET as int);
    if algo == ECDSA_P384_SHA384 {
        ecdsa_check_result(r, cert, report_signed_part(report), report_sig_r(report), report_sig_s(report))
    } else {
        r matches Err(CryptoError::UnsupportedAlgorithm(a)) && a == algo
    }
}

/// Turns what verifying a chain in OpenSSL gave into the outcome of the
/// chain check.
pub fn chain_verdict(outcome: Result<bool, ErrorStack>) -> (r: Result<(), CryptoError>)
    ensures
        outcome matches Ok(true) ==> r is Ok,
        outcome matches Ok(false) ==> r matches Err(CryptoError::ChainRejected),
        outcome matches Err(e) ==> r matches Err(CryptoError::OpenSsl(e2)) && e2 == e,
{
    match outcome {
        Ok(true) => Ok(()),
        Ok(false) => Err(CryptoError::ChainRejected),
        Err(e) => Err(CryptoError::OpenSsl(e)),
    }
}

/// Turns what verifying an ECDSA signature in OpenSSL gave into the
/// outcome of the signature check.
pub fn signature_verdict(outcome: Result<bool, ErrorStack>) -> (r: Result<(), CryptoError>)
    ensures
        outcome matches Ok(true) ==> r is Ok,
        outcome matches Ok(false) ==> r matches Err(CryptoError::SignatureRejected),
        outcome matches Err(e) ==> r matches Err(CryptoError::OpenSsl(e2)) && e2 == e,
{
    match outcome {
        Ok(true) => Ok(()),
        Ok(false) => Err(CryptoError::SignatureRejected),
        Err(e) => Err(CryptoError::OpenSsl(e)),
    }
}

/// The bytes in reverse order; turns a little-endian number into a
/// big-endian one.
pub fn reversed(v: &Vec<u8>) -> (r: Vec<u8>)
    ensures
        r@ == v@.reverse(),
{
    let mut r: Vec<u8> = Vec::new();
    let mut i: usize = v.len();
    while i > 0
        invariant
            i <= v@.len(),
            r@ == v@.subrange(i as int, v@.len() as int).reverse(),
        decreases i,
    {
        i = i - 1;
        r.push(v[i]);
        assert(r@ =~= v@.subrange(i as int, v@.len() as int).reverse());
    }
    assert(v@.subrange(0, v@.len() as int) =~= v@);
    r
}

/// An OpenSSL error as a failure of this library.
fn openssl_failure(e: ErrorStack) -> (r: CryptoError)
    ensures
        r matches CryptoError::OpenSsl(e2) && e2 == e,
{
    CryptoError::OpenSsl(e)
}

/// What an OpenSSL call gave, with its error as a failure of this library:
/// a value is kept as it is, an error becomes `CryptoError::OpenSsl`.
pub fn openssl_outcome<T>(outcome: Result<T, ErrorStack>) -> (r: Result<T, CryptoError>)
    ensures
        outcome matches Ok(v) ==> r matches Ok(w) && w == v,
        outcome matches Err(e) ==> r matches Err(CryptoError::OpenSsl(e2)) && e2 == e,
{
    match outcome {
        Ok(v) => Ok(v),
        Err(e) => Err(openssl_failure(e)),
    }
}

/// The cryptographic backend built on OpenSSL.
pub struct Crypto;

impl Crypto {
    /// Reads a certificate in PEM format. The input must fit a `c_int`
    /// (OpenSSL's reader asserts it). On text with no encrypted PEM block it
    /// succeeds exactly when OpenSSL reads a certificate, and holds
    /// OpenSSL's encoding of it.
    pub fn from_pem(pem: &[u8]) -> (r: Result<Certificate, CryptoError>)
        requires
            pem@.len() <= i32::MAX,
        ensures
            r matches Ok(c) ==> c@.len() > 0,
            !pem_mentions_encryption(pem@) ==> (r is Ok <==> x509_pem_der(pem@) is Some),
            !pem_mentions_encryption(pem@) ==> (r matches Ok(c) ==> x509_pem_der(pem@) == Some(c@)),
            r matches Err(e) ==> e is OpenSsl,
    {
        match x509_pem_to_der(pem) {
            Ok(der) => Ok(Certificate { der }),
            Err(e) => Err(openssl_failure(e)),
        }
    }

    /// Reads a certificate in DER format: it succeeds exactly when OpenSSL
    /// reads a certificate from the bytes, and holds OpenSSL's encoding of
    /// it. OpenSSL's own encoding of a certificate (what `to_der` gives)
    /// reads back to the same certificate.
    pub fn from_der(der: &[u8]) -> (r: Result<Certificate, CryptoError>)
        ensures
            r is Ok <==> x509_der_encoding(der@) is Some,
            r matches Ok(c) ==> x509_der_encoding(der@) == Some(c@),
            x509_der_encoding(der@) == Some(der@) ==> (r matches Ok(c) && c@ == der@),
            r matches Err(e) ==> e is OpenSsl,
    {
        match x509_reencode(der) {
            Ok(d) => Ok(Certificate { der: d }),
            Err(e) => Err(openssl_failure(e)),
        }
    }

    /// Writes a certificate in DER format: its encoding, which is
    /// OpenSSL's own.
    pub fn to_der(cert: &Certificate) -> (r: Result<Vec<u8>, CryptoError>)
        ensures
            r matches Ok(d) && d@ == cert@ && x509_der_encoding(d@) == Some(d@),
    {
        proof { use_type_invariant(cert); }
        let d = cert.der.clone();
        assert(d@ =~= cert.der@);
        Ok(d)
    }

    /// Verifies `leaf` against a store of exactly the trusted certificates,
    /// which may end the chain without being self-signed, with the
    /// untrusted certificates, in order, as intermediates.
    pub fn verify_chain(trusted_certs: Vec<Certificate>, untrusted_chain: Vec<Certificate>, leaf: Certificate) -> (r:
        Result<(), CryptoError>)
        ensures
            chain_check_result(r, cert_ders(trusted_certs@), cert_ders(untrusted_chain@), leaf@),
            (forall|run: int|
                #[trigger] chain_verdict_at(cert_ders(trusted_certs@), true, cert_ders(untrusted_chain@), leaf@, run)
                    == Some(true)) ==> r is Ok,
            r matches Err(CryptoError::OpenSsl(_)) ==> exists|run: int|
                #[trigger] chain_verdict_at(cert_ders(trusted_certs@), true, cert_ders(untrusted_chain@), leaf@, run)
                    == None::<bool>,
    {
        let mut store_builder = match store_builder_new() {
            Ok(b) => b,
            Err(e) => {
                proof {
                    lemma_failed_run_is_check_outcome(e, cert_ders(trusted_certs@), cert_ders(untrusted_chain@), leaf@);
                    lemma_chain_check_follows_openssl(
                        Err(CryptoError::OpenSsl(e)),
                        cert_ders(trusted_certs@),
                        cert_ders(untrusted_chain@),
                        leaf@,
                    );
                }
                return Err(openssl_failure(e));
            },
        };
        let mut i: usize = 0;
        while i < trusted_certs.len()
            invariant
                i <= trusted_certs@.len(),
                builder_certs(store_builder) == cert_ders(trusted_certs@.take(i as int)),
            decreases trusted_certs@.len() - i,
        {
            if let Err(e) = store_builder_add_cert(&mut store_builder, &trusted_certs[i]) {
                proof {
                    lemma_failed_run_is_check_outcome(e, cert_ders(trusted_certs@), cert_ders(untrusted_chain@), leaf@);
                    lemma_chain_check_follows_openssl(
                        Err(CryptoError::OpenSsl(e)),
                        cert_ders(trusted_certs@),
                        cert_ders(untrusted_chain@),
                        leaf@,
                    );
                }
                return Err(openssl_failure(e));
            }
            assert(cert_ders(trusted_certs@.take(i + 1)) =~= cert_ders(trusted_certs@.take(i as int)).push(
                trusted_certs@[i as int]@,
            ));
            i = i + 1;
        }
        assert(trusted_certs@.take(trusted_certs@.len() as int) =~= trusted_certs@);
        if let Err(e) = store_builder_set_partial_chain(&mut store_builder) {
            proof {
                lemma_failed_run_is_check_outcome(e, cert_ders(trusted_certs@), cert_ders(untrusted_chain@), leaf@);
                lemma_chain_check_follows_openssl(
                    Err(CryptoError::OpenSsl(e)),
                    cert_ders(trusted_certs@),
                    cert_ders(untrusted_chain@),
                    leaf@,
                );
            }
            return Err(openssl_failure(e));
        }
        let store = store_builder_build(store_builder);
        let mut ctx = match store_context_new() {
            Ok(c) => c,
            Err(e) => {
                proof {
                    lemma_failed_run_is_check_outcome(e, cert_ders(trusted_certs@), cert_ders(untrusted_chain@), leaf@);
                    lemma_chain_check_follows_openssl(
                        Err(CryptoError::OpenSsl(e)),
                        cert_ders(trusted_certs@),
                        cert_ders(untrusted_chain@),
                        leaf@,
                    );
                }
                return Err(openssl_failure(e));
            },
        };
        let mut chain = match stack_new() {
            Ok(c) => c,
            Err(e) => {
                proof {
                    lemma_failed_run_is_check_outcome(e, cert_ders(trusted_certs@), cert_ders(untrusted_chain@), leaf@);
                    lemma_chain_check_follows_openssl(
                        Err(CryptoError::OpenSsl(e)),
                        cert_ders(trusted_certs@),
                        cert_ders(untrusted_chain@),
                        leaf@,
                    );
                }
                return Err(openssl_failure(e));
            },
        };
        let mut j: usize = 0;
        while j < untrusted_chain.len()
            invariant
                j <= untrusted_chain@.len(),
                stack_certs(chain) == cert_ders(untrusted_chain@.take(j as int)),
            decreases untrusted_chain@.len() - j,
        {
            if let Err(e) = stack_push(&mut chain, &untrusted_chain[j]) {
                proof {
                    lemma_failed_run_is_check_outcome(e, cert_ders(trusted_certs@), cert_ders(untrusted_chain@), leaf@);
                    lemma_chain_check_follows_openssl(
                        Err(CryptoError::OpenSsl(e)),
                        cert_ders(trusted_certs@),
                        cert_ders(untrusted_chain@),
                        leaf@,
                    );
                }
                return Err(openssl_failure(e));
            }
            assert(cert_ders(untrusted_chain@.take(j + 1)) =~= cert_ders(untrusted_chain@.take(j as int)).push(
                untrusted_chain@[j as int]@,
            ));
            j = j + 1;
        }
        assert(untrusted_chain@.take(untrusted_chain@.len() as int) =~= untrusted_chain@);
        let outcome = store_context_verify(&mut ctx, &store, &leaf, &chain);
        let ghost t = choose|t: int|
            verdict_of(outcome) == chain_verdict_at(
                store_certs(store),
                store_partial_chain(store),
                stack_certs(chain),
                leaf@,
                t,
            );
        let r = chain_verdict(outcome);
        assert(chain_outcome(r, chain_verdict_at(cert_ders(trusted_certs@), true, cert_ders(untrusted_chain@), leaf@, t)));
        proof {
            lemma_chain_check_follows_openssl(r, cert_ders(trusted_certs@), cert_ders(untrusted_chain@), leaf@);
        }
        r
    }
}

/// The algorithm number of ECDSA P-384 with SHA-384 in a report.
pub const ECDSA_P384_SHA384: u32 = 1;

/// Verifies an ECDSA P-384 signature over the SHA-384 digest of
/// `signed_bytes` with the public key of `cert`; the signature's
/// components are little-endian and handed to OpenSSL big-endian. Each
/// component must fit a `c_int` in length (OpenSSL asserts it).
pub fn verify_report_sig_ecdsa_p384_sha384(cert: &Certificate, signed_bytes: &[u8], signature: Signature) -> (r:
    Result<(), CryptoError>)
    requires
        signature.r@.len() <= i32::MAX,
        signature.s@.len() <= i32::MAX,
    ensures
        ecdsa_check_result(r, cert@, signed_bytes@, signature.r@, signature.s@),
{
    let r_be = reversed(&signature.r);
    let s_be = reversed(&signature.s);
    let outcome = ecdsa_sha384_verify_under_cert(cert.der.as_slice(), signed_bytes, r_be.as_slice(), s_be.as_slice());
    signature_verdict(outcome)
}

/// Verifies the signature of a report with the key of `cert`; only ECDSA
/// P-384 with SHA-384 is supported.
pub fn verify_report(cert: &Certificate, report: &AttestationReport) -> (r: Result<(), CryptoError>)
    ensures
        report_check_result(r, cert@, report@),
{
    let algo = report.signature_algo();
    if algo == ECDSA_P384_SHA384 {
        let sig = report.signature();
        verify_report_sig_ecdsa_p384_sha384(cert, report.signed_bytes(), sig)
    } else {
        Err(CryptoError::UnsupportedAlgorithm(algo))
    }
}

/// Verifies that `issuer` issued `subject`: the chain check with `issuer`
/// as the only trusted certificate, no intermediates, and `subject` as
/// the leaf.
pub fn verify_certificate(issuer: &Certificate, subject: &Certificate) -> (r: Result<(), CryptoError>)
    ensures
        chain_check_result(r, seq![issuer@], Seq::empty(), subject@),
        (forall|run: int| #[trigger] chain_verdict_at(seq![issuer@], true, Seq::empty(), subject@, run) == Some(true))
            ==> r is Ok,
        r matches Err(CryptoError::OpenSsl(_)) ==> exists|run: int|
            #[trigger] chain_verdict_at(seq![issuer@], true, Seq::empty(), subject@, run) == None::<bool>,
{
    let trusted = vec![issuer.duplicate()];
    let untrusted: Vec<Certificate> = Vec::new();
    let ghost trusted_view = trusted@;
    let ghost untrusted_view = untrusted@;
    assert(cert_ders(trusted_view) =~= seq![issuer@]);
    assert(cert_ders(untrusted_view) =~= Seq::<Seq<u8>>::empty());
    let r = Crypto::verify_chain(trusted, untrusted, subject.duplicate());
    proof {
        lemma_certificate_check_follows_openssl(r, issuer@, subject@);
    }
    r
}


/// The ECDSA check is a function of its inputs: two results of it on the
/// same certificate, signed bytes and components agree.
pub proof fn lemma_ecdsa_check_functional(
    r1: Result<(), CryptoError>,
    r2: Result<(), CryptoError>,
    cert: Seq<u8>,
    signed: Seq<u8>,
    r_le: Seq<u8>,
    s_le: Seq<u8>,
)
    requires
        ecdsa_check_result(r1, cert, signed, r_le, s_le),
        ecdsa_check_result(r2, cert, signed, r_le, s_le),
    ensures
        r1 is Ok <==> r2 is Ok,
        r1 matches Err(CryptoError::SignatureRejected) <==> r2 matches Err(CryptoError::SignatureRejected),
        r1 matches Err(CryptoError::OpenSsl(_)) <==> r2 matches Err(CryptoError::OpenSsl(_)),
{
}

/// On a report that names ECDSA P-384 with SHA-384, the report check is
/// the ECDSA check over the report's signed part and its signature's
/// components.
pub proof fn lemma_report_check_is_ecdsa_check(r: Result<(), CryptoError>, cert: Seq<u8>, report: Seq<u8>)
    requires
        le_u32(report, SIGNATURE_ALGO_OFFSET as int) == ECDSA_P384_SHA384,
    ensures
        report_check_result(r, cert, report) == ecdsa_check_result(
            r,
            cert,
            report_signed_part(report),
            report_sig_r(report),
            report_sig_s(report),
        ),
{
}

/// The report check is a function of the certificate and the report: two
/// results of it agree, down to the number of an unsupported algorithm.
pub proof fn lemma_report_check_functional(
    r1: Result<(), CryptoError>,
    r2: Result<(), CryptoError>,
    cert: Seq<u8>,
    report: Seq<u8>,
)
    requires
        report_check_result(r1, cert, report),
        report_check_result(r2, cert, report),
    ensures
        r1 is Ok <==> r2 is Ok,
        r1 matches Err(CryptoError::SignatureRejected) <==> r2 matches Err(CryptoError::SignatureRejected),
        r1 matches Err(CryptoError::OpenSsl(_)) <==> r2 matches Err(CryptoError::OpenSsl(_)),
        r1 matches Err(CryptoError::UnsupportedAlgorithm(a)) ==> r2 matches Err(
            CryptoError::UnsupportedAlgorithm(b),
        ) && a == b,
{
}

/// The check that `issuer` issued `subject` is the chain check with the
/// issuer as the only trusted certificate, no intermediates, and the
/// subject as the leaf.
pub proof fn lemma_certificate_check_is_chain_check(r: Result<(), CryptoError>, issuer: Certificate, subject: Certificate)
    ensures
        chain_check_result(r, seq![issuer@], Seq::empty(), subject@) == chain_check_result(
            r,
            cert_ders(seq![issuer]),
            cert_ders(Seq::<Certificate>::empty()),
            subject@,
        ),
{
    assert(cert_ders(seq![issuer]) =~= seq![issuer@]);
    assert(cert_ders(Seq::<Certificate>::empty()) =~= Seq::<Seq<u8>>::empty());
}

/// A chain check answers as OpenSSL does. Where OpenSSL accepts the chain
/// in every run, the check succeeds, and where it rejects it in every run,
/// the check reports the rejection; a success, a rejection and an OpenSSL
/// error each come only where OpenSSL, in some run, accepts the chain,
/// rejects it, or fails; no other failure comes.
pub proof fn lemma_chain_check_follows_openssl(
    r: Result<(), CryptoError>,
    trusted: Seq<Seq<u8>>,
    untrusted: Seq<Seq<u8>>,
    leaf: Seq<u8>,
)
    requires
        chain_check_result(r, trusted, untrusted, leaf),
    ensures
        (forall|run: int| #[trigger] chain_verdict_at(trusted, true, untrusted, leaf, run) == Some(true)) ==> r is Ok,
        (forall|run: int| #[trigger] chain_verdict_at(trusted, true, untrusted, leaf, run) == Some(false))
            ==> r matches Err(CryptoError::ChainRejected),
        r is Ok ==> exists|run: int| #[trigger] chain_verdict_at(trusted, true, untrusted, leaf, run) == Some(true),
        r matches Err(CryptoError::ChainRejected) ==> exists|run: int|
            #[trigger] chain_verdict_at(trusted, true, untrusted, leaf, run) == Some(false),
        r matches Err(CryptoError::OpenSsl(_)) ==> exists|run: int|
            #[trigger] chain_verdict_at(trusted, true, untrusted, leaf, run) == None::<bool>,
        r is Ok || r matches Err(CryptoError::ChainRejected) || r matches Err(CryptoError::OpenSsl(_)),
{
    let run = choose|run: int|
        #![trigger chain_verdict_at(trusted, true, untrusted, leaf, run)]
        chain_outcome(r, chain_verdict_at(trusted, true, untrusted, leaf, run));
    assert(chain_outcome(r, chain_verdict_at(trusted, true, untrusted, leaf, run)));
}

/// The check that `issuer` issued `subject` answers as OpenSSL does on a
/// store that holds the issuer alone: where OpenSSL accepts the subject in
/// every run, the check succeeds; an OpenSSL error comes only where
/// OpenSSL, in some run, fails; a rejection only where it rejects.
pub proof fn lemma_certificate_check_follows_openssl(r: Result<(), CryptoError>, issuer: Seq<u8>, subject: Seq<u8>)
    requires
        chain_check_result(r, seq![issuer], Seq::empty(), subject),
    ensures
        (forall|run: int| #[trigger] chain_verdict_at(seq![issuer], true, Seq::empty(), subject, run) == Some(true))
            ==> r is Ok,
        r matches Err(CryptoError::OpenSsl(_)) ==> exists|run: int|
            #[trigger] chain_verdict_at(seq![issuer], true, Seq::empty(), subject, run) == None::<bool>,
        r matches Err(CryptoError::ChainRejected) ==> exists|run: int|
            #[trigger] chain_verdict_at(seq![issuer], true, Seq::empty(), subject, run) == Some(false),
{
    lemma_chain_check_follows_openssl(r, seq![issuer], Seq::empty(), subject);
}

} // verus!
