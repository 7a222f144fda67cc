//! Independent verification of an endorsed report: the signing certificate
//! must chain to the configured trust root at the supplied time, and the
//! report signature must be valid over the exact report body bytes.

use vstd::prelude::*;
use crate::errors::VerificationError;
use crate::report::EndorsedAttestationVerificationReport;
use crate::report::UnixTime;
use vstd::utf8::encode_utf8;

verus! {

/// What PEM parsing yields on the trust-root bytes: the DER contents of the
/// first PEM block, or nothing when the text is not PEM.
pub uninterp spec fn pem_contents_of(b: Seq<u8>) -> Option<Seq<u8>>;

/// Relies on pem::parse: the first PEM block's decoded contents.
#[verifier::external_body]
fn pem_parse(b: &[u8]) -> (r: Option<Vec<u8>>)
    ensures
        match r {
            Some(v) => pem_contents_of(b@) == Some(v@),
            None => pem_contents_of(b@) is None,
        },
{
    pem::parse(b).ok().map(|p| p.contents)
}

/// Whether `cert` is a DER end-entity certificate that is valid for use by a
/// TLS server under the trust anchor made of `root`, at `secs` seconds since
/// the epoch, with the fixed allow-list of signature algorithms: ECDSA over
/// P-256/P-384 with SHA-256/384, RSA-PSS with SHA-256/384/512, RSA PKCS#1
/// with SHA-256/384/512, and RSA PKCS#1 (3072 bit and up) with SHA-384.
pub uninterp spec fn chain_valid(cert: Seq<u8>, root: Seq<u8>, secs: int) -> bool;

/// Relies on webpki::EndEntityCert::verify_is_valid_tls_server_cert (and the
/// certificate and trust-anchor parsers it needs): a pure function of the
/// certificate, the root, and the time.
#[verifier::external_body]
fn cert_chain_valid(cert: &[u8], root: &[u8], secs: u64) -> (r: bool)
    ensures
        r == chain_valid(cert@, root@, secs as int),
{
    let algs: &[&webpki::SignatureAlgorithm] = &[
        &webpki::ECDSA_P256_SHA256, &webpki::ECDSA_P256_SHA384,
        &webpki::ECDSA_P384_SHA256, &webpki::ECDSA_P384_SHA384,
        &webpki::RSA_PSS_2048_8192_SHA256_LEGACY_KEY, &webpki::RSA_PSS_2048_8192_SHA384_LEGACY_KEY,
        &webpki::RSA_PSS_2048_8192_SHA512_LEGACY_KEY, &webpki::RSA_PKCS1_2048_8192_SHA256,
        &webpki::RSA_PKCS1_2048_8192_SHA384, &webpki::RSA_PKCS1_2048_8192_SHA512,
        &webpki::RSA_PKCS1_3072_8192_SHA384,
    ];
    let anchor = match webpki::trust_anchor_util::cert_der_as_trust_anchor(root) {
        Ok(a) => a, Err(_) => return false };
    let ee = match webpki::EndEntityCert::from(cert) { Ok(c) => c, Err(_) => return false };
    let time = webpki::Time::from_seconds_since_unix_epoch(secs);
    let anchors = [anchor];
    ee.verify_is_valid_tls_server_cert(algs, &webpki::TLSServerTrustAnchors(&anchors), &[root], time).is_ok()
}

/// Whether `sig` is a valid RSA PKCS#1 v1.5 SHA-256 signature over `msg`
/// under the subject public key of the DER certificate `cert`.
pub uninterp spec fn sig_valid(cert: Seq<u8>, msg: Seq<u8>, sig: Seq<u8>) -> bool;

/// Relies on webpki::EndEntityCert::verify_signature with RSA PKCS#1 v1.5
/// SHA-256: a pure function of the certificate, the message, and the
/// signature.
#[verifier::external_body]
fn rsa_sig_valid(cert: &[u8], msg: &[u8], sig: &[u8]) -> (r: bool)
    ensures
        r == sig_valid(cert@, msg@, sig@),
{
    let ee = match webpki::EndEntityCert::from(cert) {
        Ok(c) => c,
        Err(_) => return false,
    };
    ee.verify_signature(&webpki::RSA_PKCS1_2048_8192_SHA256, msg, sig).is_ok()
}

/// The whole seconds handed to certificate validation for a time value:
/// rounded up to the next whole second, so the time validated against is
/// never earlier than the caller's.
pub open spec fn webpki_secs_of(t: UnixTime) -> int {
    if t.nanos > 0 {
        t.secs + 1
    } else {
        t.secs as int
    }
}

/// An endorsed report verifies against a trust root at a time exactly when
/// the root is a PEM certificate, the signing certificate chains to it at
/// that time, and the signature is valid over the raw report body bytes.
pub open spec fn verify_ok(
    avr: Seq<char>,
    signature: Seq<u8>,
    signing_cert: Seq<u8>,
    root_pem: Seq<u8>,
    t: UnixTime,
) -> bool {
    match pem_contents_of(root_pem) {
        None => false,
        Some(root) => chain_valid(signing_cert, root, webpki_secs_of(t)) && sig_valid(
            signing_cert,
            encode_utf8(avr),
            signature,
        ),
    }
}

/// Verifies an endorsed report against the trust root (as PEM bytes) at the
/// caller-supplied time; pure in its inputs, with no ambient clock. The time
/// must lie at or after the epoch.
pub fn verify_report(
    report: &EndorsedAttestationVerificationReport,
    root_ca_pem: &[u8],
    current_time: UnixTime,
) -> (r: Result<(), VerificationError>)
    requires
        0 <= current_time.secs < i64::MAX,
    ensures
        r is Ok <==> verify_ok(
            report.avr@,
            report.signature@,
            report.signing_cert@,
            root_ca_pem@,
            current_time,
        ),
        r matches Err(e) ==> match pem_contents_of(root_ca_pem@) {
                None => e == VerificationError::InvalidTrustRoot,
                Some(root) => if !chain_valid(
                    report.signing_cert@,
                    root,
                    webpki_secs_of(current_time),
                ) {
                    e == VerificationError::InvalidCertificate
                } else {
                    e == VerificationError::InvalidSignature
                },
        },
{
    let secs: u64 = if current_time.nanos > 0 {
        (current_time.secs + 1) as u64
    } else {
        current_time.secs as u64
    };
    let root = match pem_parse(root_ca_pem) {
        Some(v) => v,
        None => {
            return Err(VerificationError::InvalidTrustRoot);
        },
    };
    if !cert_chain_valid(report.signing_cert.as_slice(), root.as_slice(), secs) {
        return Err(VerificationError::InvalidCertificate);
    }
    if !rsa_sig_valid(
        report.signing_cert.as_slice(),
        report.avr.as_str().as_bytes(),
        report.signature.as_slice(),
    ) {
        return Err(VerificationError::InvalidSignature);
    }
    Ok(())
}

/// A signing certificate that does not chain to the trust root fails
/// verification, even when the body signature is valid under that
/// certificate's own key.
pub proof fn lemma_chain_required(
    avr: Seq<char>,
    signature: Seq<u8>,
    signing_cert: Seq<u8>,
    root_pem: Seq<u8>,
    t: UnixTime,
)
    requires
        match pem_contents_of(root_pem) {
            Some(root) => !chain_valid(signing_cert, root, webpki_secs_of(t)),
            None => true,
        },
    ensures
        !verify_ok(avr, signature, signing_cert, root_pem, t),
{
}

/// An invalid signature over the report body fails verification, whatever
/// the certificate.
pub proof fn lemma_signature_required(
    avr: Seq<char>,
    signature: Seq<u8>,
    signing_cert: Seq<u8>,
    root_pem: Seq<u8>,
    t: UnixTime,
)
    requires
        !sig_valid(signing_cert, encode_utf8(avr), signature),
    ensures
        !verify_ok(avr, signature, signing_cert, root_pem, t),
{
}

} // verus!
