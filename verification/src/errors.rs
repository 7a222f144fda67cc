//! Error taxonomy: generation aborts fail closed, verification rejects
//! outright; only the revocation-list fetch may degrade instead of failing.

use vstd::prelude::*;

verus! {

/// A response from the attestation service was malformed.
#[derive(Debug, Clone, Copy, PartialEq, Eq, Structural)]
pub enum ProtocolError {
    /// The response head could not be parsed as HTTP.
    MalformedResponse,
    /// The declared content length was not a valid decimal number.
    InvalidContentLength,
    /// The response held fewer body bytes than its declared content length.
    TruncatedBody,
    /// A base64-encoded field did not decode.
    InvalidBase64,
    /// The response body was not valid UTF-8.
    InvalidUtf8,
    /// The signing-certificate header was not percent-encoded PEM.
    InvalidCertificateHeader,
}

/// The self-check report did not match this platform or the quote.
#[derive(Debug, Clone, Copy, PartialEq, Eq, Structural)]
pub enum IntegrityError {
    /// The platform could not authenticate the self-check report.
    SelfCheckFailed,
    /// The self-check report's identity fields differ from the target info.
    PlatformMismatch,
    /// The anti-replay hash over nonce and quote does not match the
    /// self-check report's embedded data.
    QuoteTampered,
}

/// Why quote generation aborted with no partial output.
#[derive(Debug, Clone, Copy, PartialEq, Eq, Structural)]
pub enum AttestationError {
    /// The platform quoting capability reported a non-success status.
    Platform { status: u32 },
    /// The transport failed while submitting the quote for endorsement.
    Network,
    /// The endorsement response could not be parsed.
    Protocol { error: ProtocolError },
    /// A tamper-evidence check failed.
    Integrity { error: IntegrityError },
}

/// Why an endorsed report was rejected by the verifier.
#[derive(Debug, Clone, Copy, PartialEq, Eq, Structural)]
pub enum VerificationError {
    /// The configured trust root was not a usable PEM certificate.
    InvalidTrustRoot,
    /// The signing certificate does not chain to the trust root, is not
    /// valid at the supplied time, or uses an unsupported algorithm.
    InvalidCertificate,
    /// The report signature is not valid for the report body under the
    /// signing certificate's key.
    InvalidSignature,
    /// The report declares an unsupported version.
    UnexpectedVersion { expected: i64, actual: i64 },
    /// The report timestamp could not be parsed or normalized.
    InvalidTimestamp,
    /// The quote body was not decodable base64 or too short.
    InvalidQuoteBody,
    /// The quote's custom report-data field is too short.
    InvalidReportData { length: usize },
}

} // verus!
