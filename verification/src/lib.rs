//! Remote-attestation core: generation-protocol checks, attestation-service
//! request building and response parsing, and independent verification of an
//! endorsed attestation report against a fixed trust root.

pub mod bytes;
pub mod codec;
pub mod errors;
pub mod http;
pub mod ias;
pub mod numfmt;
pub mod protocol;
pub mod report;
pub mod verification;
