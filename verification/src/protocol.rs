//! The quote-generation protocol: a strictly sequential flow from platform
//! initialization through revocation-list fetch, local report, quote,
//! self-check validation, and endorsement. The decisions live here as a
//! state machine; the platform calls and the transport are performed by the
//! caller, which hands each outcome back as an event.

use vstd::prelude::*;
use crate::bytes::as_u32_le;
use crate::bytes::bytes_eq;
use crate::bytes::concat_bytes;
use crate::bytes::u32_le_spec;
use crate::codec::sha256;
use crate::codec::sha256_of;
use crate::errors::AttestationError;
use crate::errors::IntegrityError;
use crate::ias::build_report_request;
use crate::ias::build_sigrl_request;
use crate::ias::parse_response_attn_report;
use crate::ias::parse_response_sigrl;
use crate::ias::attn_of;
use crate::ias::report_request_chars;
use crate::ias::sigrl_of;
use crate::ias::sigrl_request_chars;
use crate::report::EndorsedAttestationVerificationReport;
use vstd::slice::slice_to_vec;
use vstd::string::StrSliceExecFns;
use vstd::string::StringExecFns;
use vstd::utf8::encode_utf8;

verus! {

/// Upper bound on a quote's length: the protocol-defined quote buffer size.
pub const MAX_QUOTE_LEN: usize = 2048;

/// The platform-identity fields of the target info obtained at
/// initialization.
#[derive(Debug, Clone, PartialEq)]
pub struct TargetInfo {
    pub mr_enclave: Vec<u8>,
    pub attributes_flags: u64,
    pub attributes_xfrm: u64,
}

/// The fields of the platform's self-check report that the protocol reads:
/// the identity fields, and the custom data whose first 32 bytes embed the
/// anti-replay hash.
#[derive(Debug, Clone, PartialEq)]
pub struct SelfCheckReport {
    pub mr_enclave: Vec<u8>,
    pub attributes_flags: u64,
    pub attributes_xfrm: u64,
    pub report_data: Vec<u8>,
}

/// Relies on rand::random: sixteen bytes from a cryptographically secure
/// generator; nothing is assumed of their values.
#[verifier::external_body]
fn random_nonce16() -> (r: Vec<u8>)
    ensures
        r@.len() == 16,
{
    rand::random::<[u8; 16]>().to_vec()
}

/// The self-check report carries this platform's identity: measurement and
/// attribute fields equal those of the target info.
pub open spec fn identity_matches(ti: TargetInfo, qe: SelfCheckReport) -> bool {
    &&& ti.mr_enclave@ == qe.mr_enclave@
    &&& ti.attributes_flags == qe.attributes_flags
    &&& ti.attributes_xfrm == qe.attributes_xfrm
}

/// Compares the self-check report's identity fields against the target info.
pub fn check_platform_identity(ti: &TargetInfo, qe: &SelfCheckReport) -> (r: bool)
    ensures
        r == identity_matches(*ti, *qe),
{
    bytes_eq(ti.mr_enclave.as_slice(), qe.mr_enclave.as_slice())
        && ti.attributes_flags == qe.attributes_flags && ti.attributes_xfrm == qe.attributes_xfrm
}

/// The anti-replay binding holds: the digest of nonce followed by quote
/// equals the first 32 bytes of the self-check report's custom data.
pub open spec fn replay_binding_ok(nonce: Seq<u8>, quote: Seq<u8>, report_data: Seq<u8>) -> bool {
    report_data.len() >= 32 && sha256_of(nonce + quote) == report_data.subrange(0, 32)
}

/// The anti-replay check: recomputes the digest over nonce and quote and
/// compares it byte for byte against the self-check report's embedded data;
/// a mismatch means the quote was modified or replayed in transit.
pub fn check_anti_replay(nonce: &[u8], quote: &[u8], report_data: &[u8]) -> (r: Result<
    (),
    AttestationError,
>)
    requires
        nonce@.len() + quote@.len() <= usize::MAX,
    ensures
        r is Ok <==> replay_binding_ok(nonce@, quote@, report_data@),
        r is Err ==> r == Err::<(), AttestationError>(
            AttestationError::Integrity { error: IntegrityError::QuoteTampered },
        ),
{
    if report_data.len() < 32 {
        return Err(AttestationError::Integrity { error: IntegrityError::QuoteTampered });
    }
    let message = concat_bytes(nonce, quote);
    let digest = sha256(message.as_slice());
    let embedded = vstd::slice::slice_subrange(report_data, 0, 32);
    if bytes_eq(digest.as_slice(), embedded) {
        Ok(())
    } else {
        Err(AttestationError::Integrity { error: IntegrityError::QuoteTampered })
    }
}

/// Any change to nonce or quote that changes the digest makes the
/// anti-replay binding fail against the same self-check data.
pub proof fn lemma_tamper_detected(
    nonce1: Seq<u8>,
    quote1: Seq<u8>,
    nonce2: Seq<u8>,
    quote2: Seq<u8>,
    report_data: Seq<u8>,
)
    requires
        replay_binding_ok(nonce1, quote1, report_data),
        sha256_of(nonce2 + quote2) != sha256_of(nonce1 + quote1),
    ensures
        !replay_binding_ok(nonce2, quote2, report_data),
{
}

/// Where the protocol stands: which outcome it waits for, or how it ended.
pub enum GenStep {
    Start,
    AwaitInit,
    AwaitSigrl { ti: TargetInfo },
    AwaitReport { ti: TargetInfo, sigrl: Vec<u8> },
    AwaitQuote { ti: TargetInfo, nonce: Vec<u8> },
    AwaitSelfCheck { ti: TargetInfo, nonce: Vec<u8>, quote: Vec<u8>, qe: SelfCheckReport },
    AwaitEndorsement,
    Done,
    Failed { error: AttestationError },
}

/// The outcome of the platform call or exchange the protocol waited for.
/// A platform status of zero is success.
pub enum GenEvent {
    Begin,
    InitQuote { status: u32, ti: TargetInfo, gid: [u8; 4] },
    SigrlResponse { response: Option<Vec<u8>> },
    ReportCreated { status: u32 },
    QuoteReturned { status: u32, quote: Vec<u8>, qe: SelfCheckReport },
    SelfCheckOutcome { status: u32 },
    EndorsementResponse { response: Option<Vec<u8>> },
}

/// What the caller must do next: call into the platform, perform one of the
/// two exchanges with the given request, or stop.
pub enum GenAction {
    CallInitQuote,
    FetchSigrl { request: String },
    CallCreateReport,
    CallGetQuote { sigrl: Vec<u8>, nonce: Vec<u8> },
    CallVerifySelfCheck,
    SubmitReport { request: String },
    Finish { report: EndorsedAttestationVerificationReport },
    Abort { error: AttestationError },
}

/// The event each step waits for.
pub open spec fn expects(s: GenStep, e: GenEvent) -> bool {
    match (s, e) {
        (GenStep::Start, GenEvent::Begin) => true,
        (GenStep::AwaitInit, GenEvent::InitQuote { .. }) => true,
        (GenStep::AwaitSigrl { .. }, GenEvent::SigrlResponse { .. }) => true,
        (GenStep::AwaitReport { .. }, GenEvent::ReportCreated { .. }) => true,
        (GenStep::AwaitQuote { .. }, GenEvent::QuoteReturned { .. }) => true,
        (GenStep::AwaitSelfCheck { .. }, GenEvent::SelfCheckOutcome { .. }) => true,
        (GenStep::AwaitEndorsement, GenEvent::EndorsementResponse { .. }) => true,
        _ => false,
    }
}

/// A quote stays within the protocol's fixed buffer bound.
pub open spec fn event_wf(e: GenEvent) -> bool {
    match e {
        GenEvent::QuoteReturned { quote, .. } => quote@.len() <= MAX_QUOTE_LEN,
        _ => true,
    }
}

/// Internal size bounds that every reachable step satisfies.
pub open spec fn step_wf(s: GenStep) -> bool {
    match s {
        GenStep::AwaitQuote { nonce, .. } => nonce@.len() == 16,
        GenStep::AwaitSelfCheck { nonce, quote, .. } => nonce@.len() == 16 && quote@.len()
            <= MAX_QUOTE_LEN,
        _ => true,
    }
}

/// ASCII whitespace as it may trail a subscription key read from storage.
pub open spec fn is_trailing_space(c: char) -> bool {
    c == ' ' || c == '\t' || c == '\n' || c == '\r'
}

/// `s` with every trailing whitespace character removed.
pub open spec fn trim_end_spec(s: Seq<char>) -> Seq<char>
    decreases s.len(),
{
    if s.len() == 0 {
        s
    } else if is_trailing_space(s.last()) {
        trim_end_spec(s.drop_last())
    } else {
        s
    }
}

fn is_space_char(c: char) -> (r: bool)
    ensures
        r == is_trailing_space(c),
{
    c == ' ' || c == '\t' || c == '\n' || c == '\r'
}

/// Removes trailing whitespace from the subscription key.
fn trim_end_key(s: &str) -> (r: String)
    ensures
        r@ == trim_end_spec(s@),
{
    let n = s.unicode_len();
    let mut k = n;
    proof {
        assert(s@.take(n as int) =~= s@);
    }
    while k > 0 && is_space_char(s.get_char(k - 1))
        invariant
            k <= n,
            n == s@.len(),
            trim_end_spec(s@) == trim_end_spec(s@.take(k as int)),
        decreases k,
    {
        proof {
            assert(s@.take(k as int).last() == s@[k as int - 1]);
            assert(s@.take(k as int).drop_last() =~= s@.take(k as int - 1));
        }
        k = k - 1;
    }
    proof {
        if k == 0 {
            assert(s@.take(0) =~= Seq::<char>::empty());
        } else {
            assert(s@.take(k as int).last() == s@[k as int - 1]);
        }
    }
    let t = s.substring_char(0, k);
    let r = String::from_str(t);
    proof {
        assert(s@.subrange(0, k as int) =~= s@.take(k as int));
    }
    r
}

/// One run of the quote-generation protocol for a fixed subscription key.
pub struct QuoteGenerator {
    pub api_key: String,
    pub step: GenStep,
}

impl QuoteGenerator {
    /// Every reachable protocol value satisfies its step's bounds.
    pub open spec fn wf(&self) -> bool {
        step_wf(self.step)
    }

    /// A fresh run, ready to begin; trailing whitespace that storage may
    /// leave on the subscription key is removed.
    pub fn new(api_key: String) -> (r: QuoteGenerator)
        ensures
            r.step == GenStep::Start,
            r.api_key@ == trim_end_spec(api_key@),
            r.wf(),
    {
        let trimmed = trim_end_key(api_key.as_str());
        QuoteGenerator { api_key: trimmed, step: GenStep::Start }
    }

    /// Advances the protocol by one event, yielding the successor state and
    /// the action the caller must perform next. Every failure aborts the run
    /// with the error the taxonomy assigns; only a failed revocation-list
    /// fetch degrades (to the empty list) instead of aborting.
    pub fn advance(self, event: GenEvent) -> (r: (QuoteGenerator, GenAction))
        requires
            self.wf(),
            expects(self.step, event),
            event_wf(event),
        ensures
            r.0.wf(),
            r.0.api_key == self.api_key,
            match (self.step, event) {
                (GenStep::Start, GenEvent::Begin) => r.0.step == GenStep::AwaitInit && r.1
                    == GenAction::CallInitQuote,
                (GenStep::AwaitInit, GenEvent::InitQuote { status, ti, gid }) => if status != 0 {
                    failed_with(r, AttestationError::Platform { status })
                } else {
                    &&& r.0.step == (GenStep::AwaitSigrl { ti })
                    &&& (r.1 matches GenAction::FetchSigrl { request } && request@
                        == sigrl_request_chars(u32_le_spec(gid@) as u32, self.api_key@))
                },
                (GenStep::AwaitSigrl { ti }, GenEvent::SigrlResponse { response }) => {
                    &&& r.1 == GenAction::CallCreateReport
                    &&& (r.0.step matches GenStep::AwaitReport { ti: t2, sigrl } && t2 == ti
                        && sigrl@ == (match response {
                        Some(resp) => match sigrl_of(resp@) {
                            Ok(l) => l,
                            Err(_) => Seq::<u8>::empty(),
                        },
                        None => Seq::<u8>::empty(),
                    }))
                },
                (GenStep::AwaitReport { ti, sigrl }, GenEvent::ReportCreated { status }) => if status
                    != 0 {
                    failed_with(r, AttestationError::Platform { status })
                } else {
                    r.0.step matches GenStep::AwaitQuote { ti: t2, nonce } && t2 == ti && nonce@.len()
                        == 16 && (r.1 matches GenAction::CallGetQuote { sigrl: s2, nonce: n2 }
                        && s2@ == sigrl@ && n2@ == nonce@)
                },
                (
                    GenStep::AwaitQuote { ti, nonce },
                    GenEvent::QuoteReturned { status, quote, qe },
                ) => if status != 0 {
                    failed_with(r, AttestationError::Platform { status })
                } else {
                    r.0.step == (GenStep::AwaitSelfCheck { ti, nonce, quote, qe }) && r.1
                        == GenAction::CallVerifySelfCheck
                },
                (
                    GenStep::AwaitSelfCheck { ti, nonce, quote, qe },
                    GenEvent::SelfCheckOutcome { status },
                ) => if status != 0 {
                    failed_with(
                        r,
                        AttestationError::Integrity { error: IntegrityError::SelfCheckFailed },
                    )
                } else if !identity_matches(ti, qe) {
                    failed_with(
                        r,
                        AttestationError::Integrity { error: IntegrityError::PlatformMismatch },
                    )
                } else if !replay_binding_ok(nonce@, quote@, qe.report_data@) {
                    failed_with(
                        r,
                        AttestationError::Integrity { error: IntegrityError::QuoteTampered },
                    )
                } else {
                    &&& r.0.step == GenStep::AwaitEndorsement
                    &&& (r.1 matches GenAction::SubmitReport { request } && request@
                        == report_request_chars(quote@, self.api_key@))
                },
                (GenStep::AwaitEndorsement, GenEvent::EndorsementResponse { response }) => match response {
                    None => failed_with(r, AttestationError::Network),
                    Some(resp) => match attn_of(resp@) {
                        Err(e) => failed_with(r, AttestationError::Protocol { error: e }),
                        Ok(t) => {
                            &&& r.0.step == GenStep::Done
                            &&& (r.1 matches GenAction::Finish { report } && encode_utf8(
                                report.avr@,
                            ) == t.0 && report.signature@ == t.1 && report.signing_cert@ == t.2)
                        },
                    },
                },
                _ => true,
            },
    {
        let QuoteGenerator { api_key, step } = self;
        match (step, event) {
            (GenStep::Start, GenEvent::Begin) => (
                QuoteGenerator { api_key, step: GenStep::AwaitInit },
                GenAction::CallInitQuote,
            ),
            (GenStep::AwaitInit, GenEvent::InitQuote { status, ti, gid }) => {
                if status != 0 {
                    fail(api_key, AttestationError::Platform { status })
                } else {
                    let gid_num = as_u32_le(&gid);
                    let request = build_sigrl_request(gid_num, api_key.as_str());
                    (
                        QuoteGenerator { api_key, step: GenStep::AwaitSigrl { ti } },
                        GenAction::FetchSigrl { request },
                    )
                }
            },
            (GenStep::AwaitSigrl { ti }, GenEvent::SigrlResponse { response }) => {
                let sigrl = match response {
                    Some(resp) => match parse_response_sigrl(resp.as_slice()) {
                        Ok(l) => l,
                        Err(_) => Vec::new(),
                    },
                    None => Vec::new(),
                };
                (
                    QuoteGenerator { api_key, step: GenStep::AwaitReport { ti, sigrl } },
                    GenAction::CallCreateReport,
                )
            },
            (GenStep::AwaitReport { ti, sigrl }, GenEvent::ReportCreated { status }) => {
                if status != 0 {
                    fail(api_key, AttestationError::Platform { status })
                } else {
                    let nonce = random_nonce16();
                    let nonce_out = slice_to_vec(nonce.as_slice());
                    (
                        QuoteGenerator { api_key, step: GenStep::AwaitQuote { ti, nonce } },
                        GenAction::CallGetQuote { sigrl, nonce: nonce_out },
                    )
                }
            },
            (GenStep::AwaitQuote { ti, nonce }, GenEvent::QuoteReturned { status, quote, qe }) => {
                if status != 0 {
                    fail(api_key, AttestationError::Platform { status })
                } else {
                    (
                        QuoteGenerator {
                            api_key,
                            step: GenStep::AwaitSelfCheck { ti, nonce, quote, qe },
                        },
                        GenAction::CallVerifySelfCheck,
                    )
                }
            },
            (
                GenStep::AwaitSelfCheck { ti, nonce, quote, qe },
                GenEvent::SelfCheckOutcome { status },
            ) => {
                if status != 0 {
                    fail(
                        api_key,
                        AttestationError::Integrity { error: IntegrityError::SelfCheckFailed },
                    )
                } else if !check_platform_identity(&ti, &qe) {
                    fail(
                        api_key,
                        AttestationError::Integrity { error: IntegrityError::PlatformMismatch },
                    )
                } else {
                    match check_anti_replay(
                        nonce.as_slice(),
                        quote.as_slice(),
                        qe.report_data.as_slice(),
                    ) {
                        Err(e) => fail(api_key, e),
                        Ok(()) => {
                            let request = build_report_request(quote.as_slice(), api_key.as_str());
                            (
                                QuoteGenerator { api_key, step: GenStep::AwaitEndorsement },
                                GenAction::SubmitReport { request },
                            )
                        },
                    }
                }
            },
            (GenStep::AwaitEndorsement, GenEvent::EndorsementResponse { response }) => {
                match response {
                    None => fail(api_key, AttestationError::Network),
                    Some(resp) => match parse_response_attn_report(resp.as_slice()) {
                        Err(e) => fail(api_key, AttestationError::Protocol { error: e }),
                        Ok(t) => {
                            let (avr, signature, signing_cert) = t;
                            let report = EndorsedAttestationVerificationReport {
                                avr,
                                signature,
                                signing_cert,
                            };
                            (
                                QuoteGenerator { api_key, step: GenStep::Done },
                                GenAction::Finish { report },
                            )
                        },
                    },
                }
            },
            // Unreachable: the precondition ties each step to its event.
            (_, _) => fail(api_key, AttestationError::Network),
        }
    }
}

/// Both the step and the action record the same abort.
pub open spec fn failed_with(r: (QuoteGenerator, GenAction), e: AttestationError) -> bool {
    r.0.step == (GenStep::Failed { error: e }) && r.1 == (GenAction::Abort { error: e })
}

fn fail(api_key: String, error: AttestationError) -> (r: (QuoteGenerator, GenAction))
    ensures
        r.0.step == (GenStep::Failed { error }),
        r.1 == (GenAction::Abort { error }),
        r.0.api_key == api_key,
        r.0.wf(),
{
    (QuoteGenerator { api_key, step: GenStep::Failed { error } }, GenAction::Abort { error })
}

} // verus!
