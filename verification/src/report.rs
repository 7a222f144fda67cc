//! The endorsed attestation report and its parsed forms: the verification
//! report body, the fixed-layout platform quote, and the enclave-key address
//! bound into the quote's report data.

use vstd::prelude::*;
use crate::codec::b64_decode;
use crate::codec::base64_dec;
use crate::errors::VerificationError;
use vstd::slice::slice_subrange;
use vstd::slice::slice_to_vec;
use vstd::utf8::encode_utf8;

verus! {

/// A point in time as seconds since the Unix epoch plus nanoseconds within
/// the second (which may reach into a leap second).
#[derive(Debug, Clone, Copy, PartialEq, Eq, Structural)]
pub struct UnixTime {
    pub secs: i64,
    pub nanos: u32,
}

impl UnixTime {
    /// The nanosecond part stays below two seconds' worth.
    pub open spec fn wf(&self) -> bool {
        self.nanos < 2_000_000_000
    }
}

/// Earliest timestamp the normalized time representation supports.
pub const MIN_TIMESTAMP_SECS: i64 = -62135596800;

/// Latest timestamp the normalized time representation supports.
pub const MAX_TIMESTAMP_SECS: i64 = 253402300799;

/// A 20-byte address derived from the attested key.
#[derive(Debug, Clone, PartialEq, Eq)]
pub struct Address {
    pub bytes: Vec<u8>,
}

impl Address {
    /// An address holds exactly twenty bytes.
    pub open spec fn wf(&self) -> bool {
        self.bytes@.len() == 20
    }
}

/// The final attestation artifact: the report body endorsed by the
/// attestation service, its signature, and the signing certificate.
#[derive(Debug, Clone, PartialEq)]
pub struct EndorsedAttestationVerificationReport {
    /// Attestation report body as UTF-8 JSON text.
    pub avr: String,
    /// Signature over the raw bytes of `avr`.
    pub signature: Vec<u8>,
    /// DER certificate matching the signing key of the signature.
    pub signing_cert: Vec<u8>,
}

/// The attestation service's verification report, parsed from the endorsed
/// JSON body.
#[derive(Debug, Clone, PartialEq)]
pub struct AttestationVerificationReport {
    pub id: String,
    pub timestamp: String,
    pub version: i64,
    pub isv_enclave_quote_status: String,
    pub isv_enclave_quote_body: String,
    pub revocation_reason: Option<i64>,
    pub pse_manifest_status: Option<i64>,
    pub pse_manifest_hash: Option<String>,
    pub platform_info_blob: Option<String>,
    pub nonce: Option<String>,
    pub epid_pseudonym: Option<Vec<u8>>,
    pub advisory_url: String,
    pub advisory_ids: Vec<String>,
}

impl Default for AttestationVerificationReport {
    /// An empty report: every text field empty, version zero, options unset.
    fn default() -> (r: Self)
        ensures
            r.id@ == Seq::<char>::empty(),
            r.timestamp@ == Seq::<char>::empty(),
            r.version == 0,
            r.isv_enclave_quote_status@ == Seq::<char>::empty(),
            r.isv_enclave_quote_body@ == Seq::<char>::empty(),
            r.revocation_reason is None,
            r.pse_manifest_status is None,
            r.pse_manifest_hash is None,
            r.platform_info_blob is None,
            r.nonce is None,
            r.epid_pseudonym is None,
            r.advisory_url@ == Seq::<char>::empty(),
            r.advisory_ids@ == Seq::<String>::empty(),
    {
        AttestationVerificationReport {
            id: String::new(),
            timestamp: String::new(),
            version: 0,
            isv_enclave_quote_status: String::new(),
            isv_enclave_quote_body: String::new(),
            revocation_reason: None,
            pse_manifest_status: None,
            pse_manifest_hash: None,
            platform_info_blob: None,
            nonce: None,
            epid_pseudonym: None,
            advisory_url: String::new(),
            advisory_ids: Vec::new(),
        }
    }
}

/// The identity and measurement fields of a platform report body, modeled as
/// plain values read from the quote's fixed layout.
#[derive(Debug, Clone, PartialEq)]
pub struct SgxReportBody {
    pub cpu_svn: Vec<u8>,
    pub misc_select: u32,
    pub attributes_flags: u64,
    pub attributes_xfrm: u64,
    pub mr_enclave: Vec<u8>,
    pub mr_signer: Vec<u8>,
    pub isv_prod_id: u16,
    pub isv_svn: u16,
    /// The caller-chosen commitment bound into the attestation.
    pub report_data: Vec<u8>,
}

/// The platform quote's fixed-layout fields, read from the decoded body.
#[derive(Debug, Clone, PartialEq)]
pub struct SgxQuote {
    pub version: u16,
    pub sign_type: u16,
    pub epid_group_id: Vec<u8>,
    pub qe_svn: u16,
    pub pce_svn: u16,
    pub xeid: u32,
    pub basename: Vec<u8>,
    pub report_body: SgxReportBody,
}

/// A verified quote: the decoded platform structure, the service's quote
/// status, and the normalized attestation time.
#[derive(Debug, Clone, PartialEq)]
pub struct Quote {
    pub raw: SgxQuote,
    pub status: String,
    pub attestation_time: UnixTime,
}

/// The unsigned little-endian value of two bytes at `i`.
pub open spec fn le16_at(b: Seq<u8>, i: int) -> int {
    b[i] + b[i + 1] * 0x100
}

/// The unsigned little-endian value of four bytes at `i`.
pub open spec fn le32_at(b: Seq<u8>, i: int) -> int {
    le16_at(b, i) + le16_at(b, i + 2) * 0x10000
}

/// The unsigned little-endian value of eight bytes at `i`.
pub open spec fn le64_at(b: Seq<u8>, i: int) -> int {
    le32_at(b, i) + le32_at(b, i + 4) * 0x100000000
}

/// Length of the quote body as the attestation service endorses it: the
/// fixed-layout structure without the variable-length signature.
pub const QUOTE_BODY_LEN: usize = 432;

/// `q` holds exactly the fields of the fixed quote layout in `b`.
pub open spec fn quote_matches(q: SgxQuote, b: Seq<u8>) -> bool {
    &&& q.version == le16_at(b, 0)
    &&& q.sign_type == le16_at(b, 2)
    &&& q.epid_group_id@ == b.subrange(4, 8)
    &&& q.qe_svn == le16_at(b, 8)
    &&& q.pce_svn == le16_at(b, 10)
    &&& q.xeid == le32_at(b, 12)
    &&& q.basename@ == b.subrange(16, 48)
    &&& q.report_body.cpu_svn@ == b.subrange(48, 64)
    &&& q.report_body.misc_select == le32_at(b, 64)
    &&& q.report_body.attributes_flags == le64_at(b, 96)
    &&& q.report_body.attributes_xfrm == le64_at(b, 104)
    &&& q.report_body.mr_enclave@ == b.subrange(112, 144)
    &&& q.report_body.mr_signer@ == b.subrange(176, 208)
    &&& q.report_body.isv_prod_id == le16_at(b, 304)
    &&& q.report_body.isv_svn == le16_at(b, 306)
    &&& q.report_body.report_data@ == b.subrange(368, 432)
}

fn read_le16(b: &[u8], i: usize) -> (r: u16)
    requires
        i + 2 <= b@.len(),
    ensures
        r == le16_at(b@, i as int),
{
    (b[i] as u16) + (b[i + 1] as u16) * 0x100
}

fn read_le32(b: &[u8], i: usize) -> (r: u32)
    requires
        i + 4 <= b@.len(),
    ensures
        r == le32_at(b@, i as int),
{
    let n = b.len();
    proof {
        assert(i + 2 <= n);
    }
    (read_le16(b, i) as u32) + (read_le16(b, i + 2) as u32) * 0x10000
}

fn read_le64(b: &[u8], i: usize) -> (r: u64)
    requires
        i + 8 <= b@.len(),
    ensures
        r == le64_at(b@, i as int),
{
    let n = b.len();
    proof {
        assert(i + 4 <= n);
    }
    (read_le32(b, i) as u64) + (read_le32(b, i + 4) as u64) * 0x100000000
}

/// Decodes the fixed quote layout out of the endorsed quote body bytes; the
/// body must hold the whole fixed-layout structure.
pub fn parse_sgx_quote(b: &[u8]) -> (r: Result<SgxQuote, VerificationError>)
    ensures
        match r {
            Ok(q) => b@.len() >= QUOTE_BODY_LEN && quote_matches(q, b@),
            Err(e) => b@.len() < QUOTE_BODY_LEN && e == VerificationError::InvalidQuoteBody,
        },
{
    if b.len() < QUOTE_BODY_LEN {
        return Err(VerificationError::InvalidQuoteBody);
    }
    let report_body = SgxReportBody {
        cpu_svn: slice_to_vec(slice_subrange(b, 48, 64)),
        misc_select: read_le32(b, 64),
        attributes_flags: read_le64(b, 96),
        attributes_xfrm: read_le64(b, 104),
        mr_enclave: slice_to_vec(slice_subrange(b, 112, 144)),
        mr_signer: slice_to_vec(slice_subrange(b, 176, 208)),
        isv_prod_id: read_le16(b, 304),
        isv_svn: read_le16(b, 306),
        report_data: slice_to_vec(slice_subrange(b, 368, 432)),
    };
    Ok(
        SgxQuote {
            version: read_le16(b, 0),
            sign_type: read_le16(b, 2),
            epid_group_id: slice_to_vec(slice_subrange(b, 4, 8)),
            qe_svn: read_le16(b, 8),
            pce_svn: read_le16(b, 10),
            xeid: read_le32(b, 12),
            basename: slice_to_vec(slice_subrange(b, 16, 48)),
            report_body,
        },
    )
}

/// What parsing an attestation timestamp (year-month-day, time of day and
/// optional fractional seconds, read as UTC) yields: seconds since the epoch
/// and nanoseconds within the second.
pub uninterp spec fn ts_parse_of(s: Seq<char>) -> Option<(i64, u32)>;

/// Relies on chrono::DateTime::parse_from_str with a fixed UTC offset
/// appended: the result is a function of the text alone, and the nanosecond
/// part stays below two billion (leap seconds included).
#[verifier::external_body]
fn parse_timestamp(s: &str) -> (r: Option<(i64, u32)>)
    ensures
        match r {
            Some(t) => ts_parse_of(s@) == Some(t) && t.1 < 2_000_000_000,
            None => ts_parse_of(s@) is None,
        },
{
    let fixed = format!("{}+0000", s);
    chrono::DateTime::parse_from_str(&fixed, "%Y-%m-%dT%H:%M:%S%.f%z")
        .ok()
        .map(|dt| (dt.timestamp(), dt.timestamp_subsec_nanos()))
}

/// The timestamp lies in the supported normalized range.
pub open spec fn timestamp_in_range(secs: i64) -> bool {
    MIN_TIMESTAMP_SECS <= secs <= MAX_TIMESTAMP_SECS
}

impl AttestationVerificationReport {
    /// What `parse_quote` yields, stepwise: only version 4 is usable; the
    /// timestamp must parse and lie in the supported range; the quote body
    /// must be base64 for at least the whole fixed layout.
    pub open spec fn parse_quote_ok(&self) -> bool {
        &&& self.version == 4
        &&& match ts_parse_of(self.timestamp@) {
            Some(t) => timestamp_in_range(t.0),
            None => false,
        }
        &&& match base64_dec(encode_utf8(self.isv_enclave_quote_body@)) {
            Some(qb) => qb.len() >= QUOTE_BODY_LEN,
            None => false,
        }
    }

    /// Parses the endorsed report into a `Quote`: rejects any version other
    /// than four, normalizes the timestamp, and decodes the quote body.
    pub fn parse_quote(&self) -> (r: Result<Quote, VerificationError>)
        ensures
            r is Ok <==> self.parse_quote_ok(),
            self.version != 4 ==> r == Err::<Quote, VerificationError>(
                VerificationError::UnexpectedVersion { expected: 4, actual: self.version },
            ),
            match r {
                Ok(q) => {
                    &&& match ts_parse_of(self.timestamp@) {
                        Some(t) => q.attestation_time == (UnixTime { secs: t.0, nanos: t.1 })
                            && q.attestation_time.wf(),
                        None => false,
                    }
                    &&& match base64_dec(encode_utf8(self.isv_enclave_quote_body@)) {
                        Some(qb) => quote_matches(q.raw, qb),
                        None => false,
                    }
                    &&& q.status@ == self.isv_enclave_quote_status@
                },
                Err(e) => self.version == 4 ==> (match ts_parse_of(self.timestamp@) {
                    None => e == VerificationError::InvalidTimestamp,
                    Some(t) => if !timestamp_in_range(t.0) {
                        e == VerificationError::InvalidTimestamp
                    } else {
                        e == VerificationError::InvalidQuoteBody
                    },
                }),
            },
    {
        if self.version != 4 {
            return Err(
                VerificationError::UnexpectedVersion { expected: 4, actual: self.version },
            );
        }
        let ts = match parse_timestamp(self.timestamp.as_str()) {
            Some(t) => t,
            None => {
                return Err(VerificationError::InvalidTimestamp);
            },
        };
        if ts.0 < MIN_TIMESTAMP_SECS || ts.0 > MAX_TIMESTAMP_SECS {
            return Err(VerificationError::InvalidTimestamp);
        }
        let qb = match b64_decode(self.isv_enclave_quote_body.as_str().as_bytes()) {
            Some(v) => v,
            None => {
                return Err(VerificationError::InvalidQuoteBody);
            },
        };
        let raw = match parse_sgx_quote(qb.as_slice()) {
            Ok(q) => q,
            Err(e) => {
                return Err(e);
            },
        };
        Ok(
            Quote {
                raw,
                status: self.isv_enclave_quote_status.clone(),
                attestation_time: UnixTime { secs: ts.0, nanos: ts.1 },
            },
        )
    }
}

impl Quote {
    /// Extracts the address bound to the attested key: the first twenty
    /// bytes of the quote's custom report-data field; fails when fewer are
    /// available rather than returning a truncated address.
    pub fn get_enclave_key_address(&self) -> (r: Result<Address, VerificationError>)
        ensures
            match r {
                Ok(a) => {
                    &&& self.raw.report_body.report_data@.len() >= 20
                    &&& a.bytes@ == self.raw.report_body.report_data@.subrange(0, 20)
                    &&& a.wf()
                },
                Err(e) => {
                    &&& self.raw.report_body.report_data@.len() < 20
                    &&& e == (VerificationError::InvalidReportData {
                        length: self.raw.report_body.report_data@.len() as usize,
                    })
                },
            },
    {
        let data = &self.raw.report_body.report_data;
        if data.len() < 20 {
            Err(VerificationError::InvalidReportData { length: data.len() })
        } else {
            Ok(Address { bytes: slice_to_vec(slice_subrange(data.as_slice(), 0, 20)) })
        }
    }
}

} // verus!
