//! The attestation service's two exchanges: exact request templates, and
//! verified parsing of the HTTP-shaped responses into a revocation list and
//! into an endorsed report's parts.

use vstd::prelude::*;
use crate::bytes::all_digits;
use crate::bytes::dec_val;
use crate::bytes::parse_u32_dec;
use crate::bytes::first_occurrence;
use crate::bytes::find_pattern;
use crate::bytes::lemma_first_occurrence_some;
use crate::bytes::percent_decode;
use crate::bytes::percent_decode_spec;
use crate::bytes::strip_pat_spec;
use crate::bytes::strip_pattern;
use crate::codec::b64_decode;
use crate::codec::b64_encode;
use crate::codec::base64_dec;
use crate::codec::base64_enc;
use crate::codec::utf8_to_string;
use crate::errors::ProtocolError;
use crate::http::body_spec;
use crate::http::find_header;
use crate::http::find_header_spec;
use crate::http::headers_view;
use crate::http::http_head_of;
use crate::http::parse_response_head;
use crate::http::response_body;
use crate::http::HttpHead;
use crate::numfmt::dec_chars_of;
use crate::numfmt::hex8_chars;
use crate::numfmt::u32_to_hex8;
use crate::numfmt::usize_to_dec;
use vstd::slice::slice_subrange;
use vstd::slice::slice_to_vec;
use vstd::string::StringExecFns;
use vstd::string::StringSliceAdditionalSpecFns;
use vstd::utf8::encode_utf8;
use vstd::utf8::valid_utf8;

verus! {

/// The fixed attestation-service host name.
pub open spec fn ias_host_chars() -> Seq<char> {
    "api.trustedservices.intel.com"@
}

/// The fixed attestation-service host name.
pub fn ias_host() -> (r: &'static str)
    ensures
        r@ == ias_host_chars(),
{
    "api.trustedservices.intel.com"
}

/// Path prefix of the revocation-list fetch; the group id is appended.
pub open spec fn sigrl_path_chars() -> Seq<char> {
    "/sgx/dev/attestation/v4/sigrl/"@
}

/// Path of the report endorsement submission.
pub open spec fn report_path_chars() -> Seq<char> {
    "/sgx/dev/attestation/v4/report"@
}

/// The revocation-list fetch request for a group id and subscription key:
/// the group id appears as exactly eight lowercase hexadecimal digits.
pub open spec fn sigrl_request_chars(gid: u32, key: Seq<char>) -> Seq<char> {
    "GET "@ + sigrl_path_chars() + hex8_chars(gid) + " HTTP/1.1\r\nHOST: "@ + ias_host_chars()
        + "\r\nOcp-Apim-Subscription-Key: "@ + key + "\r\nConnection: Close\r\n\r\n"@
}

/// Builds the revocation-list fetch request.
pub fn build_sigrl_request(gid: u32, key: &str) -> (r: String)
    ensures
        r@ == sigrl_request_chars(gid, key@),
{
    let mut r: String = String::from_str("GET ");
    r.append("/sgx/dev/attestation/v4/sigrl/");
    let hex = u32_to_hex8(gid);
    r.append(hex.as_str());
    r.append(" HTTP/1.1\r\nHOST: ");
    r.append("api.trustedservices.intel.com");
    r.append("\r\nOcp-Apim-Subscription-Key: ");
    r.append(key);
    r.append("\r\nConnection: Close\r\n\r\n");
    proof {
        assert(r@ =~= sigrl_request_chars(gid, key@));
    }
    r
}

/// The endorsement request body: a JSON object holding the base64 quote.
pub open spec fn quote_json_chars(quote: Seq<u8>) -> Seq<char> {
    "{\"isvEnclaveQuote\":\""@ + base64_enc(quote) + "\"}\r\n"@
}

/// The report submission request for a quote and subscription key; the
/// declared content length is the byte length of the JSON body.
pub open spec fn report_request_chars(quote: Seq<u8>, key: Seq<char>) -> Seq<char> {
    "POST "@ + report_path_chars() + " HTTP/1.1\r\nHOST: "@ + ias_host_chars()
        + "\r\nOcp-Apim-Subscription-Key:"@ + key + "\r\nContent-Length:"@ + dec_chars_of(
        encode_utf8(quote_json_chars(quote)).len() as int,
    ) + "\r\nContent-Type: application/json\r\nConnection: close\r\n\r\n"@ + quote_json_chars(
        quote,
    )
}

/// Builds the report submission request around the base64-encoded quote.
pub fn build_report_request(quote: &[u8], key: &str) -> (r: String)
    requires
        ((quote@.len() + 2) / 3) * 4 <= usize::MAX,
    ensures
        r@ == report_request_chars(quote@, key@),
{
    let b64 = b64_encode(quote);
    let mut body: String = String::from_str("{\"isvEnclaveQuote\":\"");
    body.append(b64.as_str());
    body.append("\"}\r\n");
    proof {
        assert(body@ =~= quote_json_chars(quote@));
    }
    let blen = body.as_str().as_bytes().len();
    proof {
        assert(blen as int == encode_utf8(quote_json_chars(quote@)).len());
    }
    let mut r: String = String::from_str("POST ");
    r.append("/sgx/dev/attestation/v4/report");
    r.append(" HTTP/1.1\r\nHOST: ");
    r.append("api.trustedservices.intel.com");
    r.append("\r\nOcp-Apim-Subscription-Key:");
    r.append(key);
    r.append("\r\nContent-Length:");
    let dec = usize_to_dec(blen);
    r.append(dec.as_str());
    r.append("\r\nContent-Type: application/json\r\nConnection: close\r\n\r\n");
    r.append(body.as_str());
    proof {
        assert(dec@ == dec_chars_of(encode_utf8(quote_json_chars(quote@)).len() as int));
        assert(r@ =~= report_request_chars(quote@, key@));
    }
    r
}

/// Name of the content-length header, matched ignoring ASCII case.
pub open spec fn content_length_name() -> Seq<u8> {
    "content-length".spec_bytes()
}

/// Name of the report-signature header, matched ignoring ASCII case.
pub open spec fn signature_header_name() -> Seq<u8> {
    "x-iasreport-signature".spec_bytes()
}

/// Name of the signing-certificate header, matched ignoring ASCII case.
pub open spec fn cert_header_name() -> Seq<u8> {
    "x-iasreport-signing-certificate".spec_bytes()
}

/// The declared content length of a response; an absent header counts as
/// zero, an unparsable value is a protocol error.
pub open spec fn content_length_of(hdrs: Seq<(Seq<u8>, Seq<u8>)>) -> Result<int, ProtocolError> {
    match find_header_spec(hdrs, content_length_name()) {
        None => Ok(0),
        Some(v) => if v.len() > 0 && all_digits(v) && dec_val(v) <= u32::MAX {
            Ok(dec_val(v))
        } else {
            Err(ProtocolError::InvalidContentLength)
        },
    }
}

/// Reads the declared content length out of a parsed head.
pub fn content_length(head: &HttpHead) -> (r: Result<u32, ProtocolError>)
    ensures
        match r {
            Ok(n) => content_length_of(headers_view(head.headers@)) == Ok::<int, ProtocolError>(
                n as int,
            ),
            Err(e) => content_length_of(headers_view(head.headers@)) == Err::<int, ProtocolError>(
                e,
            ),
        },
{
    match find_header(head, "content-length".as_bytes()) {
        None => Ok(0),
        Some(v) => match parse_u32_dec(v.as_slice()) {
            Some(n) => Ok(n),
            None => Err(ProtocolError::InvalidContentLength),
        },
    }
}

/// The parsed revocation list of a fetch response: an absent or zero-length
/// body is the empty list, and a declared body is exactly that many bytes of
/// base64 for the raw list.
pub open spec fn sigrl_of(resp: Seq<u8>) -> Result<Seq<u8>, ProtocolError> {
    match http_head_of(resp) {
        None => Err(ProtocolError::MalformedResponse),
        Some(head) => match content_length_of(head.2) {
            Err(e) => Err(e),
            Ok(cl) => if cl == 0 {
                Ok(Seq::empty())
            } else if head.1 + cl > resp.len() {
                Err(ProtocolError::TruncatedBody)
            } else {
                match base64_dec(body_spec(resp, head.1, cl)) {
                    Some(b) => Ok(b),
                    None => Err(ProtocolError::InvalidBase64),
                }
            },
        },
    }
}

/// Parses a revocation-list fetch response.
pub fn parse_response_sigrl(resp: &[u8]) -> (r: Result<Vec<u8>, ProtocolError>)
    ensures
        match r {
            Ok(v) => sigrl_of(resp@) == Ok::<Seq<u8>, ProtocolError>(v@),
            Err(e) => sigrl_of(resp@) == Err::<Seq<u8>, ProtocolError>(e),
        },
{
    let head = match parse_response_head(resp) {
        Some(h) => h,
        None => {
            return Err(ProtocolError::MalformedResponse);
        },
    };
    let cl = match content_length(&head) {
        Ok(n) => n,
        Err(e) => {
            return Err(e);
        },
    };
    if cl == 0 {
        return Ok(Vec::new());
    }
    let body = match response_body(resp, head.header_len, cl) {
        Some(b) => b,
        None => {
            return Err(ProtocolError::TruncatedBody);
        },
    };
    match b64_decode(body.as_slice()) {
        Some(v) => Ok(v),
        None => Err(ProtocolError::InvalidBase64),
    }
}

/// The five-dash PEM delimiter.
pub open spec fn dashes() -> Seq<u8> {
    seq![0x2du8, 0x2du8, 0x2du8, 0x2du8, 0x2du8]
}

/// The percent-encoded newline that is removed before decoding.
pub open spec fn pct_0a() -> Seq<u8> {
    seq![0x25u8, 0x30u8, 0x41u8]
}

/// The base64 content of the signing-certificate header value: encoded
/// newlines removed, percent-escapes decoded, then the text between the
/// second and third five-dash delimiters (or the end) — the first embedded
/// PEM block's content.
pub open spec fn cert_segment_of(v: Seq<u8>) -> Result<Seq<u8>, ProtocolError> {
    match percent_decode_spec(strip_pat_spec(v, pct_0a())) {
        None => Err(ProtocolError::InvalidCertificateHeader),
        Some(c) => match first_occurrence(c, dashes(), 0) {
            None => Err(ProtocolError::InvalidCertificateHeader),
            Some(i1) => match first_occurrence(c, dashes(), i1 + 5) {
                None => Err(ProtocolError::InvalidCertificateHeader),
                Some(i2) => {
                    let end = match first_occurrence(c, dashes(), i2 + 5) {
                        Some(i3) => i3,
                        None => c.len() as int,
                    };
                    Ok(c.subrange(i2 + 5, end))
                },
            },
        },
    }
}

/// Extracts the base64 certificate content from the header value.
pub fn cert_segment(v: &[u8]) -> (r: Result<Vec<u8>, ProtocolError>)
    ensures
        match r {
            Ok(s) => cert_segment_of(v@) == Ok::<Seq<u8>, ProtocolError>(s@),
            Err(e) => cert_segment_of(v@) == Err::<Seq<u8>, ProtocolError>(e),
        },
{
    let pat_nl: Vec<u8> = vec![0x25u8, 0x30u8, 0x41u8];
    proof {
        assert(pat_nl@ =~= pct_0a());
    }
    let stripped = strip_pattern(v, pat_nl.as_slice());
    let decoded = match percent_decode(stripped.as_slice()) {
        Some(d) => d,
        None => {
            return Err(ProtocolError::InvalidCertificateHeader);
        },
    };
    let pat: Vec<u8> = vec![0x2du8, 0x2du8, 0x2du8, 0x2du8, 0x2du8];
    proof {
        assert(pat@ =~= dashes());
    }
    let dlen = decoded.len();
    let i1 = match find_pattern(decoded.as_slice(), pat.as_slice(), 0) {
        Some(i) => i,
        None => {
            return Err(ProtocolError::InvalidCertificateHeader);
        },
    };
    proof {
        lemma_first_occurrence_some(decoded@, dashes(), 0, i1 as int);
        assert(i1 + 5 <= dlen);
    }
    let i2 = match find_pattern(decoded.as_slice(), pat.as_slice(), i1 + 5) {
        Some(i) => i,
        None => {
            return Err(ProtocolError::InvalidCertificateHeader);
        },
    };
    proof {
        lemma_first_occurrence_some(decoded@, dashes(), i1 as int + 5, i2 as int);
        assert(i2 + 5 <= dlen);
    }
    let end = match find_pattern(decoded.as_slice(), pat.as_slice(), i2 + 5) {
        Some(i) => {
            proof {
                lemma_first_occurrence_some(decoded@, dashes(), i2 as int + 5, i as int);
            }
            i
        },
        None => decoded.len(),
    };
    let seg = slice_subrange(decoded.as_slice(), i2 + 5, end);
    Ok(slice_to_vec(seg))
}

/// The parsed endorsement response: report body bytes, decoded signature,
/// and decoded signing-certificate DER.
pub open spec fn attn_of(resp: Seq<u8>) -> Result<(Seq<u8>, Seq<u8>, Seq<u8>), ProtocolError> {
    match http_head_of(resp) {
        None => Err(ProtocolError::MalformedResponse),
        Some(head) => match content_length_of(head.2) {
            Err(e) => Err(e),
            Ok(cl) => if cl != 0 && head.1 + cl > resp.len() {
                Err(ProtocolError::TruncatedBody)
            } else {
                let sig_val = match find_header_spec(head.2, signature_header_name()) {
                    Some(v) => v,
                    None => Seq::empty(),
                };
                let cert_val = match find_header_spec(head.2, cert_header_name()) {
                    Some(v) => v,
                    None => Seq::empty(),
                };
                match cert_segment_of(cert_val) {
                    Err(e) => Err(e),
                    Ok(seg) => match base64_dec(sig_val) {
                        None => Err(ProtocolError::InvalidBase64),
                        Some(sig) => match base64_dec(seg) {
                            None => Err(ProtocolError::InvalidBase64),
                            Some(cert) => {
                                let body = body_spec(resp, head.1, cl);
                                if valid_utf8(body) {
                                    Ok((body, sig, cert))
                                } else {
                                    Err(ProtocolError::InvalidUtf8)
                                }
                            },
                        },
                    },
                }
            },
        },
    }
}

/// Parses a report endorsement response into the report body text, the
/// decoded signature bytes, and the decoded signing-certificate DER.
pub fn parse_response_attn_report(resp: &[u8]) -> (r: Result<
    (String, Vec<u8>, Vec<u8>),
    ProtocolError,
>)
    ensures
        match r {
            Ok(t) => attn_of(resp@) == Ok::<(Seq<u8>, Seq<u8>, Seq<u8>), ProtocolError>(
                (encode_utf8(t.0@), t.1@, t.2@),
            ),
            Err(e) => attn_of(resp@) == Err::<(Seq<u8>, Seq<u8>, Seq<u8>), ProtocolError>(e),
        },
{
    let head = match parse_response_head(resp) {
        Some(h) => h,
        None => {
            return Err(ProtocolError::MalformedResponse);
        },
    };
    let cl = match content_length(&head) {
        Ok(n) => n,
        Err(e) => {
            return Err(e);
        },
    };
    let body = match response_body(resp, head.header_len, cl) {
        Some(b) => b,
        None => {
            return Err(ProtocolError::TruncatedBody);
        },
    };
    let sig_val = match find_header(&head, "x-iasreport-signature".as_bytes()) {
        Some(v) => v,
        None => Vec::new(),
    };
    let cert_val = match find_header(&head, "x-iasreport-signing-certificate".as_bytes()) {
        Some(v) => v,
        None => Vec::new(),
    };
    let seg = match cert_segment(cert_val.as_slice()) {
        Ok(s) => s,
        Err(e) => {
            return Err(e);
        },
    };
    let sig = match b64_decode(sig_val.as_slice()) {
        Some(s) => s,
        None => {
            return Err(ProtocolError::InvalidBase64);
        },
    };
    let cert = match b64_decode(seg.as_slice()) {
        Some(c) => c,
        None => {
            return Err(ProtocolError::InvalidBase64);
        },
    };
    match utf8_to_string(body) {
        Some(avr) => Ok((avr, sig, cert)),
        None => Err(ProtocolError::InvalidUtf8),
    }
}

} // verus!
