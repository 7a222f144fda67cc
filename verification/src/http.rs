//! HTTP-shaped response handling: the head is parsed by an outside parser
//! behind a trusted wrapper; header lookup, status classification and body
//! slicing are verified here.

use vstd::prelude::*;
use crate::bytes::lower_seq;
use crate::bytes::eq_ignore_ascii_case;
use vstd::slice::slice_to_vec;
use vstd::slice::slice_subrange;

verus! {

/// One parsed response header: its name and raw value bytes.
pub struct HttpHeader {
    pub name: Vec<u8>,
    pub value: Vec<u8>,
}

impl View for HttpHeader {
    type V = (Seq<u8>, Seq<u8>);

    open spec fn view(&self) -> (Seq<u8>, Seq<u8>) {
        (self.name@, self.value@)
    }
}

/// The parsed head of a response: status code, headers, and the byte offset
/// at which the body starts.
pub struct HttpHead {
    pub code: u16,
    pub headers: Vec<HttpHeader>,
    pub header_len: usize,
}

/// The (name, value) pairs of a header list.
pub open spec fn headers_view(hs: Seq<HttpHeader>) -> Seq<(Seq<u8>, Seq<u8>)> {
    hs.map(|i: int, h: HttpHeader| h@)
}

/// What httparse's response parser yields on a byte buffer: the status code,
/// the byte offset where the body begins, and the header pairs; `None` when
/// the head is incomplete or malformed.
pub uninterp spec fn http_head_of(resp: Seq<u8>) -> Option<(u16, int, Seq<(Seq<u8>, Seq<u8>)>)>;

/// Relies on httparse::Response::parse with a sixteen-header table: a
/// complete parse yields the status code and the headers, and the reported
/// head length never exceeds the buffer length.
#[verifier::external_body]
pub fn parse_response_head(resp: &[u8]) -> (r: Option<HttpHead>)
    ensures
        match r {
            Some(h) => http_head_of(resp@) == Some(
                (h.code, h.header_len as int, headers_view(h.headers@)),
            ) && h.header_len <= resp@.len(),
            None => http_head_of(resp@) is None,
        },
{
    let mut headers = [httparse::EMPTY_HEADER; 16];
    let mut parsed = httparse::Response::new(&mut headers);
    match parsed.parse(resp) {
        Ok(httparse::Status::Complete(header_len)) => {
            let code = parsed.code?;
            let hs = parsed
                .headers
                .iter()
                .map(|h| HttpHeader { name: h.name.as_bytes().to_vec(), value: h.value.to_vec() })
                .collect();
            Some(HttpHead { code, headers: hs, header_len })
        },
        _ => None,
    }
}

/// The attestation service's status taxonomy.
#[derive(Debug, Clone, Copy, PartialEq, Eq, Structural)]
pub enum IasStatus {
    Success,
    Unauthorized,
    UnknownGroup,
    InternalError,
    Overloaded,
    Unknown,
}

/// Classification of a status code; total over all codes.
pub open spec fn status_of_code(code: u16) -> IasStatus {
    if code == 200 {
        IasStatus::Success
    } else if code == 401 {
        IasStatus::Unauthorized
    } else if code == 404 {
        IasStatus::UnknownGroup
    } else if code == 500 {
        IasStatus::InternalError
    } else if code == 503 {
        IasStatus::Overloaded
    } else {
        IasStatus::Unknown
    }
}

/// Maps a response status code onto the service's status taxonomy; defined,
/// without panicking, for every possible code.
pub fn map_status(code: u16) -> (r: IasStatus)
    ensures
        r == status_of_code(code),
{
    match code {
        200 => IasStatus::Success,
        401 => IasStatus::Unauthorized,
        404 => IasStatus::UnknownGroup,
        500 => IasStatus::InternalError,
        503 => IasStatus::Overloaded,
        _ => IasStatus::Unknown,
    }
}

/// The value of the first header whose name equals `name` up to ASCII case.
pub open spec fn find_header_spec(hs: Seq<(Seq<u8>, Seq<u8>)>, name: Seq<u8>) -> Option<Seq<u8>>
    decreases hs.len(),
{
    if hs.len() == 0 {
        None
    } else if lower_seq(hs[0].0) == lower_seq(name) {
        Some(hs[0].1)
    } else {
        find_header_spec(hs.skip(1), name)
    }
}

/// Looks a header up by name, ignoring ASCII case, and returns a copy of the
/// first matching value.
#[verifier::loop_isolation(false)]
pub fn find_header(head: &HttpHead, name: &[u8]) -> (r: Option<Vec<u8>>)
    ensures
        match r {
            Some(v) => find_header_spec(headers_view(head.headers@), name@) == Some(v@),
            None => find_header_spec(headers_view(head.headers@), name@) is None,
        },
{
    let ghost hv = headers_view(head.headers@);
    let mut i: usize = 0;
    proof {
        assert(hv.skip(0) =~= hv);
    }
    while i < head.headers.len()
        invariant
            i <= head.headers@.len(),
            find_header_spec(hv, name@) == find_header_spec(hv.skip(i as int), name@),
        decreases head.headers@.len() - i,
    {
        let h = &head.headers[i];
        proof {
            assert(hv[i as int] == head.headers@[i as int]@);
        }
        if eq_ignore_ascii_case(h.name.as_slice(), name) {
            let v = slice_to_vec(h.value.as_slice());
            return Some(v);
        }
        proof {
            assert(hv.skip(i as int).skip(1) =~= hv.skip(i as int + 1));
        }
        i = i + 1;
    }
    proof {
        assert(hv.skip(i as int) =~= Seq::<(Seq<u8>, Seq<u8>)>::empty());
    }
    None
}

/// The declared body of a response: a declared content length of zero means
/// an empty body; otherwise exactly that many bytes after the head.
pub open spec fn body_spec(resp: Seq<u8>, header_len: int, content_len: int) -> Seq<u8>
    recommends
        content_len == 0 || header_len + content_len <= resp.len(),
{
    if content_len == 0 {
        Seq::empty()
    } else {
        resp.subrange(header_len, header_len + content_len)
    }
}

/// Slices the response body exactly by the declared content length; `None`
/// when the response holds fewer body bytes than declared.
pub fn response_body(resp: &[u8], header_len: usize, content_len: u32) -> (r: Option<Vec<u8>>)
    requires
        header_len <= resp@.len(),
    ensures
        match r {
            Some(v) => (content_len == 0 || header_len + content_len <= resp@.len()) && v@
                == body_spec(resp@, header_len as int, content_len as int),
            None => content_len > 0 && header_len + content_len > resp@.len(),
        },
{
    if content_len == 0 {
        Some(Vec::new())
    } else if resp.len() - header_len < content_len as usize {
        None
    } else {
        let body = slice_subrange(resp, header_len, header_len + content_len as usize);
        Some(slice_to_vec(body))
    }
}

} // verus!
