//! The response builder and the pure part of static file resolution.
//!
//! Every outcome of handling a request maps deterministically to one fixed
//! status line, a single server-identifying header line, and a blank line,
//! optionally followed by the body bytes of a `200` response:
//!
//! * a well-formed `GET` whose file could be read — `200 OK`, body = the
//!   file's bytes;
//! * a well-formed `GET` whose file could not be opened or read, for any
//!   reason — `404 Not Found`, empty body;
//! * any other well-formed method — `501 Not Implemented`, empty body;
//! * a malformed request line — `400 Bad Request`, empty body.
//!
//! Opening and reading the file is operating-system I/O and happens outside
//! this crate; the split point is [`ResponsePlan`]: planning decides whether
//! a file is needed and [`finish_get_response`] turns the outcome of the
//! read into the final bytes.

use vstd::prelude::*;
use vstd::string::StrSliceExecFns;
use vstd::string::StringSliceAdditionalSpecFns;

use crate::error::UndefinedStatusCode;
use crate::parser::{parse_request, req_shape, spec_parse};

verus! {

/// The status codes the builder can render.
pub open spec fn is_known_status(code: u16) -> bool {
    code == 200 || code == 400 || code == 404 || code == 501
}

/// The fixed head of a response with status `code`: status line, server
/// header, blank line.  Empty for a status the builder does not know.
pub open spec fn response_head(code: u16) -> Seq<u8> {
    if code == 200 {
        "HTTP/1.0 200 OK\r\nServer: mio webserver\r\n\r\n".spec_bytes()
    } else if code == 400 {
        "HTTP/1.0 400 Bad Request\r\nServer: mio webserver\r\n\r\n".spec_bytes()
    } else if code == 404 {
        "HTTP/1.0 404 Not Found\r\nServer: mio webserver\r\n\r\n".spec_bytes()
    } else if code == 501 {
        "HTTP/1.0 501 Not Implemented\r\nServer: mio webserver\r\n\r\n".spec_bytes()
    } else {
        Seq::empty()
    }
}

/// The complete wire bytes of a response: the head for `code`, followed by
/// the body exactly when the status is `200` and a body was supplied.
pub open spec fn response_bytes(code: u16, body: Option<Seq<u8>>) -> Seq<u8> {
    match body {
        Option::Some(b) => if code == 200 {
            response_head(200) + b
        } else {
            response_head(code)
        },
        Option::None => response_head(code),
    }
}

/// Render the response for a status code: the fixed head, with `msg`
/// appended as the body when the status is `200`.  A code outside the
/// known set is refused.
pub fn create_msg_from_code(status_code: u16, msg: Option<Vec<u8>>) -> (r: Result<
    Vec<u8>,
    UndefinedStatusCode,
>)
    ensures
        match r {
            Ok(v) => is_known_status(status_code) && v@ == response_bytes(
                status_code,
                msg.deep_view(),
            ),
            Err(e) => !is_known_status(status_code) && e.code == status_code,
        },
{
    if status_code == 200 {
        let mut header: Vec<u8> = "HTTP/1.0 200 OK\r\nServer: mio webserver\r\n\r\n".as_bytes_vec();
        match msg {
            Some(mut body) => {
                header.append(&mut body);
            },
            None => {},
        }
        Ok(header)
    } else if status_code == 400 {
        Ok("HTTP/1.0 400 Bad Request\r\nServer: mio webserver\r\n\r\n".as_bytes_vec())
    } else if status_code == 404 {
        Ok("HTTP/1.0 404 Not Found\r\nServer: mio webserver\r\n\r\n".as_bytes_vec())
    } else if status_code == 501 {
        Ok("HTTP/1.0 501 Not Implemented\r\nServer: mio webserver\r\n\r\n".as_bytes_vec())
    } else {
        Err(UndefinedStatusCode { code: status_code })
    }
}

/// Render a response for a status code known to be in the known set.
fn response_with(code: u16, msg: Option<Vec<u8>>) -> (r: Vec<u8>)
    requires
        is_known_status(code),
    ensures
        r@ == response_bytes(code, msg.deep_view()),
{
    match create_msg_from_code(code, msg) {
        Ok(v) => v,
        Err(_) => vstd::pervasive::unreached(),
    }
}

/// The bytes of the `GET` method token.
pub open spec fn get_method() -> Seq<u8> {
    seq![0x47u8, 0x45u8, 0x54u8]
}

/// What handling a request buffer requires next: either the response is
/// already complete, or a file must be fetched for a `GET` and its raw
/// path is handed back.
pub enum ResponsePlan {
    /// The complete response bytes; no file is needed.
    Ready(Vec<u8>),
    /// A `GET` request: fetch the file named by this raw path under the
    /// webroot, then finish with [`finish_get_response`].
    FetchFile(Vec<u8>),
}

/// The abstract value of a [`ResponsePlan`].
pub enum ResponsePlanView {
    /// The complete response bytes.
    Ready(Seq<u8>),
    /// The raw path of the file a `GET` request asks for.
    FetchFile(Seq<u8>),
}

impl View for ResponsePlan {
    type V = ResponsePlanView;

    open spec fn view(&self) -> ResponsePlanView {
        match self {
            ResponsePlan::Ready(v) => ResponsePlanView::Ready(v@),
            ResponsePlan::FetchFile(p) => ResponsePlanView::FetchFile(p@),
        }
    }
}

/// The plan for a request buffer: `400` when the request line is
/// malformed, `501` when the method is not `GET`, and a file fetch of the
/// raw path otherwise.
pub open spec fn spec_plan(s: Seq<u8>) -> ResponsePlanView {
    match spec_parse(s) {
        Option::None => ResponsePlanView::Ready(response_head(400)),
        Option::Some((m, p, d)) => if m == get_method() {
            ResponsePlanView::FetchFile(p)
        } else {
            ResponsePlanView::Ready(response_head(501))
        },
    }
}

/// Decide how to answer the bytes of one read: a finished `400` or `501`
/// response, or the path of the file a `GET` asks for.
pub fn plan_response(buf: &[u8]) -> (r: ResponsePlan)
    ensures
        r@ == spec_plan(buf@),
{
    match parse_request(buf) {
        Err(_) => ResponsePlan::Ready(response_with(400, None)),
        Ok(req) => {
            if req.method.len() == 3 && req.method[0] == 0x47 && req.method[1] == 0x45
                && req.method[2] == 0x54 {
                proof {
                    assert(req.method@ =~= get_method());
                }
                ResponsePlan::FetchFile(req.path)
            } else {
                proof {
                    assert(req.method@ != get_method()) by {
                        if req.method@ == get_method() {
                            assert(req.method@.len() == 3);
                            assert(req.method@[0] == 0x47);
                            assert(req.method@[1] == 0x45);
                            assert(req.method@[2] == 0x54);
                        }
                    }
                }
                ResponsePlan::Ready(response_with(501, None))
            }
        },
    }
}

/// The response to a `GET` once the file fetch has concluded: `200` with
/// the file's bytes as the body, or `404` with an empty body when the file
/// was absent or unreadable for any reason.
pub open spec fn spec_get_response(file: Option<Seq<u8>>) -> Seq<u8> {
    match file {
        Option::Some(contents) => response_head(200) + contents,
        Option::None => response_head(404),
    }
}

/// Finish a `GET`: turn the outcome of the file read into the response
/// bytes.  All failures to open or read the file collapse to `404`.
pub fn finish_get_response(file: Option<Vec<u8>>) -> (r: Vec<u8>)
    ensures
        r@ == spec_get_response(file.deep_view()),
{
    match file {
        Some(contents) => response_with(200, Some(contents)),
        None => response_with(404, None),
    }
}

/// The file-system path a `GET` resolves to: the webroot bytes followed
/// verbatim by the raw request path.  No normalization is applied:
/// traversal sequences such as `..` pass through unchanged, a deliberate
/// fidelity to the served behaviour rather than an endorsement.
pub fn resolve_path(webroot: &[u8], path: &[u8]) -> (r: Vec<u8>)
    ensures
        r@ == webroot@ + path@,
{
    let mut joined = vstd::slice::slice_to_vec(webroot);
    let mut tail = vstd::slice::slice_to_vec(path);
    joined.append(&mut tail);
    joined
}

/// The response for a request buffer, as a function of the buffer and of
/// the outcome of the file fetch (which only a `GET` performs).
pub open spec fn spec_response(req: Seq<u8>, file: Option<Seq<u8>>) -> Seq<u8> {
    match spec_plan(req) {
        ResponsePlanView::Ready(v) => v,
        ResponsePlanView::FetchFile(_) => spec_get_response(file),
    }
}

/// A well-formed `GET` whose file exists and was read is answered with
/// status `200` and a body byte-identical to the file's contents.
pub proof fn lemma_get_found_is_200(req: Seq<u8>, p: Seq<u8>, d: u8, contents: Seq<u8>)
    requires
        req_shape(req, get_method(), p, d),
    ensures
        spec_response(req, Some(contents)) == response_head(200) + contents,
{
    crate::parser::lemma_parse_complete(req, get_method(), p, d);
}

/// A well-formed `GET` whose file is absent or unreadable is answered with
/// status `404` and an empty body.
pub proof fn lemma_get_missing_is_404(req: Seq<u8>, p: Seq<u8>, d: u8)
    requires
        req_shape(req, get_method(), p, d),
    ensures
        spec_response(req, None) == response_head(404),
{
    crate::parser::lemma_parse_complete(req, get_method(), p, d);
}

/// A well-formed request with any method other than `GET` is answered
/// with status `501`, whatever the path and whatever a file fetch would
/// have returned.
pub proof fn lemma_non_get_is_501(
    req: Seq<u8>,
    m: Seq<u8>,
    p: Seq<u8>,
    d: u8,
    file: Option<Seq<u8>>,
)
    requires
        req_shape(req, m, p, d),
        m != get_method(),
    ensures
        spec_response(req, file) == response_head(501),
{
    crate::parser::lemma_parse_complete(req, m, p, d);
}

/// A buffer that matches the request-line shape under no decomposition at
/// all is answered with status `400`, whatever a file fetch would have
/// returned.
pub proof fn lemma_malformed_is_400(req: Seq<u8>, file: Option<Seq<u8>>)
    requires
        forall|m: Seq<u8>, p: Seq<u8>, d: u8| !req_shape(req, m, p, d),
    ensures
        spec_response(req, file) == response_head(400),
{
    match spec_parse(req) {
        Option::None => {},
        Option::Some((m, p, d)) => {
            crate::parser::lemma_parse_sound(req, m, p, d);
            assert(!req_shape(req, m, p, d));
        },
    }
}

/// Identical requests against an unchanged file produce byte-identical
/// responses: the response is a function of the request bytes and the
/// file outcome alone.
pub proof fn lemma_identical_requests_identical_responses(
    req1: Seq<u8>,
    req2: Seq<u8>,
    file1: Option<Seq<u8>>,
    file2: Option<Seq<u8>>,
)
    requires
        req1 == req2,
        file1 == file2,
    ensures
        spec_response(req1, file1) == spec_response(req2, file2),
{
}

} // verus!
