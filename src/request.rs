//! The request composer: from the flags of one API call and its buffered
//! payload to the single request to send.

use vstd::prelude::*;
use vstd::string::StrSliceExecFns;
use vstd::utf8::encode_utf8;
use crate::text::{decimal_of, has_suffix, is_suffix_of, labelled_number};

verus! {

/// The HTTP method of a control-API request.
#[derive(Clone, Copy, Debug, PartialEq, Eq, Structural)]
pub enum Method {
    Get,
    Post,
    Put,
    Delete,
}

/// Why a combination of flags cannot become a request.
#[derive(Clone, Copy, Debug, PartialEq, Eq, Structural)]
pub enum ComposeError {
    /// Inline text and a file were both given as the payload.
    PayloadConflict,
    /// A delete was asked for together with a payload.
    DeleteWithPayload,
    /// A delete and a replacing write were both asked for.
    DeleteWithPut,
}

/// One fully resolved control-API request.
#[derive(Debug)]
pub struct ApiRequest {
    /// The URI; its path and query form the request target.
    pub uri: String,
    /// The Unix socket to route the request over, if any; otherwise the URI
    /// is dialed over the network.
    pub socket: Option<String>,
    pub method: Method,
    /// The payload, buffered once.
    pub body: Option<Vec<u8>>,
    /// Header lines, in order.
    pub headers: Vec<String>,
    /// Whether the transport's own trace is wanted instead of a status line.
    pub verbose: bool,
}

/// The method rule: no payload reads (or deletes, if asked); a payload is
/// posted, or put where a replacing write is asked for.
pub open spec fn method_spec(has_payload: bool, delete: bool, put: bool) -> Method {
    if !has_payload {
        if delete { Method::Delete } else { Method::Get }
    } else if put {
        Method::Put
    } else {
        Method::Post
    }
}

/// The flag conflicts, checked before any payload is read or request built.
pub open spec fn flags_error(has_payload: bool, delete: bool, put: bool) -> Option<ComposeError> {
    if delete && put {
        Some(ComposeError::DeleteWithPut)
    } else if delete && has_payload {
        Some(ComposeError::DeleteWithPayload)
    } else {
        None
    }
}

pub open spec fn content_type_line() -> Seq<char> {
    "Content-Type: application/json"@
}

pub open spec fn content_length_line(len: nat) -> Seq<char> {
    "Content-Length: "@ + decimal_of(len)
}

/// The header lines for a payload of `len` bytes, or for none.
pub open spec fn headers_spec(payload_len: Option<nat>) -> Seq<Seq<char>> {
    match payload_len {
        Some(n) => seq![content_type_line(), content_length_line(n)],
        None => Seq::empty(),
    }
}

pub open spec fn strings_view(v: Seq<String>) -> Seq<Seq<char>> {
    v.map_values(|s: String| s@)
}

pub open spec fn body_len(body: Option<Vec<u8>>) -> Option<nat> {
    match body {
        Some(b) => Some(b@.len()),
        None => None,
    }
}

/// Decides the method of a request.
pub fn method_for(has_payload: bool, delete: bool, put: bool) -> (r: Method)
    ensures
        r == method_spec(has_payload, delete, put),
{
    if !has_payload {
        if delete { Method::Delete } else { Method::Get }
    } else if put {
        Method::Put
    } else {
        Method::Post
    }
}

/// Checks the flags of one call against each other.
pub fn check_flags(has_payload: bool, delete: bool, put: bool) -> (r: Result<(), ComposeError>)
    ensures
        r is Err <==> flags_error(has_payload, delete, put) is Some,
        r matches Err(e) ==> flags_error(has_payload, delete, put) == Some(e),
{
    if delete && put {
        Err(ComposeError::DeleteWithPut)
    } else if delete && has_payload {
        Err(ComposeError::DeleteWithPayload)
    } else {
        Ok(())
    }
}

/// Picks the payload from a file's contents or inline text; at most one of
/// the two may be given.
pub fn select_payload(file_contents: Option<Vec<u8>>, inline: Option<String>) -> (r: Result<
    Option<Vec<u8>>,
    ComposeError,
>)
    ensures
        (file_contents is Some && inline is Some) <==> r == Err::<Option<Vec<u8>>, ComposeError>(
            ComposeError::PayloadConflict,
        ),
        !(file_contents is Some && inline is Some) ==> r is Ok,
        (file_contents is Some && inline is None) ==> r == Ok::<Option<Vec<u8>>, ComposeError>(
            file_contents,
        ),
        (file_contents is None && inline is Some) ==> (r matches Ok(Some(b)) && b@ == encode_utf8(
            inline->0@,
        )),
        (file_contents is None && inline is None) ==> r == Ok::<Option<Vec<u8>>, ComposeError>(
            None,
        ),
{
    match (file_contents, inline) {
        (Some(_), Some(_)) => Err(ComposeError::PayloadConflict),
        (Some(f), None) => Ok(Some(f)),
        (None, Some(t)) => Ok(Some(t.as_str().as_bytes_vec())),
        (None, None) => Ok(None),
    }
}

/// Whether a payload file's name lacks the `.json` extension, which earns
/// an advisory (the contents are sent unchecked either way).
pub fn needs_json_advisory(path: &str) -> (r: bool)
    ensures
        r == !is_suffix_of(".json"@, path@),
{
    !has_suffix(path, ".json")
}

/// The header lines that frame a payload of `len` bytes.
pub fn payload_headers(len: usize) -> (r: Vec<String>)
    ensures
        strings_view(r@) == headers_spec(Some(len as nat)),
{
    let mut r: Vec<String> = Vec::new();
    r.push("Content-Type: application/json".to_owned());
    r.push(labelled_number("Content-Length: ", len as u64));
    assert(strings_view(r@) =~= headers_spec(Some(len as nat)));
    r
}

/// Composes the one request of an API call. The payload is buffered once
/// and kept as it is whichever method is chosen.
pub fn compose_request(
    uri: String,
    socket: Option<String>,
    payload: Option<Vec<u8>>,
    delete: bool,
    put: bool,
    verbose: bool,
) -> (r: Result<ApiRequest, ComposeError>)
    ensures
        r is Err <==> flags_error(payload is Some, delete, put) is Some,
        r matches Err(e) ==> flags_error(payload is Some, delete, put) == Some(e),
        r matches Ok(req) ==> {
            &&& req.method == method_spec(payload is Some, delete, put)
            &&& req.body == payload
            &&& strings_view(req.headers@) == headers_spec(body_len(payload))
            &&& req.uri@ == uri@
            &&& req.socket == socket
            &&& req.verbose == verbose
        },
        payload is None && !delete ==> (r matches Ok(req) && req.method == Method::Get),
        delete && payload is Some ==> r == Err::<ApiRequest, ComposeError>(
            ComposeError::DeleteWithPayload,
        ) || r == Err::<ApiRequest, ComposeError>(ComposeError::DeleteWithPut),
        delete ==> (r matches Ok(req) ==> req.method == Method::Delete && req.body is None),
        payload is None && delete && !put ==> (r matches Ok(req) && req.method == Method::Delete
            && req.body is None),
        payload is Some && !put && !delete ==> (r matches Ok(req) && req.method == Method::Post
            && req.headers@.len() == 2 && req.headers@[1]@ == content_length_line(
            payload->0@.len(),
        )),
        payload is Some && put && !delete ==> (r matches Ok(req) && req.method == Method::Put
            && req.body == payload),
{
    let has_payload = payload.is_some();
    match check_flags(has_payload, delete, put) {
        Err(e) => Err(e),
        Ok(()) => {
            let method = method_for(has_payload, delete, put);
            let headers = match &payload {
                Some(b) => {
                    let h = payload_headers(b.len());
                    assert(h@.len() == strings_view(h@).len());
                    assert(h@[1]@ == strings_view(h@)[1]);
                    h
                },
                None => {
                    let h: Vec<String> = Vec::new();
                    assert(strings_view(h@) =~= headers_spec(None));
                    h
                },
            };
            Ok(ApiRequest { uri, socket, method, body: payload, headers, verbose })
        },
    }
}

/// The line that reports a response's status code, printed only when the
/// transport's trace is off.
pub fn status_line(code: u32, verbose: bool) -> (r: Option<String>)
    ensures
        verbose <==> r is None,
        r matches Some(s) ==> s@ == "Response code: "@ + decimal_of(code as nat),
{
    if verbose {
        None
    } else {
        Some(labelled_number("Response code: ", code as u64))
    }
}

} // verus!
