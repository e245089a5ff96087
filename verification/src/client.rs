//! The resource client: how a request for a resource is put together, and
//! what each status that the server answers with means.

use crate::poll::{Poll, PollState, PollTask, DEFAULT_POLLRATE};
pub use crate::response::SepResponse;
use hyper::http::HeaderValue;
use hyper::Uri;
use vstd::prelude::*;
use vstd::utf8::{decode_utf8, valid_utf8};

verus! {

/// The media type of every IEEE 2030.5 payload.
pub const SEP_XML: &'static str = "application/sep+xml";

/// The four operations on a resource.
#[derive(Clone, Copy, Debug, PartialEq, Eq, Structural)]
pub enum Method {
    Get,
    Put,
    Post,
    Delete,
}

/// Why an operation of the client failed, as far as the protocol decides it.
#[derive(Clone, Copy, Debug, PartialEq, Eq, Structural)]
pub enum ClientError {
    /// The server's address and the path do not make a URI.
    InvalidAddress,
    /// The server answered 400.
    BadRequest,
    /// The server answered 404.
    NotFound,
    /// The server answered 201 without a `Location` header.
    MissingLocation,
    /// The server answered 201 with a `Location` header that is not visible ASCII.
    InvalidLocation,
    /// The server answered with a status that the operation does not know.
    UnexpectedResponse,
}

/// A request as the client sends it.
#[derive(Debug)]
pub struct Request {
    pub method: Method,
    pub uri: String,
    /// The `Accept` header.
    pub accept: Option<&'static str>,
    /// The `Content-Type` header.
    pub content_type: Option<&'static str>,
    /// The `Content-Length` header.
    pub content_length: Option<usize>,
    pub body: String,
}

/// The mathematical value of a [`Request`].
pub struct RequestView {
    pub method: Method,
    pub uri: Seq<char>,
    pub accept: Option<Seq<char>>,
    pub content_type: Option<Seq<char>>,
    pub content_length: Option<nat>,
    pub body: Seq<char>,
}

/// The view of an optional header with a fixed value.
pub open spec fn fixed_header_view(header: Option<&'static str>) -> Option<Seq<char>> {
    match header {
        Some(text) => Some(text@),
        None => None,
    }
}

impl View for Request {
    type V = RequestView;

    open spec fn view(&self) -> RequestView {
        RequestView {
            method: self.method,
            uri: self.uri@,
            accept: fixed_header_view(self.accept),
            content_type: fixed_header_view(self.content_type),
            content_length: match self.content_length {
                Some(length) => Some(length as nat),
                None => None,
            },
            body: self.body@,
        }
    }
}

/// The request that retrieves a resource: it accepts the protocol's media
/// type and has no body.
pub open spec fn get_request(uri: Seq<char>) -> RequestView {
    RequestView {
        method: Method::Get,
        uri,
        accept: Some(SEP_XML@),
        content_type: None,
        content_length: None,
        body: Seq::empty(),
    }
}

/// The request that deletes a resource: no header of the protocol's and no body.
pub open spec fn delete_request(uri: Seq<char>) -> RequestView {
    RequestView {
        method: Method::Delete,
        uri,
        accept: None,
        content_type: None,
        content_length: None,
        body: Seq::empty(),
    }
}

/// The number of bytes that a text takes on the wire, in UTF-8.
pub open spec fn byte_length(text: Seq<char>) -> nat {
    vstd::utf8::encode_utf8(text).len()
}

/// The request that sends a serialized resource: its `Content-Type` is the
/// protocol's media type and its `Content-Length` the body's length in bytes.
pub open spec fn send_request(method: Method, uri: Seq<char>, body: Seq<char>) -> RequestView {
    RequestView {
        method,
        uri,
        accept: None,
        content_type: Some(SEP_XML@),
        content_length: Some(byte_length(body)),
        body,
    }
}

impl Request {
    /// The GET request for a URI.
    pub fn get(uri: String) -> (request: Request)
        ensures
            request@ == get_request(uri@),
    {
        Request {
            method: Method::Get,
            uri,
            accept: Some(SEP_XML),
            content_type: None,
            content_length: None,
            body: String::new(),
        }
    }

    /// The DELETE request for a URI.
    pub fn delete(uri: String) -> (request: Request)
        ensures
            request@ == delete_request(uri@),
    {
        Request {
            method: Method::Delete,
            uri,
            accept: None,
            content_type: None,
            content_length: None,
            body: String::new(),
        }
    }

    /// The request that sends a serialized resource to a URI, by PUT or POST.
    pub fn send(method: Method, uri: String, body: String) -> (request: Request)
        ensures
            request@ == send_request(method, uri@, body@),
    {
        let length = body.as_str().as_bytes().len();
        Request {
            method,
            uri,
            accept: None,
            content_type: Some(SEP_XML),
            content_length: Some(length),
            body,
        }
    }
}

/// Whether `hyper::Uri` accepts a text: whether `str::parse::<Uri>`, which is
/// `Uri::from_str`, returns `Ok` for it.
pub uninterp spec fn uri_parses(text: Seq<char>) -> bool;

/// Asks `hyper::Uri::from_str` whether a text is a URI.
#[verifier::external_body]
fn parses_as_uri(text: &str) -> (ok: bool)
    ensures
        ok == uri_parses(text@),
{
    text.parse::<Uri>().is_ok()
}

/// A byte that may stand in a header value that is read as text: visible
/// ASCII, a space or a tab.
pub open spec fn visible_ascii(byte: u8) -> bool {
    32 <= byte < 127 || byte == 9
}

/// Whether every byte of a header value may be read as text.
pub open spec fn all_visible_ascii(bytes: Seq<u8>) -> bool {
    forall|i: int| 0 <= i < bytes.len() ==> visible_ascii(#[trigger] bytes[i])
}

/// ASCII bytes as text: each byte is the character of its number.
pub open spec fn ascii_text(bytes: Seq<u8>) -> Seq<char> {
    Seq::new(bytes.len(), |i: int| bytes[i] as char)
}

/// Reads the bytes of a header value as text, as
/// `hyper::http::HeaderValue::to_str` does for the value that
/// `HeaderValue::from_bytes` makes of them: the text is there exactly when
/// every byte is visible ASCII, a space or a tab, and then holds the same
/// bytes.
#[verifier::external_body]
fn header_text(raw: &[u8]) -> (text: Option<String>)
    ensures
        text is Some <==> all_visible_ascii(raw@),
        text matches Some(read) ==> read@ == ascii_text(raw@),
{
    HeaderValue::from_bytes(raw).ok()?.to_str().ok().map(|text| text.to_owned())
}

/// The text that `String::from_utf8_lossy` makes of bytes, with U+FFFD in
/// place of what is not UTF-8.
pub uninterp spec fn lossy_text(bytes: Seq<u8>) -> Seq<char>;

/// Calls `String::from_utf8_lossy`. Of bytes that are UTF-8 the text is the
/// one they encode.
#[verifier::external_body]
fn utf8_lossy(bytes: &[u8]) -> (text: String)
    ensures
        text@ == lossy_text(bytes@),
        valid_utf8(bytes@) ==> text@ == decode_utf8(bytes@),
{
    String::from_utf8_lossy(bytes).into_owned()
}

/// What a GET makes of the status of the answer.
pub open spec fn get_outcome(status: u16) -> Result<(), ClientError> {
    if status == 200 {
        Ok(())
    } else if status == 404 {
        Err(ClientError::NotFound)
    } else {
        Err(ClientError::UnexpectedResponse)
    }
}

/// What a DELETE makes of the status of the answer.
pub open spec fn delete_outcome(status: u16) -> Result<(), ClientError> {
    if status == 204 {
        Ok(())
    } else if status == 400 {
        Err(ClientError::BadRequest)
    } else if status == 404 {
        Err(ClientError::NotFound)
    } else {
        Err(ClientError::UnexpectedResponse)
    }
}

/// The view of the outcome of a PUT or POST.
pub open spec fn outcome_view(outcome: Result<SepResponse, ClientError>) -> Result<
    crate::response::SepResponseView,
    ClientError,
> {
    match outcome {
        Ok(response) => Ok(response@),
        Err(error) => Err(error),
    }
}

/// What a PUT or POST makes of the status of the answer and of the bytes of
/// its `Location` header, if it has one.
pub open spec fn send_outcome(status: u16, location: Option<Seq<u8>>) -> Result<
    crate::response::SepResponseView,
    ClientError,
> {
    if status == 201 {
        match location {
            None => Err(ClientError::MissingLocation),
            Some(raw) => if all_visible_ascii(raw) {
                Ok(crate::response::SepResponseView::Created(ascii_text(raw)))
            } else {
                Err(ClientError::InvalidLocation)
            },
        }
    } else if status == 204 {
        Ok(crate::response::SepResponseView::NoContent)
    } else if status == 400 {
        Err(ClientError::BadRequest)
    } else if status == 404 {
        Err(ClientError::NotFound)
    } else {
        Err(ClientError::UnexpectedResponse)
    }
}

/// The view of optional bytes.
pub open spec fn bytes_view(bytes: Option<Vec<u8>>) -> Option<Seq<u8>> {
    match bytes {
        Some(held) => Some(held@),
        None => None,
    }
}

/// The text of an error.
pub open spec fn message_of(error: ClientError) -> Seq<char> {
    match error {
        ClientError::InvalidAddress => "Failed to parse address"@,
        ClientError::BadRequest => "400 Bad Request"@,
        ClientError::NotFound => "404 Not Found"@,
        ClientError::MissingLocation => "201 Created - Missing Location Header"@,
        ClientError::InvalidLocation => "201 Created - Invalid Location Header"@,
        ClientError::UnexpectedResponse => "Unexpected HTTP response from server"@,
    }
}

impl ClientError {
    /// A short description of the error.
    pub fn message(&self) -> (text: &'static str)
        ensures
            text@ == message_of(*self),
    {
        match self {
            ClientError::InvalidAddress => "Failed to parse address",
            ClientError::BadRequest => "400 Bad Request",
            ClientError::NotFound => "404 Not Found",
            ClientError::MissingLocation => "201 Created - Missing Location Header",
            ClientError::InvalidLocation => "201 Created - Invalid Location Header",
            ClientError::UnexpectedResponse => "Unexpected HTTP response from server",
        }
    }
}

/// An IEEE 2030.5 client: the address of the server whose resources it works
/// on.
#[derive(Clone, Debug)]
pub struct Client {
    addr: String,
}

impl Client {
    /// The address of the server.
    pub closed spec fn addr(&self) -> Seq<char> {
        self.addr@
    }

    /// A client for the server at the given address: a scheme and an
    /// authority, without a trailing slash.
    pub fn new(server_addr: &str) -> (client: Client)
        ensures
            client.addr() == server_addr@,
    {
        Client { addr: server_addr.to_owned() }
    }

    /// The URI of a resource: the server's address with the path behind it,
    /// nothing added and nothing normalized.
    pub fn uri(&self, path: &str) -> (r: Result<String, ClientError>)
        ensures
            match r {
                Ok(uri) => uri_parses(self.addr() + path@) && uri@ == self.addr() + path@,
                Err(error) => !uri_parses(self.addr() + path@) && error
                    == ClientError::InvalidAddress,
            },
    {
        let uri = self.addr.clone().concat(path);
        if parses_as_uri(uri.as_str()) {
            Ok(uri)
        } else {
            Err(ClientError::InvalidAddress)
        }
    }

    /// The request that retrieves the resource at the given path.
    pub fn get(&self, path: &str) -> (r: Result<Request, ClientError>)
        ensures
            match r {
                Ok(request) => uri_parses(self.addr() + path@) && request@ == get_request(
                    self.addr() + path@,
                ),
                Err(error) => !uri_parses(self.addr() + path@) && error
                    == ClientError::InvalidAddress,
            },
    {
        match self.uri(path) {
            Ok(uri) => Ok(Request::get(uri)),
            Err(error) => Err(error),
        }
    }

    /// The request that creates a resource at the given path from its
    /// serialized form.
    pub fn post(&self, path: &str, resource: String) -> (r: Result<Request, ClientError>)
        ensures
            match r {
                Ok(request) => uri_parses(self.addr() + path@) && request@ == send_request(
                    Method::Post,
                    self.addr() + path@,
                    resource@,
                ),
                Err(error) => !uri_parses(self.addr() + path@) && error
                    == ClientError::InvalidAddress,
            },
    {
        self.put_post(path, resource, Method::Post)
    }

    /// The request that updates the resource at the given path from its
    /// serialized form.
    pub fn put(&self, path: &str, resource: String) -> (r: Result<Request, ClientError>)
        ensures
            match r {
                Ok(request) => uri_parses(self.addr() + path@) && request@ == send_request(
                    Method::Put,
                    self.addr() + path@,
                    resource@,
                ),
                Err(error) => !uri_parses(self.addr() + path@) && error
                    == ClientError::InvalidAddress,
            },
    {
        self.put_post(path, resource, Method::Put)
    }

    /// The request that sends a serialized resource to the given path.
    pub fn put_post(&self, path: &str, resource: String, method: Method) -> (r: Result<
        Request,
        ClientError,
    >)
        ensures
            match r {
                Ok(request) => uri_parses(self.addr() + path@) && request@ == send_request(
                    method,
                    self.addr() + path@,
                    resource@,
                ),
                Err(error) => !uri_parses(self.addr() + path@) && error
                    == ClientError::InvalidAddress,
            },
    {
        match self.uri(path) {
            Ok(uri) => Ok(Request::send(method, uri, resource)),
            Err(error) => Err(error),
        }
    }

    /// The request that deletes the resource at the given path.
    pub fn delete(&self, path: &str) -> (r: Result<Request, ClientError>)
        ensures
            match r {
                Ok(request) => uri_parses(self.addr() + path@) && request@ == delete_request(
                    self.addr() + path@,
                ),
                Err(error) => !uri_parses(self.addr() + path@) && error
                    == ClientError::InvalidAddress,
            },
    {
        match self.uri(path) {
            Ok(uri) => Ok(Request::delete(uri)),
            Err(error) => Err(error),
        }
    }

    /// What a GET makes of the status of the answer: on 200 the body holds
    /// the resource.
    pub fn get_response(status: u16) -> (r: Result<(), ClientError>)
        ensures
            r == get_outcome(status),
    {
        if status == 200 {
            Ok(())
        } else if status == 404 {
            Err(ClientError::NotFound)
        } else {
            Err(ClientError::UnexpectedResponse)
        }
    }

    /// The text of the body of an answer, which is then deserialized. Bytes
    /// that are not UTF-8 do not fail: they are replaced.
    pub fn body_text(body: &[u8]) -> (text: String)
        ensures
            text@ == lossy_text(body@),
            valid_utf8(body@) ==> text@ == decode_utf8(body@),
    {
        utf8_lossy(body)
    }

    /// What a PUT or POST makes of the answer: of its status, and of the
    /// bytes of its `Location` header where it has one.
    pub fn put_post_response(status: u16, location: Option<Vec<u8>>) -> (r: Result<
        SepResponse,
        ClientError,
    >)
        ensures
            outcome_view(r) == send_outcome(status, bytes_view(location)),
    {
        if status == 201 {
            match location {
                None => Err(ClientError::MissingLocation),
                Some(raw) => match header_text(raw.as_slice()) {
                    Some(text) => Ok(SepResponse::Created(text)),
                    None => Err(ClientError::InvalidLocation),
                },
            }
        } else if status == 204 {
            Ok(SepResponse::NoContent)
        } else if status == 400 {
            Err(ClientError::BadRequest)
        } else if status == 404 {
            Err(ClientError::NotFound)
        } else {
            Err(ClientError::UnexpectedResponse)
        }
    }

    /// What a DELETE makes of the status of the answer.
    pub fn delete_response(status: u16) -> (r: Result<(), ClientError>)
        ensures
            r == delete_outcome(status),
    {
        if status == 204 {
            Ok(())
        } else if status == 400 {
            Err(ClientError::BadRequest)
        } else if status == 404 {
            Err(ClientError::NotFound)
        } else {
            Err(ClientError::UnexpectedResponse)
        }
    }

    /// Registers a poll of the resource at the given path, every `poll_rate`
    /// seconds. Without a rate the poll runs every 900 seconds, as
    /// IEEE 2030.5 has it. The poll starts out waiting: it first retrieves
    /// the resource when its rate has elapsed or when a run is forced.
    pub fn start_poll(&self, path: String, poll_rate: Option<u32>) -> (poll: Poll)
        ensures
            poll.path@ == path@,
            poll.rate == (match poll_rate {
                Some(rate) => rate,
                None => DEFAULT_POLLRATE,
            }),
            poll.state == PollState::Waiting,
    {
        Poll::new(path, poll_rate)
    }

    /// The message that makes every poll of this client run at once.
    pub fn force_poll(&self) -> (message: PollTask)
        ensures
            message == PollTask::ForceRun,
    {
        PollTask::ForceRun
    }

    /// The message that ends every poll of this client.
    pub fn cancel_polls(&self) -> (message: PollTask)
        ensures
            message == PollTask::Cancel,
    {
        PollTask::Cancel
    }
}

/// The `Content-Length` of every PUT and POST is the number of bytes of its
/// body.
pub proof fn lemma_content_length(method: Method, uri: Seq<char>, body: Seq<char>)
    ensures
        send_request(method, uri, body).content_length == Some(
            vstd::utf8::encode_utf8(send_request(method, uri, body).body).len(),
        ),
{
}

} // verus!
