//! The shape of one outbound HTTP transaction.
//!
//! A command never performs I/O itself: it plans an [`OutboundRequest`],
//! plain data that the I/O layer translates into an actual request
//! verbatim. The spec-level picture of a request is a [`RequestModel`],
//! reached through the request's view.

use vstd::prelude::*;
use vstd::string::StringExecFns;

verus! {

/// The HTTP method a command uses.
#[derive(Clone, Copy, PartialEq, Eq, Debug)]
pub enum Method {
    Get,
    Post,
}

/// What a request carries as its body.
pub enum RequestBody {
    /// No body: the GET commands.
    Empty,
    /// The raw bytes of the file at `path`, streamed as the whole body.
    FileContents { path: String },
    /// One multipart form part named `field`, streaming the file at `path`
    /// under `file_name` with the given media type.
    MultipartFile { field: String, file_name: String, media_type: String, path: String },
}

/// Spec-level picture of a request body.
#[verifier::ext_equal]
pub enum BodyModel {
    Empty,
    FileContents { path: Seq<char> },
    MultipartFile { field: Seq<char>, file_name: Seq<char>, media_type: Seq<char>, path: Seq<char> },
}

impl View for RequestBody {
    type V = BodyModel;

    open spec fn view(&self) -> BodyModel {
        match self {
            RequestBody::Empty => BodyModel::Empty,
            RequestBody::FileContents { path } => BodyModel::FileContents { path: path@ },
            RequestBody::MultipartFile { field, file_name, media_type, path } => {
                BodyModel::MultipartFile {
                    field: field@,
                    file_name: file_name@,
                    media_type: media_type@,
                    path: path@,
                }
            },
        }
    }
}

/// One outbound HTTP transaction, described as plain data.
pub struct OutboundRequest {
    pub method: Method,
    pub url: String,
    /// Header (name, value) pairs, in the order they are to be set.
    pub headers: Vec<(String, String)>,
    pub body: RequestBody,
    /// An overall deadline in milliseconds; `None` leaves the transport's
    /// own patience as the only bound.
    pub timeout_ms: Option<u64>,
}

/// Spec-level picture of a whole request.
#[verifier::ext_equal]
pub struct RequestModel {
    pub method: Method,
    pub url: Seq<char>,
    pub headers: Seq<(Seq<char>, Seq<char>)>,
    pub body: BodyModel,
    pub timeout_ms: Option<u64>,
}

impl View for OutboundRequest {
    type V = RequestModel;

    open spec fn view(&self) -> RequestModel {
        RequestModel {
            method: self.method,
            url: self.url@,
            headers: self.headers.deep_view(),
            body: self.body@,
            timeout_ms: self.timeout_ms,
        }
    }
}

/// The `Authorization` value in the token style one vendor asks for.
pub open spec fn token_auth_value(key: Seq<char>) -> Seq<char> {
    "Token "@ + key
}

/// The `Authorization` value in the bearer style the other vendor asks for.
pub open spec fn bearer_auth_value(key: Seq<char>) -> Seq<char> {
    "Bearer "@ + key
}

/// Build the token-style `Authorization` value for `key`.
pub fn token_auth(key: &str) -> (r: String)
    ensures
        r@ == token_auth_value(key@),
{
    let mut s = ("Token ").to_owned();
    s.append(key);
    s
}

/// Build the bearer-style `Authorization` value for `key`.
pub fn bearer_auth(key: &str) -> (r: String)
    ensures
        r@ == bearer_auth_value(key@),
{
    let mut s = ("Bearer ").to_owned();
    s.append(key);
    s
}

} // verus!
