//! The two decisions of the server: what to do with a request when it
//! arrives, and how to answer once the file system has been asked.
//!
//! [`decide`] looks at the request alone. It either answers at once or asks
//! for the file to be looked up; [`serve`] turns the outcome of that lookup
//! into the response.

use crate::cors::{cors_spec, CorsHeaders, CorsModel, OriginPolicy};
use crate::date::{last_modified_text, last_modified_value};
use crate::media::{content_type_for, content_type_spec};
use crate::range::{requested_range, requested_spec, select, select_spec, RequestedRange};
use crate::response::{
    file_response_spec, headers_only_spec, plain_spec, text_spec, Response, ResponseModel,
    STATUS_BAD_REQUEST, STATUS_INTERNAL_SERVER_ERROR, STATUS_METHOD_NOT_ALLOWED,
    STATUS_NOT_FOUND, STATUS_NO_CONTENT,
};
use crate::text::{same_text, slice_text_of, text_of};
use vstd::prelude::*;

verus! {

/// The port on which the application's server listens.
pub const DEFAULT_PORT: u16 = 18493;

/// The method of a request.
#[derive(Clone, Copy, Debug, PartialEq, Eq, Structural)]
pub enum Method {
    Get,
    Head,
    Options,
    /// Any other method.
    Other,
}

/// The method that a request line names. Names are case-sensitive.
pub open spec fn method_spec(name: Seq<char>) -> Method {
    if name == "GET"@ {
        Method::Get
    } else if name == "HEAD"@ {
        Method::Head
    } else if name == "OPTIONS"@ {
        Method::Options
    } else {
        Method::Other
    }
}

impl Method {
    /// The method with the given name.
    pub fn named(name: &str) -> (m: Method)
        ensures
            m == method_spec(name@),
    {
        if same_text(name, "GET") {
            Method::Get
        } else if same_text(name, "HEAD") {
            Method::Head
        } else if same_text(name, "OPTIONS") {
            Method::Options
        } else {
            Method::Other
        }
    }
}

/// A request for a file: its path as the client gave it, taken as it is,
/// and the range it asks for.
#[derive(Debug, PartialEq, Eq)]
pub struct StreamRequest {
    pub file_path: String,
    pub requested_range: RequestedRange,
    /// The request is a `HEAD` request: it gets the headers and no body.
    pub head_only: bool,
}

/// The model of [`StreamRequest`].
pub struct RequestModel {
    pub file_path: Seq<char>,
    pub requested_range: RequestedRange,
    pub head_only: bool,
}

/// What the file system says of a path at the time of the request.
#[derive(Debug, PartialEq, Eq)]
pub enum FileStatus {
    /// Nothing is there.
    Missing,
    /// What is there is not a regular file: a directory, a device.
    NotRegular,
    /// The file exists and cannot be read; `detail` says why.
    Unreadable { detail: String },
    /// A regular file of `size` bytes, last changed `modified` seconds after
    /// the Unix epoch where that is known.
    Regular { size: u64, modified: Option<u64> },
}

/// The model of [`FileStatus`].
pub enum FileStatusModel {
    Missing,
    NotRegular,
    Unreadable { detail: Seq<char> },
    Regular { size: u64, modified: Option<u64> },
}

/// What a response says of a file. It is made anew for every request.
#[derive(Debug, PartialEq, Eq)]
pub struct FileDescriptor {
    pub size: u64,
    pub content_type: String,
    /// Seconds after the Unix epoch, where known.
    pub last_modified: Option<u64>,
}

/// What to do with a request.
#[derive(Debug, PartialEq, Eq)]
pub enum Decision {
    /// Answer at once, without looking at any file.
    Answer(Response),
    /// Look the file up, then answer with [`serve`].
    Lookup { request: StreamRequest, cors: CorsHeaders },
}

/// The model of [`Decision`].
pub enum DecisionModel {
    Answer(ResponseModel),
    Lookup { request: RequestModel, cors: CorsModel },
}

impl View for StreamRequest {
    type V = RequestModel;

    open spec fn view(&self) -> RequestModel {
        RequestModel {
            file_path: self.file_path@,
            requested_range: self.requested_range,
            head_only: self.head_only,
        }
    }
}

impl View for FileStatus {
    type V = FileStatusModel;

    open spec fn view(&self) -> FileStatusModel {
        match self {
            FileStatus::Missing => FileStatusModel::Missing,
            FileStatus::NotRegular => FileStatusModel::NotRegular,
            FileStatus::Unreadable { detail } => FileStatusModel::Unreadable { detail: detail@ },
            FileStatus::Regular { size, modified } => FileStatusModel::Regular {
                size: *size,
                modified: *modified,
            },
        }
    }
}

impl View for Decision {
    type V = DecisionModel;

    open spec fn view(&self) -> DecisionModel {
        match self {
            Decision::Answer(r) => DecisionModel::Answer(r@),
            Decision::Lookup { request, cors } => DecisionModel::Lookup {
                request: request@,
                cors: cors@,
            },
        }
    }
}

/// The one path that is served.
pub open spec fn stream_path() -> Seq<char> {
    "/stream"@
}

/// The methods that the served path accepts, as the `Allow` header lists
/// them.
pub open spec fn accepted_methods() -> Seq<char> {
    "GET,HEAD"@
}

/// The body of the answer to a request that names no file.
pub open spec fn missing_file_text() -> Seq<char> {
    "Missing query parameter: file"@
}

/// The body of the answer for a file that cannot be read.
pub open spec fn unreadable_text(detail: Seq<char>) -> Seq<char> {
    "Failed to open file: "@ + detail
}

/// The answer to a request with a method that the served path does not
/// accept.
pub open spec fn method_not_allowed_spec(cors: CorsModel) -> ResponseModel {
    ResponseModel { allow: Some(accepted_methods()), ..plain_spec(STATUS_METHOD_NOT_ALLOWED, cors) }
}

/// What is done with a request, by its method, its path, the `file`
/// parameter of its query, its `Range` header and the cross-origin headers
/// that its origin has earned. In this order:
/// - `OPTIONS`, on any path, is a preflight: 204, no file is touched;
/// - any path but `/stream`: 404;
/// - a method other than `GET` and `HEAD`: 405 with `Allow`;
/// - no `file` parameter: 400;
/// - otherwise the file is looked up.
///
/// Every answer carries the cross-origin headers.
pub open spec fn decide_spec(
    method: Method,
    path: Seq<char>,
    file: Option<Seq<char>>,
    range: Option<Seq<char>>,
    cors: CorsModel,
) -> DecisionModel {
    if method == Method::Options {
        DecisionModel::Answer(plain_spec(STATUS_NO_CONTENT, cors))
    } else if path != stream_path() {
        DecisionModel::Answer(plain_spec(STATUS_NOT_FOUND, cors))
    } else if method == Method::Other {
        DecisionModel::Answer(method_not_allowed_spec(cors))
    } else {
        match file {
            None => {
                let full = text_spec(STATUS_BAD_REQUEST, missing_file_text(), cors);
                DecisionModel::Answer(
                    if method == Method::Head {
                        headers_only_spec(full)
                    } else {
                        full
                    },
                )
            },
            Some(file_path) => DecisionModel::Lookup {
                request: RequestModel {
                    file_path,
                    requested_range: requested_spec(range),
                    head_only: method == Method::Head,
                },
                cors,
            },
        }
    }
}

/// The response to a request for a file, once the file system has been
/// asked:
/// - nothing there, or no regular file: 404, whatever range was asked for;
/// - unreadable: 500 with a short text;
/// - a regular file: what [`file_response_spec`] says for its size, its
///   content type and what the request selects of it.
///
/// A `HEAD` request gets the same headers and no body.
pub open spec fn serve_spec(
    request: RequestModel,
    status: FileStatusModel,
    cors: CorsModel,
) -> ResponseModel {
    let full = match status {
        FileStatusModel::Missing => plain_spec(STATUS_NOT_FOUND, cors),
        FileStatusModel::NotRegular => plain_spec(STATUS_NOT_FOUND, cors),
        FileStatusModel::Unreadable { detail } => text_spec(
            STATUS_INTERNAL_SERVER_ERROR,
            unreadable_text(detail),
            cors,
        ),
        FileStatusModel::Regular { size, modified } => file_response_spec(
            content_type_spec(request.file_path),
            last_modified_text(modified),
            size,
            select_spec(request.requested_range, size),
            cors,
        ),
    };
    if request.head_only {
        headers_only_spec(full)
    } else {
        full
    }
}

/// The response to a request from its arrival to its answer, where the file
/// system says `status` of the file that it names.
pub open spec fn respond_spec(
    policy: Seq<Seq<char>>,
    method: Method,
    path: Seq<char>,
    file: Option<Seq<char>>,
    range: Option<Seq<char>>,
    origin: Option<Seq<char>>,
    status: FileStatusModel,
) -> ResponseModel {
    match decide_spec(method, path, file, range, cors_spec(policy, origin)) {
        DecisionModel::Answer(r) => r,
        DecisionModel::Lookup { request, cors } => serve_spec(request, status, cors),
    }
}

impl FileDescriptor {
    /// Describes the file at `path`, given its size and time stamp: the
    /// content type is guessed from the path.
    pub fn describe(path: &str, size: u64, last_modified: Option<u64>) -> (d: FileDescriptor)
        ensures
            d.size == size,
            d.content_type@ == content_type_spec(path@),
            d.last_modified == last_modified,
    {
        FileDescriptor { size, content_type: content_type_for(path), last_modified }
    }
}

/// Decides what to do with a request.
///
/// `path` is the path of the request's target without the query, `file` the
/// decoded `file` parameter of the query, `range` and `origin` the values of
/// the `Range` and `Origin` headers, each where present.
pub fn decide(
    policy: &OriginPolicy,
    method: Method,
    path: &str,
    file: Option<String>,
    range: Option<&str>,
    origin: Option<&str>,
) -> (a: Decision)
    ensures
        a@ == decide_spec(
            method,
            path@,
            text_of(file),
            slice_text_of(range),
            cors_spec(policy@, slice_text_of(origin)),
        ),
{
    let cors: CorsHeaders = policy.headers_for(origin);
    match method {
        Method::Options => {
            return Decision::Answer(Response::plain(STATUS_NO_CONTENT, cors));
        },
        _ => {},
    }
    if !same_text(path, "/stream") {
        return Decision::Answer(Response::plain(STATUS_NOT_FOUND, cors));
    }
    match method {
        Method::Other => {
            let mut r: Response = Response::plain(STATUS_METHOD_NOT_ALLOWED, cors);
            r.allow = Some(String::from_str("GET,HEAD"));
            return Decision::Answer(r);
        },
        _ => {},
    }
    let head_only: bool = match method {
        Method::Head => true,
        _ => false,
    };
    match file {
        None => {
            let full: Response = Response::text(
                STATUS_BAD_REQUEST,
                String::from_str("Missing query parameter: file"),
                cors,
            );
            if head_only {
                Decision::Answer(full.headers_only())
            } else {
                Decision::Answer(full)
            }
        },
        Some(file_path) => Decision::Lookup {
            request: StreamRequest { file_path, requested_range: requested_range(range), head_only },
            cors,
        },
    }
}

/// Answers a request for a file, given what the file system says of it.
pub fn serve(request: &StreamRequest, status: FileStatus, cors: CorsHeaders) -> (r: Response)
    ensures
        r@ == serve_spec(request@, status@, cors@),
{
    let full: Response = match status {
        FileStatus::Missing => Response::plain(STATUS_NOT_FOUND, cors),
        FileStatus::NotRegular => Response::plain(STATUS_NOT_FOUND, cors),
        FileStatus::Unreadable { detail } => {
            let mut text: String = String::from_str("Failed to open file: ");
            text.append(detail.as_str());
            Response::text(STATUS_INTERNAL_SERVER_ERROR, text, cors)
        },
        FileStatus::Regular { size, modified } => {
            let file: FileDescriptor = FileDescriptor::describe(
                request.file_path.as_str(),
                size,
                modified,
            );
            Response::for_file(
                file.content_type,
                last_modified_value(file.last_modified),
                file.size,
                select(request.requested_range, file.size),
                cors,
            )
        },
    };
    if request.head_only {
        full.headers_only()
    } else {
        full
    }
}

/// Answers a request in one go, for a caller that already knows what the
/// file system says of the file: [`decide`], then [`serve`] where the file is
/// asked for.
pub fn respond(
    policy: &OriginPolicy,
    method: Method,
    path: &str,
    file: Option<String>,
    range: Option<&str>,
    origin: Option<&str>,
    status: FileStatus,
) -> (r: Response)
    ensures
        r@ == respond_spec(
            policy@,
            method,
            path@,
            text_of(file),
            slice_text_of(range),
            slice_text_of(origin),
            status@,
        ),
{
    match decide(policy, method, path, file, range, origin) {
        Decision::Answer(r) => r,
        Decision::Lookup { request, cors } => serve(&request, status, cors),
    }
}

} // verus!
