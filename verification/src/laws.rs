//! What holds of every request and every file, stated over the models of
//! requests and responses and proved from the definitions.

use crate::cors::{cors_spec, CorsModel};
use crate::range::{range_header_spec, requested_spec, ByteRange, RangeSpec};
use crate::response::{
    body_bytes, content_range_text, header_lines_spec, unsatisfied_range_text, BodyModel,
    ResponseModel, STATUS_NOT_FOUND, STATUS_OK, STATUS_PARTIAL_CONTENT,
    STATUS_RANGE_NOT_SATISFIABLE,
};
use crate::server::{decide_spec, respond_spec, serve_spec, FileStatusModel, Method, RequestModel};
use crate::transfer::deliverable;
use vstd::prelude::*;

verus! {

/// A request without a `Range` header for a regular file is answered with
/// 200, the file's size as `Content-Length`, and a body that is the file's
/// contents byte for byte.
pub proof fn lemma_whole_file(
    file_path: Seq<char>,
    size: u64,
    modified: Option<u64>,
    cors: CorsModel,
    contents: Seq<u8>,
)
    requires
        contents.len() == size,
    ensures
        ({
            let request = RequestModel {
                file_path,
                requested_range: requested_spec(None),
                head_only: false,
            };
            let r = serve_spec(request, FileStatusModel::Regular { size, modified }, cors);
            &&& r.status == STATUS_OK
            &&& r.content_length == size
            &&& body_bytes(r.body, contents) == contents
        }),
{
    assert(deliverable(contents, 0, size) =~= contents);
}

/// A request for the bytes `start` to `end` of a regular file, with
/// `start <= end < size`, is answered with 206,
/// `Content-Range: bytes start-end/size`, the number of bytes asked for as
/// `Content-Length`, and a body that is exactly those bytes of the file.
/// This holds of every header value that denotes the range.
pub proof fn lemma_satisfiable_range(
    file_path: Seq<char>,
    header: Seq<char>,
    start: u64,
    end: u64,
    size: u64,
    modified: Option<u64>,
    cors: CorsModel,
    contents: Seq<u8>,
)
    requires
        range_header_spec(header) == Some(RangeSpec::FromTo { first: start, last: end }),
        start <= end < size,
        contents.len() == size,
    ensures
        ({
            let request = RequestModel {
                file_path,
                requested_range: requested_spec(Some(header)),
                head_only: false,
            };
            let r = serve_spec(request, FileStatusModel::Regular { size, modified }, cors);
            &&& r.status == STATUS_PARTIAL_CONTENT
            &&& r.content_range == Some(content_range_text(ByteRange { start, end }, size))
            &&& r.content_length == end - start + 1
            &&& body_bytes(r.body, contents) == contents.subrange(start as int, end + 1)
        }),
{
}

/// A request that leaves the end of its range open is answered with the
/// bytes from its start to the last byte of the file, and one that asks for
/// a suffix with the last bytes of the file, as many as it asks for.
pub proof fn lemma_half_open_range(
    file_path: Seq<char>,
    header: Seq<char>,
    size: u64,
    modified: Option<u64>,
    cors: CorsModel,
    contents: Seq<u8>,
)
    requires
        contents.len() == size,
        match range_header_spec(header) {
            Some(RangeSpec::From { first }) => first < size,
            Some(RangeSpec::Suffix { length }) => 0 < length <= size,
            _ => false,
        },
    ensures
        ({
            let start = match range_header_spec(header) {
                Some(RangeSpec::From { first }) => first as int,
                Some(RangeSpec::Suffix { length }) => size - length,
                _ => 0,
            };
            let request = RequestModel {
                file_path,
                requested_range: requested_spec(Some(header)),
                head_only: false,
            };
            let r = serve_spec(request, FileStatusModel::Regular { size, modified }, cors);
            &&& r.status == STATUS_PARTIAL_CONTENT
            &&& r.content_range == Some(
                content_range_text(
                    ByteRange { start: start as u64, end: (size - 1) as u64 },
                    size,
                ),
            )
            &&& r.content_length == size - start
            &&& body_bytes(r.body, contents) == contents.subrange(start, size as int)
        }),
{
}

/// A request for a range that starts at or beyond the end of the file is
/// answered with 416, `Content-Range: bytes */size` and an empty body,
/// whether the range names its end or leaves it open.
pub proof fn lemma_start_beyond_file(
    file_path: Seq<char>,
    header: Seq<char>,
    size: u64,
    modified: Option<u64>,
    cors: CorsModel,
    contents: Seq<u8>,
)
    requires
        match range_header_spec(header) {
            Some(RangeSpec::FromTo { first, last }) => first >= size,
            Some(RangeSpec::From { first }) => first >= size,
            _ => false,
        },
    ensures
        ({
            let request = RequestModel {
                file_path,
                requested_range: requested_spec(Some(header)),
                head_only: false,
            };
            let r = serve_spec(request, FileStatusModel::Regular { size, modified }, cors);
            &&& r.status == STATUS_RANGE_NOT_SATISFIABLE
            &&& r.content_range == Some(unsatisfied_range_text(size))
            &&& r.body == BodyModel::Empty
            &&& body_bytes(r.body, contents) == Seq::<u8>::empty()
        }),
{
}

/// A header value that does not denote one range of bytes, be it malformed,
/// in another unit or a list of several ranges, is answered like a range
/// that cannot be satisfied.
pub proof fn lemma_unsupported_range(
    file_path: Seq<char>,
    header: Seq<char>,
    size: u64,
    modified: Option<u64>,
    cors: CorsModel,
)
    requires
        range_header_spec(header) is None,
    ensures
        ({
            let request = RequestModel {
                file_path,
                requested_range: requested_spec(Some(header)),
                head_only: false,
            };
            let r = serve_spec(request, FileStatusModel::Regular { size, modified }, cors);
            &&& r.status == STATUS_RANGE_NOT_SATISFIABLE
            &&& r.content_range == Some(unsatisfied_range_text(size))
            &&& r.body == BodyModel::Empty
        }),
{
}

/// A path at which there is no regular file is answered with 404, whatever
/// the request asks for.
pub proof fn lemma_missing_file(request: RequestModel, status: FileStatusModel, cors: CorsModel)
    requires
        status is Missing || status is NotRegular,
    ensures
        serve_spec(request, status, cors).status == STATUS_NOT_FOUND,
        serve_spec(request, status, cors).body == BodyModel::Empty,
{
}

/// A response carries `Access-Control-Allow-Origin` exactly when the request
/// has an origin that is on the list, and then echoes that origin. This
/// holds of every response: for every method, path, query, range and file.
pub proof fn lemma_allow_origin(
    policy: Seq<Seq<char>>,
    method: Method,
    path: Seq<char>,
    file: Option<Seq<char>>,
    range: Option<Seq<char>>,
    origin: Option<Seq<char>>,
    status: FileStatusModel,
)
    ensures
        ({
            let r = respond_spec(policy, method, path, file, range, origin, status);
            &&& r.cors == cors_spec(policy, origin)
            &&& r.cors.allow_origin is Some <==> origin is Some && policy.contains(origin->Some_0)
            &&& r.cors.allow_origin is Some ==> r.cors.allow_origin == origin
        }),
{
}

/// `OPTIONS` is answered without looking at any file, on every path.
pub proof fn lemma_preflight_touches_no_file(
    path: Seq<char>,
    file: Option<Seq<char>>,
    range: Option<Seq<char>>,
    cors: CorsModel,
)
    ensures
        decide_spec(Method::Options, path, file, range, cors) is Answer,
{
}

/// The same request against the same file gives the same response, down to
/// the last header and the last byte of the body: a response is determined
/// by the request and by what the file system says of the file, and by
/// nothing that an earlier request has left behind.
pub proof fn lemma_repeatable(
    policy: Seq<Seq<char>>,
    method: Method,
    path: Seq<char>,
    file: Option<Seq<char>>,
    range: Option<Seq<char>>,
    origin: Option<Seq<char>>,
    status: FileStatusModel,
    contents: Seq<u8>,
    first: ResponseModel,
    second: ResponseModel,
)
    requires
        first == respond_spec(policy, method, path, file, range, origin, status),
        second == respond_spec(policy, method, path, file, range, origin, status),
    ensures
        first == second,
        header_lines_spec(first) == header_lines_spec(second),
        body_bytes(first.body, contents) == body_bytes(second.body, contents),
{
}

} // verus!
