//! Responses: status, the headers this server sets, and what the body is
//! made of. A body that comes from the file is described by its place in the
//! file, never held in memory.

use crate::cors::{CorsHeaders, CorsModel};
use crate::decimal::{format_number, numeral, push_number};
use crate::range::{ByteRange, Selection};
use crate::text::text_of;
use crate::transfer::{copy_range, deliverable};
use vstd::prelude::*;
use vstd::slice::slice_to_vec;
use vstd::utf8::encode_utf8;

verus! {

pub const STATUS_OK: u16 = 200;

pub const STATUS_NO_CONTENT: u16 = 204;

pub const STATUS_PARTIAL_CONTENT: u16 = 206;

pub const STATUS_BAD_REQUEST: u16 = 400;

pub const STATUS_NOT_FOUND: u16 = 404;

pub const STATUS_METHOD_NOT_ALLOWED: u16 = 405;

pub const STATUS_RANGE_NOT_SATISFIABLE: u16 = 416;

pub const STATUS_INTERNAL_SERVER_ERROR: u16 = 500;

/// The body of a response.
#[derive(Debug, PartialEq, Eq)]
pub enum Body {
    /// No body.
    Empty,
    /// A short text, sent as UTF-8.
    Text(String),
    /// `length` bytes of the file, starting at offset `start`.
    File { start: u64, length: u64 },
}

/// The model of [`Body`].
pub enum BodyModel {
    Empty,
    Text(Seq<char>),
    File { start: u64, length: u64 },
}

/// A response, ready to be written out.
#[derive(Debug, PartialEq, Eq)]
pub struct Response {
    pub status: u16,
    /// `Content-Type`.
    pub content_type: Option<String>,
    /// `Content-Length`.
    pub content_length: u64,
    /// Whether the response carries `Accept-Ranges: bytes`.
    pub accept_ranges: bool,
    /// `Content-Range`.
    pub content_range: Option<String>,
    /// `Last-Modified`.
    pub last_modified: Option<String>,
    /// `Allow`.
    pub allow: Option<String>,
    /// The cross-origin headers.
    pub cors: CorsHeaders,
    pub body: Body,
}

/// The model of [`Response`].
pub struct ResponseModel {
    pub status: u16,
    pub content_type: Option<Seq<char>>,
    pub content_length: u64,
    pub accept_ranges: bool,
    pub content_range: Option<Seq<char>>,
    pub last_modified: Option<Seq<char>>,
    pub allow: Option<Seq<char>>,
    pub cors: CorsModel,
    pub body: BodyModel,
}

impl View for Body {
    type V = BodyModel;

    open spec fn view(&self) -> BodyModel {
        match self {
            Body::Empty => BodyModel::Empty,
            Body::Text(t) => BodyModel::Text(t@),
            Body::File { start, length } => BodyModel::File { start: *start, length: *length },
        }
    }
}

impl View for Response {
    type V = ResponseModel;

    open spec fn view(&self) -> ResponseModel {
        ResponseModel {
            status: self.status,
            content_type: text_of(self.content_type),
            content_length: self.content_length,
            accept_ranges: self.accept_ranges,
            content_range: text_of(self.content_range),
            last_modified: text_of(self.last_modified),
            allow: text_of(self.allow),
            cors: self.cors@,
            body: self.body@,
        }
    }
}

/// The content type of text bodies.
pub open spec fn text_type() -> Seq<char> {
    "text/plain; charset=utf-8"@
}

/// The `Content-Range` of a partial response: `bytes start-end/size`.
pub open spec fn content_range_text(range: ByteRange, size: u64) -> Seq<char> {
    "bytes "@ + numeral(range.start as nat) + "-"@ + numeral(range.end as nat) + "/"@ + numeral(
        size as nat,
    )
}

/// The `Content-Range` of a response to a range that cannot be satisfied:
/// `bytes */size`.
pub open spec fn unsatisfied_range_text(size: u64) -> Seq<char> {
    "bytes */"@ + numeral(size as nat)
}

/// The bytes that a body puts on the wire, for a file with the given
/// contents: for a body that comes from the file, the bytes of its range as
/// far as the file has them.
pub open spec fn body_bytes(body: BodyModel, contents: Seq<u8>) -> Seq<u8> {
    match body {
        BodyModel::Empty => Seq::empty(),
        BodyModel::Text(t) => encode_utf8(t),
        BodyModel::File { start, length } => deliverable(contents, start, length),
    }
}

/// A response with the given status and nothing else but the cross-origin
/// headers.
pub open spec fn plain_spec(status: u16, cors: CorsModel) -> ResponseModel {
    ResponseModel {
        status,
        content_type: None,
        content_length: 0,
        accept_ranges: false,
        content_range: None,
        last_modified: None,
        allow: None,
        cors,
        body: BodyModel::Empty,
    }
}

/// A response with the given status and a text as its body.
pub open spec fn text_spec(status: u16, text: Seq<char>, cors: CorsModel) -> ResponseModel {
    ResponseModel {
        status,
        content_type: Some(text_type()),
        content_length: encode_utf8(text).len() as u64,
        accept_ranges: false,
        content_range: None,
        last_modified: None,
        allow: None,
        cors,
        body: BodyModel::Text(text),
    }
}

/// A selection held against the size of the file: a part that does not lie
/// inside the file selects nothing.
pub open spec fn fitted_spec(selection: Selection, size: u64) -> Selection {
    match selection {
        Selection::Part(range) => if range.fits(size) {
            selection
        } else {
            Selection::Unsatisfiable
        },
        _ => selection,
    }
}

/// The response for a file of `size` bytes of which the request selects
/// `selection`:
/// - the whole file: 200, the file's size as length, all of its bytes;
/// - a part: 206, `Content-Range: bytes start-end/size`, the part's size as
///   length, exactly its bytes;
/// - nothing, or a part that does not lie inside the file: 416, `Content-Range: bytes */size`, no content type, no body.
///
/// All three advertise that ranges are accepted and carry the time stamp.
pub open spec fn file_response_spec(
    content_type: Seq<char>,
    last_modified: Option<Seq<char>>,
    size: u64,
    selection: Selection,
    cors: CorsModel,
) -> ResponseModel {
    match fitted_spec(selection, size) {
        Selection::Whole => ResponseModel {
            status: STATUS_OK,
            content_type: Some(content_type),
            content_length: size,
            accept_ranges: true,
            content_range: None,
            last_modified,
            allow: None,
            cors,
            body: BodyModel::File { start: 0, length: size },
        },
        Selection::Part(range) => ResponseModel {
            status: STATUS_PARTIAL_CONTENT,
            content_type: Some(content_type),
            content_length: range.spec_len() as u64,
            accept_ranges: true,
            content_range: Some(content_range_text(range, size)),
            last_modified,
            allow: None,
            cors,
            body: BodyModel::File { start: range.start, length: range.spec_len() as u64 },
        },
        Selection::Unsatisfiable => ResponseModel {
            status: STATUS_RANGE_NOT_SATISFIABLE,
            content_type: None,
            content_length: 0,
            accept_ranges: true,
            content_range: Some(unsatisfied_range_text(size)),
            last_modified,
            allow: None,
            cors,
            body: BodyModel::Empty,
        },
    }
}

/// The same response without its body, as a `HEAD` request gets it: every
/// header stays as it is.
pub open spec fn headers_only_spec(r: ResponseModel) -> ResponseModel {
    ResponseModel { body: BodyModel::Empty, ..r }
}

/// One header line where `value` is present, none where it is not.
pub open spec fn optional_line(name: Seq<char>, value: Option<Seq<char>>) -> Seq<
    (Seq<char>, Seq<char>),
> {
    match value {
        Some(v) => seq![(name, v)],
        None => Seq::empty(),
    }
}

/// One header line where `present` holds, none where it does not.
pub open spec fn conditional_line(present: bool, name: Seq<char>, value: Seq<char>) -> Seq<
    (Seq<char>, Seq<char>),
> {
    if present {
        seq![(name, value)]
    } else {
        Seq::empty()
    }
}

/// The header lines of a response, as names and values in the order in
/// which they are written. `Content-Length` is left out of a 204, which by
/// definition has no content.
pub open spec fn header_lines_spec(r: ResponseModel) -> Seq<(Seq<char>, Seq<char>)> {
    optional_line("Content-Type"@, r.content_type) + conditional_line(
        r.status != STATUS_NO_CONTENT,
        "Content-Length"@,
        numeral(r.content_length as nat),
    ) + conditional_line(r.accept_ranges, "Accept-Ranges"@, "bytes"@) + optional_line(
        "Content-Range"@,
        r.content_range,
    ) + optional_line("Last-Modified"@, r.last_modified) + optional_line("Allow"@, r.allow)
        + optional_line("Access-Control-Allow-Origin"@, r.cors.allow_origin) + optional_line(
        "Access-Control-Allow-Methods"@,
        r.cors.allow_methods,
    )
}

/// The names and values of a list of header lines.
pub open spec fn lines_view(lines: Seq<(String, String)>) -> Seq<(Seq<char>, Seq<char>)> {
    Seq::new(lines.len(), |i: int| (lines[i].0@, lines[i].1@))
}

fn push_line(lines: &mut Vec<(String, String)>, present: bool, name: &str, value: String)
    ensures
        lines_view(final(lines)@) == lines_view(old(lines)@) + conditional_line(
            present,
            name@,
            value@,
        ),
{
    if present {
        lines.push((String::from_str(name), value));
    }
    assert(lines_view(lines@) =~= lines_view(old(lines)@) + conditional_line(
        present,
        name@,
        value@,
    ));
}

fn push_optional_line(lines: &mut Vec<(String, String)>, name: &str, value: &Option<String>)
    ensures
        lines_view(final(lines)@) == lines_view(old(lines)@) + optional_line(
            name@,
            text_of(*value),
        ),
{
    match value {
        Some(v) => {
            lines.push((String::from_str(name), v.clone()));
        },
        None => {},
    }
    assert(lines_view(lines@) =~= lines_view(old(lines)@) + optional_line(
        name@,
        text_of(*value),
    ));
}

/// The value of `Content-Range` for a partial response.
pub fn content_range_value(range: ByteRange, size: u64) -> (s: String)
    ensures
        s@ == content_range_text(range, size),
{
    let mut s: String = String::from_str("bytes ");
    push_number(&mut s, range.start);
    s.append("-");
    push_number(&mut s, range.end);
    s.append("/");
    push_number(&mut s, size);
    s
}

/// The value of `Content-Range` where the range cannot be satisfied.
pub fn unsatisfied_range_value(size: u64) -> (s: String)
    ensures
        s@ == unsatisfied_range_text(size),
{
    let mut s: String = String::from_str("bytes */");
    push_number(&mut s, size);
    s
}

impl Body {
    /// The bytes of the body for a file whose contents are held in memory,
    /// gathered in pieces of at most `chunk` bytes.
    pub fn materialize(&self, contents: &[u8], chunk: u64) -> (out: Vec<u8>)
        ensures
            out@ == body_bytes(self@, contents@),
    {
        match self {
            Body::Empty => Vec::new(),
            Body::Text(t) => slice_to_vec(t.as_str().as_bytes()),
            Body::File { start, length } => copy_range(contents, *start, *length, chunk),
        }
    }
}

impl Response {
    /// A response with a status, the cross-origin headers and no body.
    pub fn plain(status: u16, cors: CorsHeaders) -> (r: Response)
        ensures
            r@ == plain_spec(status, cors@),
    {
        Response {
            status,
            content_type: None,
            content_length: 0,
            accept_ranges: false,
            content_range: None,
            last_modified: None,
            allow: None,
            cors,
            body: Body::Empty,
        }
    }

    /// A response with a status and a text as its body.
    pub fn text(status: u16, text: String, cors: CorsHeaders) -> (r: Response)
        ensures
            r@ == text_spec(status, text@, cors@),
    {
        let length: usize = text.as_str().as_bytes().len();
        Response {
            status,
            content_type: Some(String::from_str("text/plain; charset=utf-8")),
            content_length: length as u64,
            accept_ranges: false,
            content_range: None,
            last_modified: None,
            allow: None,
            cors,
            body: Body::Text(text),
        }
    }

    /// The response for a file with the given content type, time stamp and
    /// size, of which the request selects `selection`.
    pub fn for_file(
        content_type: String,
        last_modified: Option<String>,
        size: u64,
        selection: Selection,
        cors: CorsHeaders,
    ) -> (r: Response)
        ensures
            r@ == file_response_spec(content_type@, text_of(last_modified), size, selection, cors@),
    {
        let selection: Selection = match selection {
            Selection::Part(range) => {
                if range.start <= range.end && range.end < size {
                    selection
                } else {
                    Selection::Unsatisfiable
                }
            },
            _ => selection,
        };
        match selection {
            Selection::Whole => Response {
                status: STATUS_OK,
                content_type: Some(content_type),
                content_length: size,
                accept_ranges: true,
                content_range: None,
                last_modified,
                allow: None,
                cors,
                body: Body::File { start: 0, length: size },
            },
            Selection::Part(range) => {
                let length: u64 = range.len();
                Response {
                    status: STATUS_PARTIAL_CONTENT,
                    content_type: Some(content_type),
                    content_length: length,
                    accept_ranges: true,
                    content_range: Some(content_range_value(range, size)),
                    last_modified,
                    allow: None,
                    cors,
                    body: Body::File { start: range.start, length },
                }
            },
            Selection::Unsatisfiable => Response {
                status: STATUS_RANGE_NOT_SATISFIABLE,
                content_type: None,
                content_length: 0,
                accept_ranges: true,
                content_range: Some(unsatisfied_range_value(size)),
                last_modified,
                allow: None,
                cors,
                body: Body::Empty,
            },
        }
    }

    /// The header lines of the response, in the order in which they are
    /// written.
    pub fn header_lines(&self) -> (lines: Vec<(String, String)>)
        ensures
            lines_view(lines@) == header_lines_spec(self@),
    {
        let mut lines: Vec<(String, String)> = Vec::new();
        assert(lines_view(lines@) =~= Seq::empty());
        push_optional_line(&mut lines, "Content-Type", &self.content_type);
        push_line(
            &mut lines,
            self.status != STATUS_NO_CONTENT,
            "Content-Length",
            format_number(self.content_length),
        );
        push_line(&mut lines, self.accept_ranges, "Accept-Ranges", String::from_str("bytes"));
        push_optional_line(&mut lines, "Content-Range", &self.content_range);
        push_optional_line(&mut lines, "Last-Modified", &self.last_modified);
        push_optional_line(&mut lines, "Allow", &self.allow);
        push_optional_line(&mut lines, "Access-Control-Allow-Origin", &self.cors.allow_origin);
        push_optional_line(&mut lines, "Access-Control-Allow-Methods", &self.cors.allow_methods);
        lines
    }

    /// The same response without its body.
    pub fn headers_only(self) -> (r: Response)
        ensures
            r@ == headers_only_spec(self@),
    {
        Response {
            status: self.status,
            content_type: self.content_type,
            content_length: self.content_length,
            accept_ranges: self.accept_ranges,
            content_range: self.content_range,
            last_modified: self.last_modified,
            allow: self.allow,
            cors: self.cors,
            body: Body::Empty,
        }
    }
}

} // verus!
