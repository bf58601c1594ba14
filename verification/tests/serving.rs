use local_stream::cors::{CorsHeaders, OriginPolicy};
use local_stream::range::{ByteRange, RangeSpec, RequestedRange, Selection};
use local_stream::response::{content_range_value, unsatisfied_range_value, Body, Response};
use local_stream::server::{
    decide, respond, serve, Decision, FileDescriptor, FileStatus, Method, StreamRequest,
    DEFAULT_PORT,
};

const ORIGIN: &str = "http://localhost:1420";

fn file_of(size: usize) -> Vec<u8> {
    (0..size).map(|i| (i % 251) as u8).collect()
}

fn regular(size: u64) -> FileStatus {
    FileStatus::Regular { size, modified: Some(784111777) }
}

fn get(path: &str, range: Option<&str>, status: FileStatus) -> Response {
    respond(
        &OriginPolicy::application(),
        Method::Get,
        "/stream",
        Some(String::from(path)),
        range,
        Some(ORIGIN),
        status,
    )
}

fn line<'a>(lines: &'a [(String, String)], name: &str) -> Option<&'a str> {
    lines.iter().find(|(n, _)| n == name).map(|(_, v)| v.as_str())
}

#[test]
fn knows_methods_by_their_names() {
    assert_eq!(Method::named("GET"), Method::Get);
    assert_eq!(Method::named("HEAD"), Method::Head);
    assert_eq!(Method::named("OPTIONS"), Method::Options);
    assert_eq!(Method::named("POST"), Method::Other);
    assert_eq!(Method::named("get"), Method::Other);
    assert_eq!(Method::named(""), Method::Other);
    assert_eq!(Method::named("GET "), Method::Other);
}

#[test]
fn writes_content_range_values() {
    assert_eq!(content_range_value(ByteRange { start: 100, end: 199 }, 1000), "bytes 100-199/1000");
    assert_eq!(content_range_value(ByteRange { start: 0, end: 0 }, 1), "bytes 0-0/1");
    assert_eq!(
        content_range_value(ByteRange { start: 0, end: u64::MAX - 1 }, u64::MAX),
        "bytes 0-18446744073709551614/18446744073709551615"
    );
    assert_eq!(unsatisfied_range_value(1000), "bytes */1000");
    assert_eq!(unsatisfied_range_value(0), "bytes */0");
}

#[test]
fn listens_on_the_port_of_the_application() {
    assert_eq!(DEFAULT_PORT, 18493);
}

#[test]
fn serves_the_whole_file_without_a_range() {
    let contents = file_of(1000);
    let r = get("/media/movie.mp4", None, regular(1000));
    assert_eq!(r.status, 200);
    assert_eq!(r.content_length, 1000);
    assert_eq!(r.content_type.as_deref(), Some("video/mp4"));
    assert!(r.accept_ranges);
    assert_eq!(r.content_range, None);
    assert_eq!(r.last_modified.as_deref(), Some("Sun, 06 Nov 1994 08:49:37 GMT"));
    assert_eq!(r.body, Body::File { start: 0, length: 1000 });
    assert_eq!(r.body.materialize(&contents, 64), contents);
}

#[test]
fn serves_an_empty_file() {
    let r = get("/media/empty.bin", None, regular(0));
    assert_eq!(r.status, 200);
    assert_eq!(r.content_length, 0);
    assert_eq!(r.body.materialize(&[], 64), Vec::<u8>::new());
}

#[test]
fn serves_bytes_100_to_199_of_1000() {
    let contents = file_of(1000);
    let r = get("/media/movie.mp4", Some("bytes=100-199"), regular(1000));
    assert_eq!(r.status, 206);
    assert_eq!(r.content_range.as_deref(), Some("bytes 100-199/1000"));
    assert_eq!(r.content_length, 100);
    assert_eq!(r.content_type.as_deref(), Some("video/mp4"));
    assert!(r.accept_ranges);
    assert_eq!(r.body, Body::File { start: 100, length: 100 });
    assert_eq!(r.body.materialize(&contents, 64), contents[100..200].to_vec());
}

#[test]
fn serves_an_open_ended_range_to_the_last_byte() {
    let contents = file_of(1000);
    let r = get("/media/movie.mp4", Some("bytes=900-"), regular(1000));
    assert_eq!(r.status, 206);
    assert_eq!(r.content_range.as_deref(), Some("bytes 900-999/1000"));
    assert_eq!(r.content_length, 100);
    assert_eq!(r.body.materialize(&contents, 7), contents[900..].to_vec());
}

#[test]
fn serves_a_suffix() {
    let contents = file_of(1000);
    let r = get("/media/movie.mp4", Some("bytes=-10"), regular(1000));
    assert_eq!(r.status, 206);
    assert_eq!(r.content_range.as_deref(), Some("bytes 990-999/1000"));
    assert_eq!(r.content_length, 10);
    assert_eq!(r.body.materialize(&contents, 4), contents[990..].to_vec());
}

#[test]
fn cuts_a_range_that_runs_past_the_file() {
    let contents = file_of(1000);
    let r = get("/media/movie.mp4", Some("bytes=990-5000"), regular(1000));
    assert_eq!(r.status, 206);
    assert_eq!(r.content_range.as_deref(), Some("bytes 990-999/1000"));
    assert_eq!(r.content_length, 10);
    assert_eq!(r.body.materialize(&contents, 64), contents[990..].to_vec());
}

#[test]
fn refuses_a_range_that_starts_at_the_end_of_the_file() {
    let contents = file_of(1000);
    let r = get("/media/movie.mp4", Some("bytes=1000-1010"), regular(1000));
    assert_eq!(r.status, 416);
    assert_eq!(r.content_range.as_deref(), Some("bytes */1000"));
    assert_eq!(r.content_length, 0);
    assert_eq!(r.content_type, None);
    assert!(r.accept_ranges);
    assert_eq!(r.body, Body::Empty);
    assert_eq!(r.body.materialize(&contents, 64), Vec::<u8>::new());
}

#[test]
fn refuses_an_open_range_beyond_the_file() {
    let r = get("/media/movie.mp4", Some("bytes=1000-"), regular(1000));
    assert_eq!(r.status, 416);
    assert_eq!(r.content_range.as_deref(), Some("bytes */1000"));
    assert_eq!(r.body, Body::Empty);
}

#[test]
fn refuses_every_range_of_an_empty_file() {
    for header in ["bytes=0-", "bytes=0-0", "bytes=-1"] {
        let r = get("/media/empty.bin", Some(header), regular(0));
        assert_eq!(r.status, 416, "{}", header);
        assert_eq!(r.content_range.as_deref(), Some("bytes */0"));
    }
}

#[test]
fn refuses_several_ranges_and_malformed_headers() {
    for header in ["bytes=0-1,5-6", "bytes=abc", "lines=0-1", "bytes=5-2", "bytes=-2000"] {
        let r = get("/media/movie.mp4", Some(header), regular(1000));
        assert_eq!(r.status, 416, "{}", header);
        assert_eq!(r.content_range.as_deref(), Some("bytes */1000"));
        assert_eq!(r.body, Body::Empty);
    }
}

#[test]
fn answers_404_for_a_path_that_does_not_exist() {
    let r = get("/does/not/exist", None, FileStatus::Missing);
    assert_eq!(r.status, 404);
    assert_eq!(r.body, Body::Empty);
    assert_eq!(r.content_length, 0);
    assert!(!r.accept_ranges);
}

#[test]
fn answers_404_for_what_is_not_a_regular_file() {
    for header in [None, Some("bytes=0-1")] {
        let r = get("/home/me", header, FileStatus::NotRegular);
        assert_eq!(r.status, 404);
        assert_eq!(r.body, Body::Empty);
    }
}

#[test]
fn answers_404_for_a_missing_file_whatever_the_range() {
    for header in ["bytes=0-1", "bytes=1000-", "bytes=-5", "garbage", "bytes=0-1,2-3"] {
        let r = get("/does/not/exist", Some(header), FileStatus::Missing);
        assert_eq!(r.status, 404, "{}", header);
        assert_eq!(r.content_range, None);
    }
}

#[test]
fn answers_500_for_a_file_that_cannot_be_read() {
    let status = FileStatus::Unreadable { detail: String::from("Permission denied (os error 13)") };
    let r = get("/root/secret.mp4", Some("bytes=0-1"), status);
    assert_eq!(r.status, 500);
    let text = "Failed to open file: Permission denied (os error 13)";
    assert_eq!(r.body, Body::Text(String::from(text)));
    assert_eq!(r.content_length, text.len() as u64);
    assert_eq!(r.content_type.as_deref(), Some("text/plain; charset=utf-8"));
    assert_eq!(r.body.materialize(&[], 64), text.as_bytes().to_vec());
}

#[test]
fn counts_the_bytes_of_a_text_body() {
    let status = FileStatus::Unreadable { detail: String::from("accès refusé") };
    let r = get("/root/secret.mp4", None, status);
    assert_eq!(r.content_length, "Failed to open file: accès refusé".len() as u64);
    assert_eq!(r.content_length, 35);
}

#[test]
fn gives_a_head_request_the_headers_and_no_body() {
    let r = respond(
        &OriginPolicy::application(),
        Method::Head,
        "/stream",
        Some(String::from("/media/movie.mp4")),
        Some("bytes=100-199"),
        Some(ORIGIN),
        regular(1000),
    );
    assert_eq!(r.status, 206);
    assert_eq!(r.content_range.as_deref(), Some("bytes 100-199/1000"));
    assert_eq!(r.content_length, 100);
    assert_eq!(r.body, Body::Empty);
}

#[test]
fn answers_404_on_any_other_path() {
    let policy = OriginPolicy::application();
    for path in ["/", "/stream/", "/streams", "/Stream", "/file", ""] {
        let d = decide(&policy, Method::Get, path, Some(String::from("/a.mp4")), None, None);
        match d {
            Decision::Answer(r) => assert_eq!(r.status, 404, "{:?}", path),
            Decision::Lookup { .. } => panic!("{:?} must not reach the file system", path),
        }
    }
}

#[test]
fn answers_a_preflight_without_touching_a_file() {
    let policy = OriginPolicy::application();
    for path in ["/stream", "/elsewhere"] {
        let d = decide(
            &policy,
            Method::Options,
            path,
            Some(String::from("/a.mp4")),
            None,
            Some(ORIGIN),
        );
        match d {
            Decision::Answer(r) => {
                assert_eq!(r.status, 204);
                assert_eq!(r.cors.allow_origin.as_deref(), Some(ORIGIN));
                assert_eq!(r.cors.allow_methods.as_deref(), Some("GET"));
                assert_eq!(r.body, Body::Empty);
            }
            Decision::Lookup { .. } => panic!("a preflight must not reach the file system"),
        }
    }
}

#[test]
fn answers_405_for_other_methods() {
    let policy = OriginPolicy::application();
    let d = decide(&policy, Method::Other, "/stream", Some(String::from("/a.mp4")), None, None);
    match d {
        Decision::Answer(r) => {
            assert_eq!(r.status, 405);
            assert_eq!(r.allow.as_deref(), Some("GET,HEAD"));
        }
        Decision::Lookup { .. } => panic!("must not reach the file system"),
    }
}

#[test]
fn answers_400_without_a_file_parameter() {
    let policy = OriginPolicy::application();
    let d = decide(&policy, Method::Get, "/stream", None, Some("bytes=0-1"), None);
    match d {
        Decision::Answer(r) => {
            assert_eq!(r.status, 400);
            assert_eq!(r.body, Body::Text(String::from("Missing query parameter: file")));
            assert_eq!(r.content_length, 29);
        }
        Decision::Lookup { .. } => panic!("must not reach the file system"),
    }
}

#[test]
fn asks_for_the_file_of_a_stream_request() {
    let policy = OriginPolicy::application();
    let d = decide(
        &policy,
        Method::Get,
        "/stream",
        Some(String::from("C:\\Videos\\a b.mp4")),
        Some("bytes=5-"),
        Some(ORIGIN),
    );
    match d {
        Decision::Lookup { request, cors } => {
            assert_eq!(request.file_path, "C:\\Videos\\a b.mp4");
            assert_eq!(
                request.requested_range,
                RequestedRange::Single(RangeSpec::From { first: 5 })
            );
            assert!(!request.head_only);
            assert_eq!(cors.allow_origin.as_deref(), Some(ORIGIN));
        }
        Decision::Answer(_) => panic!("the file must be looked up"),
    }
}

#[test]
fn attaches_cors_headers_for_allowed_origins_only() {
    let policy = OriginPolicy::application();
    let statuses = || {
        vec![
            FileStatus::Missing,
            FileStatus::NotRegular,
            FileStatus::Unreadable { detail: String::from("denied") },
            FileStatus::Regular { size: 10, modified: None },
        ]
    };
    for method in [Method::Get, Method::Head, Method::Options, Method::Other] {
        for path in ["/stream", "/other"] {
            for range in [None, Some("bytes=0-1"), Some("bytes=99-")] {
                for status in statuses() {
                    let file = Some(String::from("/a.mp4"));
                    let r = respond(&policy, method, path, file, range, Some(ORIGIN), status);
                    assert_eq!(r.cors.allow_origin.as_deref(), Some(ORIGIN));
                    assert_eq!(r.cors.allow_methods.as_deref(), Some("GET"));
                }
                for status in statuses() {
                    let file = Some(String::from("/a.mp4"));
                    let origin = Some("https://example.com");
                    let r = respond(&policy, method, path, file, range, origin, status);
                    assert_eq!(r.cors.allow_origin, None);
                    assert_eq!(r.cors.allow_methods, None);
                }
                for status in statuses() {
                    let file = Some(String::from("/a.mp4"));
                    let r = respond(&policy, method, path, file, range, None, status);
                    assert_eq!(r.cors.allow_origin, None);
                }
            }
        }
    }
}

#[test]
fn answers_the_same_request_the_same_way_twice() {
    let contents = file_of(1000);
    let first = get("/media/movie.mp4", Some("bytes=100-199"), regular(1000));
    let second = get("/media/movie.mp4", Some("bytes=100-199"), regular(1000));
    assert_eq!(first, second);
    assert_eq!(first.header_lines(), second.header_lines());
    assert_eq!(first.body.materialize(&contents, 16), second.body.materialize(&contents, 16));
}

#[test]
fn serves_through_the_two_steps() {
    let request = StreamRequest {
        file_path: String::from("/media/song.mp3"),
        requested_range: RequestedRange::Single(RangeSpec::FromTo { first: 0, last: 9 }),
        head_only: false,
    };
    let r = serve(&request, FileStatus::Regular { size: 50, modified: None }, CorsHeaders::none());
    assert_eq!(r.status, 206);
    assert_eq!(r.content_type.as_deref(), Some("audio/mpeg"));
    assert_eq!(r.content_range.as_deref(), Some("bytes 0-9/50"));
    assert_eq!(r.last_modified, None);
    assert_eq!(r.cors.allow_origin, None);
}

#[test]
fn describes_a_file() {
    let d = FileDescriptor::describe("/media/movie.mkv", 42, Some(7));
    assert_eq!(d.size, 42);
    assert_eq!(d.content_type, "video/x-matroska");
    assert_eq!(d.last_modified, Some(7));
}

#[test]
fn builds_the_response_for_a_file() {
    let r = Response::for_file(
        String::from("video/mp4"),
        None,
        1000,
        Selection::Part(ByteRange { start: 0, end: 0 }),
        CorsHeaders::none(),
    );
    assert_eq!(r.status, 206);
    assert_eq!(r.content_range.as_deref(), Some("bytes 0-0/1000"));
    assert_eq!(r.content_length, 1);
    assert_eq!(r.body, Body::File { start: 0, length: 1 });
}

#[test]
fn treats_a_part_outside_the_file_as_unsatisfiable() {
    for range in [ByteRange { start: 5, end: 2 }, ByteRange { start: 0, end: 1000 }] {
        let r = Response::for_file(
            String::from("video/mp4"),
            None,
            1000,
            Selection::Part(range),
            CorsHeaders::none(),
        );
        assert_eq!(r.status, 416);
        assert_eq!(r.content_range.as_deref(), Some("bytes */1000"));
        assert_eq!(r.body, Body::Empty);
    }
}

#[test]
fn writes_the_header_lines_of_a_partial_response() {
    let r = get("/media/movie.mp4", Some("bytes=100-199"), regular(1000));
    let lines = r.header_lines();
    let names: Vec<&str> = lines.iter().map(|(n, _)| n.as_str()).collect();
    assert_eq!(
        names,
        vec![
            "Content-Type",
            "Content-Length",
            "Accept-Ranges",
            "Content-Range",
            "Last-Modified",
            "Access-Control-Allow-Origin",
            "Access-Control-Allow-Methods",
        ]
    );
    assert_eq!(line(&lines, "Content-Type"), Some("video/mp4"));
    assert_eq!(line(&lines, "Content-Length"), Some("100"));
    assert_eq!(line(&lines, "Accept-Ranges"), Some("bytes"));
    assert_eq!(line(&lines, "Content-Range"), Some("bytes 100-199/1000"));
    assert_eq!(line(&lines, "Last-Modified"), Some("Sun, 06 Nov 1994 08:49:37 GMT"));
    assert_eq!(line(&lines, "Access-Control-Allow-Origin"), Some(ORIGIN));
    assert_eq!(line(&lines, "Access-Control-Allow-Methods"), Some("GET"));
}

#[test]
fn writes_the_header_lines_of_other_responses() {
    let r = Response::plain(204, CorsHeaders::none());
    assert_eq!(r.header_lines(), Vec::<(String, String)>::new());

    let r = Response::plain(404, CorsHeaders::none());
    assert_eq!(r.header_lines(), vec![(String::from("Content-Length"), String::from("0"))]);

    let policy = OriginPolicy::application();
    let r = respond(&policy, Method::Other, "/stream", None, None, None, FileStatus::Missing);
    assert_eq!(
        r.header_lines(),
        vec![
            (String::from("Content-Length"), String::from("0")),
            (String::from("Allow"), String::from("GET,HEAD")),
        ]
    );

    let r = Response::text(400, String::from("no"), CorsHeaders::none());
    assert_eq!(
        r.header_lines(),
        vec![
            (String::from("Content-Type"), String::from("text/plain; charset=utf-8")),
            (String::from("Content-Length"), String::from("2")),
        ]
    );
}

#[test]
fn drops_the_body_and_keeps_the_headers() {
    let full = get("/media/movie.mp4", None, regular(1000));
    let lines = full.header_lines();
    let head = full.headers_only();
    assert_eq!(head.body, Body::Empty);
    assert_eq!(head.content_length, 1000);
    assert_eq!(head.header_lines(), lines);
}
