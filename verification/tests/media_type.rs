use local_stream::date::{last_modified_value, DATE_LIMIT};
use local_stream::media::{content_type_for, content_type_or_fallback, extension};

#[test]
fn takes_the_extension_of_the_last_component() {
    assert_eq!(extension("movie.mp4"), Some("mp4"));
    assert_eq!(extension("/home/me/movie.mp4"), Some("mp4"));
    assert_eq!(extension("C:\\Users\\me\\Videos\\clip.final.webm"), Some("webm"));
    assert_eq!(extension("archive.tar.gz"), Some("gz"));
    assert_eq!(extension("/tmp/étude.mkv"), Some("mkv"));
    assert_eq!(extension("/tmp/notes.日本語"), Some("日本語"));
    assert_eq!(extension("name."), Some(""));
}

#[test]
fn finds_no_extension_where_there_is_none() {
    assert_eq!(extension(""), None);
    assert_eq!(extension("movie"), None);
    assert_eq!(extension("/home/me.d/movie"), None);
    assert_eq!(extension("C:\\data.v2\\movie"), None);
    assert_eq!(extension(".bashrc"), None);
    assert_eq!(extension("/home/me/.mp4"), None);
    assert_eq!(extension("dir\\.hidden"), None);
    assert_eq!(extension("/home/me/movie.mp4/"), None);
}

#[test]
fn guesses_the_content_type_from_the_extension() {
    assert_eq!(content_type_for("/home/me/movie.mp4"), "video/mp4");
    assert_eq!(content_type_for("song.mp3"), "audio/mpeg");
    assert_eq!(content_type_for("C:\\Videos\\clip.webm"), "video/webm");
    assert_eq!(content_type_for("readme.txt"), "text/plain");
    assert_eq!(content_type_for("MOVIE.MP4"), "video/mp4");
    assert_eq!(content_type_for("archive.tar.gz"), "application/gzip");
}

#[test]
fn falls_back_to_octet_stream() {
    assert_eq!(content_type_for("movie"), "application/octet-stream");
    assert_eq!(content_type_for("movie.unknown-extension"), "application/octet-stream");
    assert_eq!(content_type_for("/home/me/.mp4"), "application/octet-stream");
    assert_eq!(content_type_for("name."), "application/octet-stream");
    assert_eq!(content_type_for(""), "application/octet-stream");
}

#[test]
fn keeps_a_guess_and_replaces_a_missing_one() {
    assert_eq!(content_type_or_fallback(Some(String::from("video/mp4"))), "video/mp4");
    assert_eq!(content_type_or_fallback(None), "application/octet-stream");
}

#[test]
fn writes_the_time_stamp_as_an_http_date() {
    assert_eq!(
        last_modified_value(Some(784111777)),
        Some(String::from("Sun, 06 Nov 1994 08:49:37 GMT"))
    );
    assert_eq!(
        last_modified_value(Some(0)),
        Some(String::from("Thu, 01 Jan 1970 00:00:00 GMT"))
    );
    assert_eq!(
        last_modified_value(Some(DATE_LIMIT - 1)),
        Some(String::from("Fri, 31 Dec 9999 23:59:59 GMT"))
    );
}

#[test]
fn writes_no_time_stamp_where_there_is_none_to_write() {
    assert_eq!(last_modified_value(None), None);
    assert_eq!(last_modified_value(Some(DATE_LIMIT)), None);
    assert_eq!(last_modified_value(Some(u64::MAX)), None);
}

#[test]
fn agrees_with_the_table_on_ordinary_paths() {
    let directories = ["", "/", "/home/me/", "relative/dir/", "/a.b/c.d/", "./", "/tmp/.cache/"];
    let stems = ["movie", ".hidden", "a.b", "été", "x", "two words", "UPPER", "..a"];
    let endings = [
        "", ".", ".mp4", ".MP4", ".Mp3", ".webm", ".mkv", ".txt", ".tar.gz", ".json", ".png",
        ".wav", ".m4a", ".nothing-known", ".日本語", ".mp4.bak", ".mp4 ",
    ];
    for directory in directories {
        for stem in stems {
            for ending in endings {
                let path = format!("{}{}{}", directory, stem, ending);
                let expected = mime_guess::from_path(&path)
                    .first_raw()
                    .unwrap_or("application/octet-stream");
                assert_eq!(content_type_for(&path), expected, "{:?}", path);
                let extension_of_path =
                    std::path::Path::new(&path).extension().and_then(|e| e.to_str());
                assert_eq!(extension(&path), extension_of_path, "{:?}", path);
            }
        }
    }
}
