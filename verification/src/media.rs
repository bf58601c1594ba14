//! The content type of a file, guessed from the extension of its path.

use crate::text::{char_at, text_of};
use vstd::prelude::*;

verus! {

/// The media type of files whose type is unknown.
pub open spec fn fallback_type() -> Seq<char> {
    "application/octet-stream"@
}

/// `c` separates the components of a path.
pub open spec fn is_separator(c: char) -> bool {
    c == '/' || c == '\\'
}

/// `d` is the position of the dot that starts the extension of `path`: the
/// last dot of the last component, unless that component begins with it.
pub open spec fn is_extension_dot(path: Seq<char>, d: int) -> bool {
    &&& 0 < d < path.len()
    &&& path[d] == '.'
    &&& !is_separator(path[d - 1])
    &&& forall|j: int| d < j < path.len() ==> path[j] != '.' && !is_separator(#[trigger] path[j])
}

/// The extension of `path`: what follows the last dot of its last component.
/// A component without a dot, or whose only dot is its first character, has
/// none.
pub open spec fn extension_spec(path: Seq<char>) -> Option<Seq<char>> {
    if exists|d: int| is_extension_dot(path, d) {
        let d = choose|d: int| is_extension_dot(path, d);
        Some(path.subrange(d + 1, path.len() as int))
    } else {
        None
    }
}

/// The media type that the table of the `mime_guess` crate lists first for
/// the extension `ext`, if it lists any.
pub uninterp spec fn guessed_media_type(ext: Seq<char>) -> Option<Seq<char>>;

/// The content type for a guess: the guess itself, or the fallback.
pub open spec fn type_or_fallback(guess: Option<Seq<char>>) -> Seq<char> {
    match guess {
        Some(t) => t,
        None => fallback_type(),
    }
}

/// The content type of the file at `path`.
pub open spec fn content_type_spec(path: Seq<char>) -> Seq<char> {
    match extension_spec(path) {
        Some(ext) => type_or_fallback(guessed_media_type(ext)),
        None => fallback_type(),
    }
}

/// Looks `ext` up with `mime_guess::from_ext` and takes the first media type
/// of the guess, as `MimeGuess::first_raw` gives it. The lookup reads a table
/// compiled into that crate and nothing else, so the result is a function of
/// `ext`; which type the table holds for an extension is not stated here.
#[verifier::external_body]
fn guess_media_type(ext: &str) -> (r: Option<String>)
    ensures
        text_of(r) == guessed_media_type(ext@),
{
    mime_guess::from_ext(ext).first_raw().map(String::from)
}

/// The extension of `path`, without its dot.
pub fn extension(path: &str) -> (r: Option<&str>)
    ensures
        match r {
            Some(e) => extension_spec(path@) == Some(e@),
            None => extension_spec(path@) is None,
        },
{
    let ascii: bool = path.is_ascii();
    let n: usize = path.unicode_len();
    let mut i: usize = n;
    while i > 0
        invariant
            0 <= i <= n,
            n == path@.len(),
            ascii ==> path.is_ascii(),
            forall|j: int| i <= j < n ==> path@[j] != '.' && !is_separator(#[trigger] path@[j]),
        decreases i,
    {
        let c: char = char_at(path, i - 1, ascii);
        if c == '.' {
            let d: usize = i - 1;
            if d > 0 {
                let p: char = char_at(path, d - 1, ascii);
                if p != '/' && p != '\\' {
                    proof {
                        assert(is_extension_dot(path@, d as int));
                        let k = choose|k: int| is_extension_dot(path@, k);
                        assert(k == d) by {
                            if k < d {
                                assert(!is_separator(path@[d as int]));
                            }
                        }
                    }
                    return Some(path.substring_char(d + 1, n));
                }
            }
            proof {
                assert forall|k: int| !is_extension_dot(path@, k) by {
                    if is_extension_dot(path@, k) {
                        if k < d {
                            assert(!is_separator(path@[d as int]));
                        } else if k > d {
                            assert(!is_separator(path@[k]));
                        }
                    }
                }
            }
            return None;
        }
        if c == '/' || c == '\\' {
            proof {
                let s = (i - 1) as int;
                assert forall|k: int| !is_extension_dot(path@, k) by {
                    if is_extension_dot(path@, k) {
                        if k < s {
                            assert(!is_separator(path@[s]));
                        } else if k > s {
                            assert(!is_separator(path@[k]));
                        }
                    }
                }
            }
            return None;
        }
        i = i - 1;
    }
    proof {
        assert forall|k: int| !is_extension_dot(path@, k) by {
            if is_extension_dot(path@, k) {
                assert(!is_separator(path@[k]));
            }
        }
    }
    None
}

/// The content type for an optional guess: the guess, or
/// `application/octet-stream` where there is none.
pub fn content_type_or_fallback(guess: Option<String>) -> (t: String)
    ensures
        t@ == type_or_fallback(text_of(guess)),
{
    match guess {
        Some(t) => t,
        None => String::from_str("application/octet-stream"),
    }
}

/// The content type of the file at `path`, guessed from its extension;
/// `application/octet-stream` where the path has no extension or the
/// extension is not known.
pub fn content_type_for(path: &str) -> (t: String)
    ensures
        t@ == content_type_spec(path@),
{
    match extension(path) {
        Some(ext) => content_type_or_fallback(guess_media_type(ext)),
        None => String::from_str("application/octet-stream"),
    }
}

} // verus!
