//! Cross-origin policy: a fixed list of origins that may read responses.
//!
//! No request is turned away on account of its origin. The policy decides
//! which responses carry the headers that let a browser hand the response to
//! the page that asked; a browser discards a response without them.

use crate::text::{same_text, slice_text_of, text_of};
use vstd::prelude::*;

verus! {

/// The list of origins that are allowed to read responses.
#[derive(Debug, PartialEq, Eq)]
pub struct OriginPolicy {
    pub allowed: Vec<String>,
}

/// The cross-origin headers of one response.
#[derive(Debug, PartialEq, Eq)]
pub struct CorsHeaders {
    /// `Access-Control-Allow-Origin`.
    pub allow_origin: Option<String>,
    /// `Access-Control-Allow-Methods`.
    pub allow_methods: Option<String>,
}

/// The model of [`CorsHeaders`].
pub struct CorsModel {
    pub allow_origin: Option<Seq<char>>,
    pub allow_methods: Option<Seq<char>>,
}

/// The methods that an allowed origin may use.
pub open spec fn allowed_methods() -> Seq<char> {
    "GET"@
}

/// The origins of the application's own pages: the development server under
/// both of its loopback names, and the two forms of the packaged
/// application's internal origin.
pub open spec fn application_origins() -> Seq<Seq<char>> {
    seq![
        "http://localhost:1420"@,
        "http://127.0.0.1:1420"@,
        "tauri://localhost"@,
        "https://tauri.localhost"@,
    ]
}

/// The headers for a request with the given `Origin` header, if any, under a
/// list of allowed origins: both headers for a listed origin, the first one
/// echoing it; none for any other origin and none without an origin.
pub open spec fn cors_spec(allowed: Seq<Seq<char>>, origin: Option<Seq<char>>) -> CorsModel {
    match origin {
        Some(o) => if allowed.contains(o) {
            CorsModel { allow_origin: Some(o), allow_methods: Some(allowed_methods()) }
        } else {
            CorsModel { allow_origin: None, allow_methods: None }
        },
        None => CorsModel { allow_origin: None, allow_methods: None },
    }
}

impl View for CorsHeaders {
    type V = CorsModel;

    open spec fn view(&self) -> CorsModel {
        CorsModel {
            allow_origin: text_of(self.allow_origin),
            allow_methods: text_of(self.allow_methods),
        }
    }
}

impl View for OriginPolicy {
    type V = Seq<Seq<char>>;

    open spec fn view(&self) -> Seq<Seq<char>> {
        Seq::new(self.allowed@.len(), |i: int| self.allowed@[i]@)
    }
}

impl CorsHeaders {
    /// No cross-origin headers.
    pub fn none() -> (h: CorsHeaders)
        ensures
            h@ == (CorsModel { allow_origin: None, allow_methods: None }),
    {
        CorsHeaders { allow_origin: None, allow_methods: None }
    }
}

impl OriginPolicy {
    /// A policy that allows exactly the given origins.
    pub fn new(allowed: Vec<String>) -> (p: OriginPolicy)
        ensures
            p.allowed == allowed,
    {
        OriginPolicy { allowed }
    }

    /// The policy of the application: its own four origins.
    pub fn application() -> (p: OriginPolicy)
        ensures
            p@ == application_origins(),
    {
        let mut allowed: Vec<String> = Vec::new();
        allowed.push(String::from_str("http://localhost:1420"));
        allowed.push(String::from_str("http://127.0.0.1:1420"));
        allowed.push(String::from_str("tauri://localhost"));
        allowed.push(String::from_str("https://tauri.localhost"));
        let p = OriginPolicy { allowed };
        assert(p@ =~= application_origins());
        p
    }

    /// Whether `origin` is on the list. Origins are compared character by
    /// character: no case folding, no default ports.
    pub fn allows(&self, origin: &str) -> (r: bool)
        ensures
            r == self@.contains(origin@),
    {
        let mut i: usize = 0;
        while i < self.allowed.len()
            invariant
                0 <= i <= self.allowed.len(),
                forall|j: int| 0 <= j < i ==> self@[j] != origin@,
            decreases self.allowed.len() - i,
        {
            if same_text(self.allowed[i].as_str(), origin) {
                assert(self@[i as int] == origin@);
                return true;
            }
            i = i + 1;
        }
        false
    }

    /// The cross-origin headers for a request with the given `Origin`
    /// header, if it has one.
    pub fn headers_for(&self, origin: Option<&str>) -> (h: CorsHeaders)
        ensures
            h@ == cors_spec(self@, slice_text_of(origin)),
    {
        match origin {
            Some(o) => {
                if self.allows(o) {
                    CorsHeaders {
                        allow_origin: Some(String::from_str(o)),
                        allow_methods: Some(String::from_str("GET")),
                    }
                } else {
                    CorsHeaders::none()
                }
            },
            None => CorsHeaders::none(),
        }
    }
}

} // verus!
