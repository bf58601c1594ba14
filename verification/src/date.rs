//! Time stamps in the form that HTTP headers carry.

use crate::text::text_of;
use vstd::prelude::*;

verus! {

/// The first second that has no HTTP date: the start of the year 10000.
pub const DATE_LIMIT: u64 = 253402300800;

/// The HTTP date of the instant `secs` seconds after the Unix epoch, as the
/// `httpdate` crate writes it.
pub uninterp spec fn http_date_text(secs: u64) -> Seq<char>;

/// The value of a `Last-Modified` header for a file changed at `modified`
/// seconds after the Unix epoch: none where the time is unknown or has no
/// HTTP date.
pub open spec fn last_modified_text(modified: Option<u64>) -> Option<Seq<char>> {
    match modified {
        Some(secs) => if secs < DATE_LIMIT {
            Some(http_date_text(secs))
        } else {
            None
        },
        None => None,
    }
}

/// Formats the instant `secs` seconds after the Unix epoch with
/// `httpdate::fmt_http_date`. That function works on the seconds since the
/// epoch alone, in GMT, and panics from the year 10000 on, which `requires`
/// leaves out. What the text looks like is not stated here.
#[verifier::external_body]
fn http_date(secs: u64) -> (s: String)
    requires
        secs < DATE_LIMIT,
    ensures
        s@ == http_date_text(secs),
{
    httpdate::fmt_http_date(std::time::UNIX_EPOCH + std::time::Duration::from_secs(secs))
}

/// The value of the `Last-Modified` header for a file changed at `modified`
/// seconds after the Unix epoch, if that time is known and has an HTTP date.
pub fn last_modified_value(modified: Option<u64>) -> (r: Option<String>)
    ensures
        text_of(r) == last_modified_text(modified),
{
    match modified {
        Some(secs) => {
            if secs < DATE_LIMIT {
                Some(http_date(secs))
            } else {
                None
            }
        },
        None => None,
    }
}

} // verus!
