//! Byte ranges: the grammar of the `Range` request header and the rule by
//! which a requested range is fitted to a file of a given size.
//!
//! Exactly one range per request is served. A header that is not of the form
//! `bytes=first-last`, `bytes=first-` or `bytes=-length`, with canonical
//! decimal numbers and no white space, selects nothing: this covers malformed
//! headers, other units and lists of several ranges alike.

use crate::decimal::{
    all_digits, is_canonical, is_digit, lemma_numeral_round_trip, numeral, parse_number,
    parse_spec,
};
use crate::text::{slice_text_of, starts_with_ascii};
use vstd::prelude::*;
use vstd::utf8::is_ascii_chars;

verus! {

/// A range as the client wrote it, before it is held against a file.
#[derive(Clone, Copy, Debug, PartialEq, Eq, Structural)]
pub enum RangeSpec {
    /// `first-last`: from offset `first` up to and including offset `last`.
    FromTo { first: u64, last: u64 },
    /// `first-`: from offset `first` to the end of the file.
    From { first: u64 },
    /// `-length`: the last `length` bytes of the file.
    Suffix { length: u64 },
}

/// A range of a file, both ends inclusive.
#[derive(Clone, Copy, Debug, PartialEq, Eq, Structural)]
pub struct ByteRange {
    pub start: u64,
    pub end: u64,
}

/// What the `Range` header of a request asks for.
#[derive(Clone, Copy, Debug, PartialEq, Eq, Structural)]
pub enum RequestedRange {
    /// No `Range` header.
    Whole,
    /// One well-formed range.
    Single(RangeSpec),
    /// A `Range` header that is not one well-formed range of bytes.
    Unsupported,
}

/// What a request selects of a file.
#[derive(Clone, Copy, Debug, PartialEq, Eq, Structural)]
pub enum Selection {
    /// No `Range` header: the whole file.
    Whole,
    /// One satisfiable range.
    Part(ByteRange),
    /// A `Range` header that selects nothing of this file.
    Unsatisfiable,
}

impl ByteRange {
    /// The range lies inside a file of `size` bytes and is not empty.
    pub open spec fn fits(self, size: u64) -> bool {
        self.start <= self.end < size
    }

    /// The number of bytes in the range.
    pub open spec fn spec_len(self) -> int {
        self.end - self.start + 1
    }

    /// The number of bytes in the range.
    pub fn len(&self) -> (n: u64)
        requires
            self.start <= self.end < u64::MAX,
        ensures
            n == self.spec_len(),
    {
        self.end - self.start + 1
    }
}

/// The unit prefix that every accepted header starts with.
pub open spec fn unit_prefix() -> Seq<char> {
    seq!['b', 'y', 't', 'e', 's', '=']
}

/// `d` is the position of the first `-` in `s`.
pub open spec fn is_first_dash(s: Seq<char>, d: int) -> bool {
    &&& 0 <= d < s.len()
    &&& s[d] == '-'
    &&& forall|j: int| 0 <= j < d ==> s[j] != '-'
}

/// The range that the text after the unit prefix denotes, if it is a single
/// well-formed range. The text is cut at its first `-`; what stands before
/// and after must each be empty or a canonical number that fits in 64 bits,
/// not both empty, and a suffix length must not be zero.
pub open spec fn range_text_spec(s: Seq<char>) -> Option<RangeSpec> {
    if exists|d: int| is_first_dash(s, d) {
        let d = choose|d: int| is_first_dash(s, d);
        let before = s.subrange(0, d);
        let after = s.subrange(d + 1, s.len() as int);
        if before.len() == 0 {
            match parse_spec(after) {
                Some(length) => if length == 0 {
                    None
                } else {
                    Some(RangeSpec::Suffix { length })
                },
                None => None,
            }
        } else {
            match parse_spec(before) {
                Some(first) => if after.len() == 0 {
                    Some(RangeSpec::From { first })
                } else {
                    match parse_spec(after) {
                        Some(last) => Some(RangeSpec::FromTo { first, last }),
                        None => None,
                    }
                },
                None => None,
            }
        }
    } else {
        None
    }
}

/// The range that the header value `h` denotes, if it is the unit prefix
/// followed by a single well-formed range.
pub open spec fn range_header_spec(h: Seq<char>) -> Option<RangeSpec> {
    if h.len() >= 6 && h.subrange(0, 6) == unit_prefix() {
        range_text_spec(h.subrange(6, h.len() as int))
    } else {
        None
    }
}

/// The part of a file of `size` bytes that `spec` selects, if any.
///
/// A range that starts at or beyond the end of the file, runs backwards, or
/// asks for a suffix longer than the file selects nothing. An end beyond the
/// last byte is cut back to the last byte.
pub open spec fn resolve_spec(spec: RangeSpec, size: u64) -> Option<ByteRange> {
    match spec {
        RangeSpec::FromTo { first, last } => if first < size && first <= last {
            Some(
                ByteRange { start: first, end: if last < size {
                    last
                } else {
                    (size - 1) as u64
                } },
            )
        } else {
            None
        },
        RangeSpec::From { first } => if first < size {
            Some(ByteRange { start: first, end: (size - 1) as u64 })
        } else {
            None
        },
        RangeSpec::Suffix { length } => if 0 < length <= size {
            Some(ByteRange { start: (size - length) as u64, end: (size - 1) as u64 })
        } else {
            None
        },
    }
}

/// What the `Range` header of a request asks for.
pub open spec fn requested_spec(header: Option<Seq<char>>) -> RequestedRange {
    match header {
        None => RequestedRange::Whole,
        Some(h) => match range_header_spec(h) {
            None => RequestedRange::Unsupported,
            Some(spec) => RequestedRange::Single(spec),
        },
    }
}

/// What a request selects of a file of `size` bytes.
pub open spec fn select_spec(requested: RequestedRange, size: u64) -> Selection {
    match requested {
        RequestedRange::Whole => Selection::Whole,
        RequestedRange::Unsupported => Selection::Unsatisfiable,
        RequestedRange::Single(spec) => match resolve_spec(spec, size) {
            None => Selection::Unsatisfiable,
            Some(range) => Selection::Part(range),
        },
    }
}

/// The text of a range in canonical form, as it stands after the unit
/// prefix.
pub open spec fn range_text(spec: RangeSpec) -> Seq<char> {
    match spec {
        RangeSpec::FromTo { first, last } => numeral(first as nat) + seq!['-'] + numeral(
            last as nat,
        ),
        RangeSpec::From { first } => numeral(first as nat) + seq!['-'],
        RangeSpec::Suffix { length } => seq!['-'] + numeral(length as nat),
    }
}

/// The header value that asks for `spec`.
pub open spec fn range_header_text(spec: RangeSpec) -> Seq<char> {
    unit_prefix() + range_text(spec)
}

/// A canonical number holds no `-` and only ASCII characters.
proof fn lemma_number_chars(s: Seq<char>)
    requires
        all_digits(s),
    ensures
        is_ascii_chars(s),
        forall|j: int| 0 <= j < s.len() ==> s[j] != '-',
{
    assert forall|j: int| 0 <= j < s.len() implies '\0' <= #[trigger] s[j] <= '\u{7f}' && s[j]
        != '-' by {
        assert(is_digit(s[j]));
    }
}

/// Every header value that denotes a range is plain ASCII.
pub proof fn lemma_range_header_is_ascii(h: Seq<char>)
    requires
        range_header_spec(h) is Some,
    ensures
        is_ascii_chars(h),
{
    let s = h.subrange(6, h.len() as int);
    let d = choose|d: int| is_first_dash(s, d);
    let before = s.subrange(0, d);
    let after = s.subrange(d + 1, s.len() as int);
    assert(before.len() == 0 || is_canonical(before));
    assert(after.len() == 0 || is_canonical(after));
    assert forall|i: int| 0 <= i < h.len() implies '\0' <= #[trigger] h[i] <= '\u{7f}' by {
        if i < 6 {
            assert(h[i] == h.subrange(0, 6)[i]);
        } else if i - 6 < d {
            assert(h[i] == before[i - 6]);
            assert(is_digit(before[i - 6]));
        } else if i - 6 == d {
            assert(h[i] == s[d]);
        } else {
            assert(h[i] == after[i - 6 - d - 1]);
            assert(is_digit(after[i - 6 - d - 1]));
        }
    }
}

/// The grammar reads back what the canonical text of a range says: a header
/// written from a range parses to that range. A suffix of length zero has a
/// text and no meaning, and is left out.
pub proof fn lemma_range_text_round_trip(spec: RangeSpec)
    requires
        spec matches RangeSpec::Suffix { length } ==> length != 0,
    ensures
        range_header_spec(range_header_text(spec)) == Some(spec),
{
    let h = range_header_text(spec);
    let s = range_text(spec);
    assert(h.subrange(0, 6) =~= unit_prefix());
    assert(h.subrange(6, h.len() as int) =~= s);
    match spec {
        RangeSpec::FromTo { first, last } => {
            let a = numeral(first as nat);
            let b = numeral(last as nat);
            lemma_numeral_round_trip(first as nat);
            lemma_numeral_round_trip(last as nat);
            lemma_number_chars(a);
            let d = a.len() as int;
            assert(is_first_dash(s, d)) by {
                assert forall|j: int| 0 <= j < d implies s[j] != '-' by {
                    assert(s[j] == a[j]);
                }
            }
            let k = choose|k: int| is_first_dash(s, k);
            assert(k == d);
            assert(s.subrange(0, d) =~= a);
            assert(s.subrange(d + 1, s.len() as int) =~= b);
        },
        RangeSpec::From { first } => {
            let a = numeral(first as nat);
            lemma_numeral_round_trip(first as nat);
            lemma_number_chars(a);
            let d = a.len() as int;
            assert(is_first_dash(s, d)) by {
                assert forall|j: int| 0 <= j < d implies s[j] != '-' by {
                    assert(s[j] == a[j]);
                }
            }
            let k = choose|k: int| is_first_dash(s, k);
            assert(k == d);
            assert(s.subrange(0, d) =~= a);
            assert(s.subrange(d + 1, s.len() as int) =~= Seq::<char>::empty());
        },
        RangeSpec::Suffix { length } => {
            let b = numeral(length as nat);
            lemma_numeral_round_trip(length as nat);
            assert(is_first_dash(s, 0));
            let k = choose|k: int| is_first_dash(s, k);
            assert(k == 0);
            assert(s.subrange(0, 0) =~= Seq::<char>::empty());
            assert(s.subrange(1, s.len() as int) =~= b);
        },
    }
}

/// Fits a requested range to a file of `size` bytes.
pub fn resolve(spec: RangeSpec, size: u64) -> (r: Option<ByteRange>)
    ensures
        r == resolve_spec(spec, size),
        r matches Some(range) ==> range.fits(size),
{
    match spec {
        RangeSpec::FromTo { first, last } => {
            if first < size && first <= last {
                let end: u64 = if last < size {
                    last
                } else {
                    size - 1
                };
                Some(ByteRange { start: first, end })
            } else {
                None
            }
        },
        RangeSpec::From { first } => {
            if first < size {
                Some(ByteRange { start: first, end: size - 1 })
            } else {
                None
            }
        },
        RangeSpec::Suffix { length } => {
            if 0 < length && length <= size {
                Some(ByteRange { start: size - length, end: size - 1 })
            } else {
                None
            }
        },
    }
}

/// Reads the text after the unit prefix as a single range.
fn parse_range_text(s: &str) -> (r: Option<RangeSpec>)
    requires
        s.is_ascii(),
    ensures
        r == range_text_spec(s@),
{
    let n: usize = s.unicode_len();
    let mut d: usize = 0;
    while d < n && s.get_ascii(d) != 45u8
        invariant
            0 <= d <= n,
            n == s@.len(),
            s.is_ascii(),
            forall|j: int| 0 <= j < d ==> s@[j] != '-',
        decreases n - d,
    {
        d = d + 1;
    }
    if d == n {
        proof {
            assert(!exists|k: int| is_first_dash(s@, k));
        }
        return None;
    }
    proof {
        assert(s@[d as int] == '-');
        assert(is_first_dash(s@, d as int));
        let k = choose|k: int| is_first_dash(s@, k);
        assert(k == d);
    }
    let before: &str = s.substring_ascii(0, d);
    let after: &str = s.substring_ascii(d + 1, n);
    if d == 0 {
        match parse_number(after) {
            Some(length) => {
                if length == 0 {
                    None
                } else {
                    Some(RangeSpec::Suffix { length })
                }
            },
            None => None,
        }
    } else {
        match parse_number(before) {
            Some(first) => {
                if d + 1 == n {
                    Some(RangeSpec::From { first })
                } else {
                    match parse_number(after) {
                        Some(last) => Some(RangeSpec::FromTo { first, last }),
                        None => None,
                    }
                }
            },
            None => None,
        }
    }
}

/// Parses the value of a `Range` header.
///
/// `Some` exactly for the unit prefix `bytes=` followed by one range in one
/// of the three forms; `None` for every other text.
pub fn parse_range_header(header: &str) -> (r: Option<RangeSpec>)
    ensures
        r == range_header_spec(header@),
{
    if !header.is_ascii() {
        proof {
            if range_header_spec(header@) is Some {
                lemma_range_header_is_ascii(header@);
            }
        }
        return None;
    }
    proof {
        reveal_strlit("bytes=");
        assert("bytes="@ =~= unit_prefix());
    }
    if !starts_with_ascii(header, "bytes=") {
        return None;
    }
    let n: usize = header.unicode_len();
    parse_range_text(header.substring_ascii(6, n))
}

/// Reads the `Range` header of a request, if it has one.
pub fn requested_range(header: Option<&str>) -> (r: RequestedRange)
    ensures
        r == requested_spec(slice_text_of(header)),
{
    match header {
        None => RequestedRange::Whole,
        Some(h) => match parse_range_header(h) {
            None => RequestedRange::Unsupported,
            Some(spec) => RequestedRange::Single(spec),
        },
    }
}

/// Decides what a request selects of a file of `size` bytes.
pub fn select(requested: RequestedRange, size: u64) -> (r: Selection)
    ensures
        r == select_spec(requested, size),
        r matches Selection::Part(range) ==> range.fits(size),
{
    match requested {
        RequestedRange::Whole => Selection::Whole,
        RequestedRange::Unsupported => Selection::Unsatisfiable,
        RequestedRange::Single(spec) => match resolve(spec, size) {
            None => Selection::Unsatisfiable,
            Some(range) => Selection::Part(range),
        },
    }
}

} // verus!
