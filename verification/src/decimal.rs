//! Decimal numbers as they appear in header values: canonical digit strings
//! without sign, padding or leading zeros.

use vstd::prelude::*;
use vstd::utf8::is_ascii_chars;

verus! {

/// `c` is one of the ten ASCII digits.
pub open spec fn is_digit(c: char) -> bool {
    '0' <= c <= '9'
}

/// The number that the digit `c` stands for; 0 for any other character.
pub open spec fn digit_value(c: char) -> nat {
    if is_digit(c) {
        (c as u32 - '0' as u32) as nat
    } else {
        0
    }
}

/// The digit that stands for `d`, for `d < 10`.
pub open spec fn digit_char(d: nat) -> char {
    if d == 0 {
        '0'
    } else if d == 1 {
        '1'
    } else if d == 2 {
        '2'
    } else if d == 3 {
        '3'
    } else if d == 4 {
        '4'
    } else if d == 5 {
        '5'
    } else if d == 6 {
        '6'
    } else if d == 7 {
        '7'
    } else if d == 8 {
        '8'
    } else {
        '9'
    }
}

/// Every character of `s` is a digit.
pub open spec fn all_digits(s: Seq<char>) -> bool {
    forall|i: int| 0 <= i < s.len() ==> is_digit(#[trigger] s[i])
}

/// The value of `s` read as a base-ten numeral, most significant digit first.
pub open spec fn digits_value(s: Seq<char>) -> nat
    decreases s.len(),
{
    if s.len() == 0 {
        0
    } else {
        digits_value(s.drop_last()) * 10 + digit_value(s.last())
    }
}

/// `s` is a numeral in canonical form: at least one digit, only digits, and
/// no leading zero unless the numeral is `0` itself.
pub open spec fn is_canonical(s: Seq<char>) -> bool {
    &&& s.len() > 0
    &&& all_digits(s)
    &&& (s.len() == 1 || s[0] != '0')
}

/// What `s` parses to: its value when `s` is canonical and fits in 64 bits.
pub open spec fn parse_spec(s: Seq<char>) -> Option<u64> {
    if is_canonical(s) && digits_value(s) <= u64::MAX {
        Some(digits_value(s) as u64)
    } else {
        None
    }
}

/// The canonical numeral of `n`.
pub open spec fn numeral(n: nat) -> Seq<char>
    decreases n,
{
    if n < 10 {
        seq![digit_char(n)]
    } else {
        numeral(n / 10).push(digit_char(n % 10))
    }
}

/// A numeral is worth at least as much as any of its prefixes.
pub proof fn lemma_prefix_value(s: Seq<char>, k: int)
    requires
        0 <= k <= s.len(),
    ensures
        digits_value(s.subrange(0, k)) <= digits_value(s),
    decreases s.len() - k,
{
    if k == s.len() {
        assert(s.subrange(0, k) =~= s);
    } else {
        lemma_prefix_value(s.drop_last(), k);
        assert(s.drop_last().subrange(0, k) =~= s.subrange(0, k));
    }
}

/// The numeral of any number is canonical and reads back as that number.
pub proof fn lemma_numeral_round_trip(n: nat)
    ensures
        is_canonical(numeral(n)),
        digits_value(numeral(n)) == n,
    decreases n,
{
    if n < 10 {
        assert(numeral(n).drop_last() =~= Seq::<char>::empty());
        assert(digits_value(numeral(n).drop_last()) == 0);
    } else {
        lemma_numeral_round_trip(n / 10);
        let head = numeral(n / 10);
        let full = numeral(n);
        assert(full.drop_last() =~= head);
        assert(full.last() == digit_char(n % 10));
        assert(full[0] == head[0]);
        assert(digits_value(head) == n / 10);
        if head.len() == 1 {
            assert(digits_value(head.drop_last()) == 0) by {
                assert(head.drop_last() =~= Seq::<char>::empty());
            }
            assert(digit_value(head[0]) == n / 10);
        }
        assert forall|i: int| 0 <= i < full.len() implies is_digit(#[trigger] full[i]) by {
            if i < head.len() {
                assert(full[i] == head[i]);
            }
        }
    }
}

/// Formatting and parsing agree on every 64-bit number.
pub proof fn lemma_parse_numeral(n: u64)
    ensures
        parse_spec(numeral(n as nat)) == Some(n),
{
    lemma_numeral_round_trip(n as nat);
}

/// The one-character string of a single digit.
fn digit_str(d: u64) -> (s: &'static str)
    requires
        d < 10,
    ensures
        s@ == seq![digit_char(d as nat)],
{
    proof {
        reveal_strlit("0");
        reveal_strlit("1");
        reveal_strlit("2");
        reveal_strlit("3");
        reveal_strlit("4");
        reveal_strlit("5");
        reveal_strlit("6");
        reveal_strlit("7");
        reveal_strlit("8");
        reveal_strlit("9");
    }
    let s: &'static str = if d == 0 {
        "0"
    } else if d == 1 {
        "1"
    } else if d == 2 {
        "2"
    } else if d == 3 {
        "3"
    } else if d == 4 {
        "4"
    } else if d == 5 {
        "5"
    } else if d == 6 {
        "6"
    } else if d == 7 {
        "7"
    } else if d == 8 {
        "8"
    } else {
        "9"
    };
    assert(s@ =~= seq![digit_char(d as nat)]);
    s
}

/// Appends the canonical numeral of `n` to `out`.
pub fn push_number(out: &mut String, n: u64)
    ensures
        final(out)@ == old(out)@ + numeral(n as nat),
    decreases n,
{
    if n >= 10 {
        push_number(out, n / 10);
    }
    out.append(digit_str(n % 10));
    proof {
        let m = n as nat;
        if n >= 10 {
            assert(old(out)@ + numeral(m / 10) + seq![digit_char(m % 10)] =~= old(out)@ + numeral(
                m,
            ));
        }
    }
}

/// The canonical numeral of `n` as a string.
pub fn format_number(n: u64) -> (s: String)
    ensures
        s@ == numeral(n as nat),
{
    let mut s = String::new();
    push_number(&mut s, n);
    assert(Seq::<char>::empty() + numeral(n as nat) =~= numeral(n as nat));
    s
}

/// Parses a canonical numeral: digits only, no sign, no leading zero, and a
/// value that fits in 64 bits. Anything else is `None`.
pub fn parse_number(s: &str) -> (r: Option<u64>)
    ensures
        r == parse_spec(s@),
{
    if !s.is_ascii() {
        proof {
            if is_canonical(s@) {
                assert(is_ascii_chars(s@)) by {
                    assert forall|i: int| 0 <= i < s@.len() implies '\0' <= #[trigger] s@[i]
                        <= '\u{7f}' by {
                        assert(is_digit(s@[i]));
                    }
                }
            }
        }
        return None;
    }
    let n: usize = s.unicode_len();
    if n == 0 {
        return None;
    }
    if n > 1 && s.get_ascii(0) == 48u8 {
        return None;
    }
    let mut acc: u64 = 0;
    let mut i: usize = 0;
    while i < n
        invariant
            0 <= i <= n,
            n == s@.len(),
            s.is_ascii(),
            all_digits(s@.subrange(0, i as int)),
            acc == digits_value(s@.subrange(0, i as int)),
        decreases n - i,
    {
        let b: u8 = s.get_ascii(i);
        let ghost prefix = s@.subrange(0, i as int);
        let ghost next = s@.subrange(0, i as int + 1);
        proof {
            assert(next.drop_last() =~= prefix);
            assert(next.last() == s@[i as int]);
        }
        if b < 48u8 || b > 57u8 {
            proof {
                assert(!is_digit(s@[i as int]));
            }
            return None;
        }
        let d: u64 = (b - 48u8) as u64;
        proof {
            assert(is_digit(s@[i as int]));
            assert(digit_value(s@[i as int]) == d);
            assert(digits_value(next) == acc * 10 + d);
            lemma_prefix_value(s@, i as int + 1);
        }
        let scaled: u64 = match acc.checked_mul(10) {
            Some(v) => v,
            None => {
                return None;
            },
        };
        acc = match scaled.checked_add(d) {
            Some(v) => v,
            None => {
                return None;
            },
        };
        proof {
            assert forall|j: int| 0 <= j < next.len() implies is_digit(#[trigger] next[j]) by {
                if j < i {
                    assert(next[j] == prefix[j]);
                }
            }
        }
        i = i + 1;
    }
    proof {
        assert(s@.subrange(0, n as int) =~= s@);
    }
    Some(acc)
}

} // verus!
