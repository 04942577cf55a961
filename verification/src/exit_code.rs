//! Reading a build's exit status back out of its log.

use vstd::prelude::*;
use crate::text::{chars_of, find_from, find_in, first_occurrence, lemma_find_from, occurs_at};

verus! {

broadcast use vstd::string::group_string_axioms;

/// An ASCII decimal digit.
pub open spec fn is_digit(c: char) -> bool {
    '0' <= c && c <= '9'
}

/// The value of a string of decimal digits.
pub open spec fn digits_value(d: Seq<char>) -> int
    decreases d.len(),
{
    if d.len() == 0 {
        0
    } else {
        digits_value(d.drop_last()) * 10 + ((d.last() as int) - 48)
    }
}

/// The digits of an integer text, past its optional sign.
pub open spec fn unsigned_part(s: Seq<char>) -> Seq<char> {
    if s.len() > 0 && (s[0] == '-' || s[0] == '+') {
        s.skip(1)
    } else {
        s
    }
}

/// What `str::parse::<i32>` gives: an optional `+` or `-`, then one or more
/// ASCII digits, whose value fits in an `i32`; `None` for anything else.
pub open spec fn parse_i32_text(s: Seq<char>) -> Option<i32> {
    let body = unsigned_part(s);
    let magnitude = digits_value(body);
    let v = if s.len() > 0 && s[0] == '-' {
        -magnitude
    } else {
        magnitude
    };
    if body.len() == 0 || !(forall|i: int| 0 <= i < body.len() ==> is_digit(#[trigger] body[i])) {
        None
    } else if i32::MIN <= v && v <= i32::MAX {
        Some(v as i32)
    } else {
        None
    }
}

/// The marker that opens the exit status in a build log.
pub open spec fn exit_marker() -> Seq<char> {
    "===EXIT_CODE:"@
}

/// The marker that closes it.
pub open spec fn close_marker() -> Seq<char> {
    "==="@
}

/// The exit status that a build log reports: the integer between the first
/// `===EXIT_CODE:` and the next `===` after it; `fallback` when there is no
/// such pair of markers or the text between them is not an `i32`.
pub open spec fn exit_code_in(log: Seq<char>, fallback: i32) -> i32 {
    match first_occurrence(log, exit_marker()) {
        None => fallback,
        Some(i) => {
            let start = i + exit_marker().len();
            match find_from(log, close_marker(), start) {
                None => fallback,
                Some(end) => match parse_i32_text(log.subrange(start, end)) {
                    Some(code) => code,
                    None => fallback,
                },
            }
        },
    }
}

/// A longer run of digits never has a smaller value.
proof fn lemma_digits_prefix(d: Seq<char>, k: int)
    requires
        0 <= k <= d.len(),
        forall|i: int| 0 <= i < d.len() ==> is_digit(#[trigger] d[i]),
    ensures
        digits_value(d.take(k)) <= digits_value(d),
        digits_value(d.take(k)) >= 0,
    decreases d.len(),
{
    if k == d.len() {
        assert(d.take(k) =~= d);
        if d.len() > 0 {
            lemma_digits_prefix(d.drop_last(), k - 1);
        }
    } else {
        assert(d.drop_last().take(k) =~= d.take(k));
        lemma_digits_prefix(d.drop_last(), k);
        lemma_digits_prefix(d.drop_last(), d.len() - 1);
        assert(d.drop_last().take(d.len() - 1) =~= d.drop_last());
    }
}

/// `str::parse::<i32>` of the characters `s[lo..hi]`.
fn parse_i32_range(s: &Vec<char>, lo: usize, hi: usize) -> (r: Option<i32>)
    requires
        lo <= hi <= s@.len(),
    ensures
        r == parse_i32_text(s@.subrange(lo as int, hi as int)),
{
    let ghost text = s@.subrange(lo as int, hi as int);
    if lo == hi {
        return None;
    }
    let negative = s[lo] == '-';
    let start: usize = if s[lo] == '-' || s[lo] == '+' {
        lo + 1
    } else {
        lo
    };
    let ghost body = unsigned_part(text);
    assert(body =~= s@.subrange(start as int, hi as int));
    if start == hi {
        return None;
    }
    let mut value: i64 = 0;
    let mut i: usize = start;
    while i < hi
        invariant
            lo <= start <= i <= hi <= s@.len(),
            lo < hi,
            body == s@.subrange(start as int, hi as int),
            body == unsigned_part(s@.subrange(lo as int, hi as int)),
            negative == (s@[lo as int] == '-'),
            forall|j: int| start <= j < i ==> is_digit(#[trigger] s@[j]),
            value == digits_value(s@.subrange(start as int, i as int)),
            0 <= value <= 2147483648,
        decreases hi - i,
    {
        let c = s[i];
        if !('0' <= c && c <= '9') {
            assert(body[i - start] == c);
            return None;
        }
        let d = (c as u32 - 48) as i64;
        assert(s@.subrange(start as int, i + 1).drop_last() =~= s@.subrange(start as int, i as int));
        value = value * 10 + d;
        if value > 2147483648 {
            proof {
                if forall|j: int| 0 <= j < body.len() ==> is_digit(#[trigger] body[j]) {
                    assert(body.take(i + 1 - start) =~= s@.subrange(start as int, i + 1));
                    lemma_digits_prefix(body, i + 1 - start);
                }
            }
            return None;
        }
        i = i + 1;
    }
    assert(s@.subrange(start as int, i as int) == body);
    assert forall|j: int| 0 <= j < body.len() implies is_digit(#[trigger] body[j]) by {
        assert(body[j] == s@[start + j]);
    }
    if negative {
        Some((-value) as i32)
    } else if value <= 2147483647 {
        Some(value as i32)
    } else {
        None
    }
}

/// The exit status that a build log reports, or `fallback_code` when the log
/// holds none.
pub fn extract_exit_code(output: &str, fallback_code: i32) -> (code: i32)
    ensures
        code == exit_code_in(output@, fallback_code),
{
    let log = chars_of(output);
    let open = chars_of("===EXIT_CODE:");
    let close = chars_of("===");
    proof {
        reveal_strlit("===EXIT_CODE:");
        reveal_strlit("===");
    }
    match find_in(&log, &open, 0) {
        None => fallback_code,
        Some(i) => {
            proof {
                lemma_find_from(log@, open@, 0);
            }
            assert(occurs_at(log@, open@, i as int));
            assert(log@.len() == log.len());
            let start = i + open.len();
            match find_in(&log, &close, start) {
                None => fallback_code,
                Some(end) => {
                    proof {
                        lemma_find_from(log@, close@, start as int);
                    }
                    match parse_i32_range(&log, start, end) {
                        Some(code) => code,
                        None => fallback_code,
                    }
                },
            }
        },
    }
}


/// The decimal digits of `n`, as a shell prints an exit status.
pub open spec fn decimal(n: nat) -> Seq<char>
    decreases n,
{
    if n < 10 {
        seq![(48 + n) as char]
    } else {
        decimal(n / 10).push((48 + n % 10) as char)
    }
}

proof fn lemma_decimal(n: nat)
    ensures
        decimal(n).len() > 0,
        forall|i: int| 0 <= i < decimal(n).len() ==> is_digit(#[trigger] decimal(n)[i]),
        digits_value(decimal(n)) == n,
    decreases n,
{
    if n < 10 {
        assert(decimal(n).drop_last() =~= Seq::<char>::empty());
        assert(((48 + n) as char) as int == 48 + n);
        let d = decimal(n);
        assert(digits_value(d) == digits_value(d.drop_last()) * 10 + ((d.last() as int) - 48));
    } else {
        lemma_decimal(n / 10);
        assert(decimal(n).drop_last() =~= decimal(n / 10));
        assert(((48 + n % 10) as char) as int == 48 + n % 10);
        assert(decimal(n).last() == (48 + n % 10) as char);
        assert((n / 10) * 10 + n % 10 == n);
        let d = decimal(n);
        assert(digits_value(d) == digits_value(d.drop_last()) * 10 + ((d.last() as int) - 48));
        assert(digits_value(d.drop_last()) == n / 10);
        assert(digits_value(d) == (n / 10) * 10 + n % 10);
    }
}

/// A search that meets no occurrence before `k` and one at `k` stops at `k`.
proof fn lemma_find_stops(s: Seq<char>, pat: Seq<char>, from: int, k: int)
    requires
        0 <= from <= k,
        occurs_at(s, pat, k),
        forall|j: int| from <= j < k ==> !occurs_at(s, pat, j),
    ensures
        find_from(s, pat, from) == Some(k),
    decreases k - from,
{
    if from < k {
        lemma_find_stops(s, pat, from + 1, k);
    }
}

/// The text a shell prints for status `n`: a minus sign before the digits of
/// a negative one.
pub open spec fn signed_decimal(n: int) -> Seq<char> {
    if n < 0 {
        seq!['-'] + decimal((-n) as nat)
    } else {
        decimal(n as nat)
    }
}

/// What the build script appends to its log, the server reads back: after a
/// log without the marker, `===EXIT_CODE:` followed by the status and `===`
/// yields that status, whatever follows.
pub proof fn law_exit_status_read_back(log: Seq<char>, status: i32, rest: Seq<char>, fallback: i32)
    requires
        forall|j: int| !occurs_at(log, exit_marker(), j),
    ensures
        exit_code_in(
            log + exit_marker() + signed_decimal(status as int) + close_marker() + rest,
            fallback,
        ) == status,
{
    reveal_strlit("===EXIT_CODE:");
    reveal_strlit("===");
    let m = exit_marker();
    let c = close_marker();
    let mag: nat = if status < 0 {
        (-(status as int)) as nat
    } else {
        status as nat
    };
    let digits = decimal(mag);
    lemma_decimal(mag);
    let d = signed_decimal(status as int);
    assert(forall|i: int| 0 <= i < d.len() ==> d[i] != '=') by {
        assert forall|i: int| 0 <= i < d.len() implies d[i] != '=' by {
            if status < 0 {
                if i > 0 {
                    assert(d[i] == digits[i - 1]);
                }
            } else {
                assert(d[i] == digits[i]);
            }
        }
    }
    let s = log + m + d + c + rest;
    let n = log.len() as int;
    assert(s.subrange(n, n + 13) =~= m);
    assert forall|j: int| 0 <= j < n implies !occurs_at(s, m, j) by {
        if occurs_at(s, m, j) {
            if j + 13 <= n {
                assert(log.subrange(j, j + 13) =~= s.subrange(j, j + 13));
                assert(occurs_at(log, m, j));
            } else {
                let k = n - j;
                assert(s[j + k] == s.subrange(j, j + 13)[k]);
                assert(s[n] == '=');
                if k >= 3 {
                    assert(m[k] != '=');
                } else if k == 1 {
                    assert(s[j + 4] == s.subrange(j, j + 13)[4]);
                    assert(s[n + 3] == 'E');
                } else {
                    assert(s[j + 5] == s.subrange(j, j + 13)[5]);
                    assert(s[n + 3] == 'E');
                }
            }
        }
    }
    lemma_find_stops(s, m, 0, n);
    let start = n + 13;
    let end = start + d.len();
    assert(s.subrange(end, end + 3) =~= c);
    assert forall|j: int| start <= j < end implies !occurs_at(s, c, j) by {
        assert(s[j] == d[j - start]);
        if occurs_at(s, c, j) {
            assert(s[j] == s.subrange(j, j + 3)[0]);
        }
    }
    lemma_find_stops(s, c, start, end);
    assert(s.subrange(start, end) =~= d);
    if status < 0 {
        assert(d[0] == '-');
        assert(unsigned_part(d) =~= digits);
        assert(is_digit(digits[0]));
    } else {
        assert(is_digit(d[0]));
        assert(unsigned_part(d) == d);
    }
}

} // verus!
