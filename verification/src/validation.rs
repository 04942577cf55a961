//! Checks applied to what clients send: file paths, source types, sizes.

use vstd::prelude::*;
use crate::text::{chars_of, same_text};

verus! {

/// The characters allowed in an uploaded file's path.
pub open spec fn is_path_char(c: char) -> bool {
    ||| 'a' <= c && c <= 'z'
    ||| 'A' <= c && c <= 'Z'
    ||| '0' <= c && c <= '9'
    ||| c == '_' || c == '.' || c == '-' || c == '/' || c == '\\'
}

/// The path holds two dots in a row.
pub open spec fn has_double_dot(p: Seq<char>) -> bool {
    exists|i: int| 0 <= i && i + 1 < p.len() && p[i] == '.' && #[trigger] p[i + 1] == '.'
}

/// A path that may be written below a workspace: not empty, not absolute,
/// no `..`, only allowed characters.
pub open spec fn is_safe_path(p: Seq<char>) -> bool {
    &&& p.len() > 0
    &&& p[0] != '/' && p[0] != '\\'
    &&& !has_double_dot(p)
    &&& forall|i: int| 0 <= i < p.len() ==> is_path_char(#[trigger] p[i])
}

/// Whether an uploaded file's path is safe to write below a workspace.
pub fn is_path_safe(path_str: &str) -> (r: bool)
    ensures
        r == is_safe_path(path_str@),
{
    let p = chars_of(path_str);
    let n = p.len();
    if n == 0 {
        return false;
    }
    if p[0] == '/' || p[0] == '\\' {
        return false;
    }
    let mut i: usize = 0;
    while i < n
        invariant
            n == p@.len(),
            p@ == path_str@,
            0 < n,
            p@[0] != '/' && p@[0] != '\\',
            i <= n,
            forall|j: int| 0 <= j < i ==> is_path_char(#[trigger] p@[j]),
            forall|j: int| 1 <= j && j < n && j < i ==> !(p@[j - 1] == '.' && #[trigger] p@[j] == '.'),
        decreases n - i,
    {
        let c = p[i];
        let allowed = ('a' <= c && c <= 'z') || ('A' <= c && c <= 'Z') || ('0' <= c && c <= '9')
            || c == '_' || c == '.' || c == '-' || c == '/' || c == '\\';
        if !allowed {
            return false;
        }
        if i > 0 && c == '.' && p[i - 1] == '.' {
            assert(p@[i - 1] == '.' && p@[(i - 1) + 1] == '.');
            return false;
        }
        assert(i > 0 ==> !(p@[i - 1] == '.' && p@[i as int] == '.'));
        i = i + 1;
    }
    true
}

/// An ASCII letter, of either case.
pub open spec fn is_ascii_letter(c: char) -> bool {
    ('a' <= c && c <= 'z') || ('A' <= c && c <= 'Z')
}

/// The characters a path may hold are exactly the ASCII letters of both
/// cases, the digits, and `_`, `.`, `-`, `/` and `\`.
pub proof fn law_path_char_whitelist(c: char)
    ensures
        is_path_char(c) <==> (is_ascii_letter(c) || ('0' <= c && c <= '9') || c == '_' || c
            == '.' || c == '-' || c == '/' || c == '\\'),
        'A' <= c && c <= 'Z' ==> is_path_char(c),
        'a' <= c && c <= 'z' ==> is_path_char(c),
{
}

/// A path is refused only for being empty, starting with `/` or `\`,
/// holding `..`, or holding a character outside the whitelist.
pub proof fn law_safe_path_refusals(p: Seq<char>)
    ensures
        is_safe_path(p) <==> {
            &&& p.len() > 0
            &&& p[0] != '/' && p[0] != '\\'
            &&& forall|i: int| 0 <= i && i + 1 < p.len() ==> !(p[i] == '.' && #[trigger] p[i + 1] == '.')
            &&& forall|i: int| 0 <= i < p.len() ==> (is_ascii_letter(#[trigger] p[i]) || ('0' <= p[i] && p[i] <= '9')
                || p[i] == '_' || p[i] == '.' || p[i] == '-' || p[i] == '/' || p[i] == '\\')
        },
{
}

/// Changing the case of a letter, or one letter for another, never changes
/// whether a path is safe: upper-case file names such as `Cargo.toml` are
/// accepted exactly when their lower-case spelling is.
pub proof fn law_letters_are_interchangeable(p: Seq<char>, i: int, c: char)
    requires
        0 <= i < p.len(),
        is_ascii_letter(p[i]),
        is_ascii_letter(c),
    ensures
        is_safe_path(p) <==> is_safe_path(p.update(i, c)),
{
    let q = p.update(i, c);
    assert(q.len() == p.len());
    if is_safe_path(p) {
        assert forall|j: int| 0 <= j && j + 1 < q.len() implies !(q[j] == '.' && #[trigger] q[j + 1] == '.') by {
            if q[j] == '.' && q[j + 1] == '.' {
                assert(p[j] == '.' && p[j + 1] == '.');
            }
        }
        assert(!has_double_dot(q));
    }
    if is_safe_path(q) {
        assert forall|j: int| 0 <= j && j + 1 < p.len() implies !(p[j] == '.' && #[trigger] p[j + 1] == '.') by {
            if p[j] == '.' && p[j + 1] == '.' {
                assert(q[j] == '.' && q[j + 1] == '.');
            }
        }
        assert(!has_double_dot(p));
        assert forall|j: int| 0 <= j < p.len() implies is_path_char(#[trigger] p[j]) by {
            if j != i {
                assert(q[j] == p[j]);
            }
        }
    }
}

/// The source languages that can be built.
pub open spec fn is_source_type(t: Seq<char>) -> bool {
    t == "c"@ || t == "cpp"@ || t == "rust"@
}

/// Whether `source_type` names a language that can be built.
pub fn is_supported_source_type(source_type: &str) -> (r: bool)
    ensures
        r == is_source_type(source_type@),
{
    same_text(source_type, "c") || same_text(source_type, "cpp") || same_text(source_type, "rust")
}

/// The largest decoded size accepted for one file, in bytes.
pub const MAX_FILE_BYTES: usize = 52428800;

/// The largest decoded size accepted for all files of one upload together, in
/// bytes.
pub const MAX_TOTAL_BYTES: usize = 104857600;

/// The decoded size that Base64 text of `encoded_len` bytes stands for.
pub open spec fn decoded_len_estimate(encoded_len: int) -> int {
    encoded_len * 3 / 4
}

/// The decoded size that Base64 content of `encoded_len` bytes stands for.
pub fn decoded_len(encoded_len: usize) -> (r: usize)
    ensures
        r == decoded_len_estimate(encoded_len as int),
{
    let q = encoded_len / 4;
    let rem = encoded_len % 4;
    assert(encoded_len * 3 / 4 == q * 3 + rem * 3 / 4) by (nonlinear_arith)
        requires
            q == encoded_len / 4,
            rem == encoded_len % 4,
    ;
    assert(q * 3 + rem * 3 / 4 <= encoded_len) by (nonlinear_arith)
        requires
            q == encoded_len / 4,
            rem == encoded_len % 4,
    ;
    q * 3 + rem * 3 / 4
}

/// Whether Base64 content of `encoded_len` bytes decodes to more than the
/// per-file limit.
pub fn exceeds_file_limit(encoded_len: usize) -> (r: bool)
    ensures
        r == (decoded_len_estimate(encoded_len as int) > MAX_FILE_BYTES),
{
    let q = encoded_len / 4;
    let rem = encoded_len % 4;
    assert(encoded_len * 3 / 4 == q * 3 + rem * 3 / 4) by (nonlinear_arith)
        requires
            q == encoded_len / 4,
            rem == encoded_len % 4,
    ;
    if q > MAX_FILE_BYTES / 3 + 1 {
        return true;
    }
    q * 3 + rem * 3 / 4 > MAX_FILE_BYTES
}

} // verus!
