//! Character-level string predicates shared by the validation rules.

use vstd::prelude::*;
use vstd::string::*;

verus! {

/// The Unicode `White_Space` property (PropList.txt): the characters that
/// `char::is_whitespace` accepts and `str::trim` strips.
pub open spec fn is_white_space(c: char) -> bool {
    let u = c as u32;
    ||| 0x09 <= u && u <= 0x0d
    ||| u == 0x20
    ||| u == 0x85
    ||| u == 0xa0
    ||| u == 0x1680
    ||| 0x2000 <= u && u <= 0x200a
    ||| u == 0x2028
    ||| u == 0x2029
    ||| u == 0x202f
    ||| u == 0x205f
    ||| u == 0x3000
}

/// A string is blank when it is empty after trimming, i.e. when every
/// character is white space.
pub open spec fn is_blank_spec(s: Seq<char>) -> bool {
    forall|i: int| 0 <= i < s.len() ==> is_white_space(#[trigger] s[i])
}

/// Whether `c` has the Unicode `White_Space` property.
pub fn is_white_space_char(c: char) -> (res: bool)
    ensures
        res == is_white_space(c),
{
    let u = c as u32;
    (0x09 <= u && u <= 0x0d) || u == 0x20 || u == 0x85 || u == 0xa0 || u == 0x1680 || (0x2000
        <= u && u <= 0x200a) || u == 0x2028 || u == 0x2029 || u == 0x202f || u == 0x205f || u
        == 0x3000
}

/// Whether `s` is empty once leading and trailing white space is trimmed.
pub fn is_blank(s: &str) -> (res: bool)
    ensures
        res == is_blank_spec(s@),
{
    broadcast use vstd::string::group_string_axioms;

    let mut it = s.chars();
    let ghost mut k: int = 0;
    loop
        invariant
            0 <= k <= s@.len(),
            vstd::std_specs::iter::IteratorSpec::remaining(&it) == s@.subrange(k, s@.len() as int),
            forall|j: int| 0 <= j < k ==> is_white_space(#[trigger] s@[j]),
        decreases s@.len() - k,
    {
        match it.next() {
            Some(c) => {
                assert(c == s@[k]);
                if !is_white_space_char(c) {
                    return false;
                }
                proof {
                    k = k + 1;
                }
            },
            None => {
                return true;
            },
        }
    }
}

/// The number of characters (Unicode scalar values) of `s`.
pub fn char_count(s: &str) -> (n: usize)
    ensures
        n == s@.len(),
{
    s.unicode_len()
}

/// ASCII lower-casing of one character; other characters are unchanged.
pub open spec fn ascii_lower_char(c: char) -> char {
    if 'A' <= c && c <= 'Z' {
        ((c as u32) + 32) as char
    } else {
        c
    }
}

/// ASCII lower-casing of a string.
pub open spec fn ascii_lower(s: Seq<char>) -> Seq<char> {
    s.map_values(|c: char| ascii_lower_char(c))
}

/// `str::to_ascii_lowercase`: ASCII letters `A`..=`Z` are mapped to
/// `a`..=`z`, every other character is unchanged.
#[verifier::external_body]
pub(crate) fn to_ascii_lowercase(s: &str) -> (res: String)
    ensures
        res@ == ascii_lower(s@),
{
    s.to_ascii_lowercase()
}

/// The first index at or after `i` that is not white space (or the end).
pub open spec fn skip_white_forward(s: Seq<char>, i: int) -> int
    decreases s.len() - i,
{
    if 0 <= i < s.len() && is_white_space(s[i]) {
        skip_white_forward(s, i + 1)
    } else {
        i
    }
}

/// The end of `s[lo..j]` once trailing white space is dropped.
pub open spec fn skip_white_backward(s: Seq<char>, lo: int, j: int) -> int
    decreases j - lo,
{
    if lo < j && j <= s.len() && is_white_space(s[j - 1]) {
        skip_white_backward(s, lo, j - 1)
    } else {
        j
    }
}

/// `s` without its leading and trailing white space (`str::trim`).
pub open spec fn trimmed(s: Seq<char>) -> Seq<char> {
    let a = skip_white_forward(s, 0);
    s.subrange(a, skip_white_backward(s, a, s.len() as int))
}

/// The characters of `s`, in order.
pub fn chars_of(s: &str) -> (res: Vec<char>)
    ensures
        res@ == s@,
{
    broadcast use vstd::string::group_string_axioms;

    let mut out: Vec<char> = Vec::new();
    let mut it = s.chars();
    loop
        invariant
            0 <= out@.len() <= s@.len(),
            out@ == s@.subrange(0, out@.len() as int),
            vstd::std_specs::iter::IteratorSpec::remaining(&it) == s@.subrange(
                out@.len() as int,
                s@.len() as int,
            ),
        decreases s@.len() - out@.len(),
    {
        match it.next() {
            Some(c) => {
                out.push(c);
            },
            None => {
                assert(out@ =~= s@);
                return out;
            },
        }
    }
}

/// `s` with leading and trailing white space removed.
pub fn trim(s: &str) -> (res: &str)
    ensures
        res@ == trimmed(s@),
{
    let cs = chars_of(s);
    let n = cs.len();
    let mut a: usize = 0;
    while a < n && is_white_space_char(cs[a])
        invariant
            cs@ == s@,
            n == s@.len(),
            a <= n,
            skip_white_forward(s@, a as int) == skip_white_forward(s@, 0),
        decreases n - a,
    {
        a = a + 1;
    }
    let mut b: usize = n;
    while b > a && is_white_space_char(cs[b - 1])
        invariant
            cs@ == s@,
            n == s@.len(),
            a <= b <= n,
            a as int == skip_white_forward(s@, 0),
            skip_white_backward(s@, a as int, b as int) == skip_white_backward(
                s@,
                a as int,
                n as int,
            ),
        decreases b - a,
    {
        b = b - 1;
    }
    s.substring_char(a, b)
}

/// Skipping forward from `i` stops at the end exactly when every character
/// from `i` on is white space, and never beyond the end.
proof fn lemma_skip_forward(s: Seq<char>, i: int)
    requires
        0 <= i <= s.len(),
    ensures
        i <= skip_white_forward(s, i) <= s.len(),
        (skip_white_forward(s, i) == s.len()) <==> (forall|j: int|
            i <= j < s.len() ==> is_white_space(#[trigger] s[j])),
        skip_white_forward(s, i) < s.len() ==> !is_white_space(s[skip_white_forward(s, i)]),
    decreases s.len() - i,
{
    if i < s.len() && is_white_space(s[i]) {
        lemma_skip_forward(s, i + 1);
        if skip_white_forward(s, i) == s.len() {
            assert forall|j: int| i <= j < s.len() implies is_white_space(#[trigger] s[j]) by {}
        }
    }
}

/// Skipping backward from `j` down to `lo` never passes a character that is
/// not white space.
proof fn lemma_skip_backward(s: Seq<char>, lo: int, j: int)
    requires
        0 <= lo <= j <= s.len(),
    ensures
        lo <= skip_white_backward(s, lo, j) <= j,
        lo < s.len() && !is_white_space(s[lo]) && lo < j ==> skip_white_backward(s, lo, j) > lo,
    decreases j - lo,
{
    if lo < j && is_white_space(s[j - 1]) {
        lemma_skip_backward(s, lo, j - 1);
    }
}

/// A string is blank exactly when trimming leaves it empty, so
/// [`is_blank`] decides `s.trim().is_empty()`.
pub proof fn law_blank_iff_trims_to_empty(s: Seq<char>)
    ensures
        is_blank_spec(s) <==> trimmed(s).len() == 0,
{
    lemma_skip_forward(s, 0);
    let a = skip_white_forward(s, 0);
    lemma_skip_backward(s, a, s.len() as int);
}

} // verus!
