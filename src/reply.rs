//! Interpretation of instrument replies.

use vstd::prelude::*;
use vstd::string::*;

verus! {

/// What `str::trim` leaves of a text: the text without leading and trailing
/// Unicode white space.
pub uninterp spec fn trim_of(s: Seq<char>) -> Seq<char>;

/// What `str::to_lowercase` makes of a text: its Unicode lower-case mapping.
pub uninterp spec fn lower_of(s: Seq<char>) -> Seq<char>;

/// Relies on `str::trim`: the result depends on the text alone.
#[verifier::external_body]
fn trim_text(s: &str) -> (r: String)
    ensures
        r@ == trim_of(s@),
{
    s.trim().to_string()
}

/// Relies on `str::to_lowercase`: the result depends on the text alone.
#[verifier::external_body]
fn lowercase_text(s: &str) -> (r: String)
    ensures
        r@ == lower_of(s@),
{
    s.to_lowercase()
}

/// A reply that reports an enabled state: `"1"`, or `"ON"` in any ASCII case.
pub open spec fn is_on_text(s: Seq<char>) -> bool {
    s == seq!['1'] || (s.len() == 2 && (s[0] == 'O' || s[0] == 'o') && (s[1] == 'N'
        || s[1] == 'n'))
}

/// Reads an on/off state reply (already trimmed): true exactly for `"1"` and
/// for `"ON"` in any ASCII case.
pub fn parse_on_state(reply: &str) -> (r: bool)
    ensures
        r == is_on_text(reply@),
{
    let n = reply.unicode_len();
    if n == 1 {
        if reply.get_char(0) == '1' {
            assert(reply@ =~= seq!['1']);
            true
        } else {
            false
        }
    } else if n == 2 {
        let a = reply.get_char(0);
        let b = reply.get_char(1);
        (a == 'O' || a == 'o') && (b == 'N' || b == 'n')
    } else {
        assert(reply@ != seq!['1']);
        false
    }
}

/// `needle` occurs in `hay` at some position.
pub open spec fn contains_text(hay: Seq<char>, needle: Seq<char>) -> bool {
    exists|i: int| 0 <= i <= hay.len() - needle.len() && #[trigger] hay.subrange(i, i + needle.len())
        == needle
}

/// The "no error" sentinel of an error queue, judged from the trimmed reply
/// and the lower-cased reply: the trimmed reply starts with `'0'`, or the
/// lower-cased reply contains `"no error"`.
pub open spec fn sentinel_text(trimmed: Seq<char>, lowered: Seq<char>) -> bool {
    (trimmed.len() > 0 && trimmed[0] == '0') || contains_text(lowered, "no error"@)
}

/// An error-queue reply that reports that the queue is empty.
pub open spec fn is_sentinel(reply: Seq<char>) -> bool {
    sentinel_text(trim_of(reply), lower_of(reply))
}

fn occurs_at(hay: &str, needle: &str, at: usize) -> (r: bool)
    requires
        at + needle@.len() <= hay@.len(),
        hay@.len() <= usize::MAX,
    ensures
        r == (hay@.subrange(at as int, at + needle@.len()) == needle@),
{
    let n = needle.unicode_len();
    let mut k: usize = 0;
    while k < n
        invariant
            n == needle@.len(),
            k <= n,
            at + n <= hay@.len(),
            hay@.len() <= usize::MAX,
            forall|j: int| 0 <= j < k ==> hay@[at + j] == needle@[j],
        decreases n - k,
    {
        if hay.get_char(at + k) != needle.get_char(k) {
            assert(hay@.subrange(at as int, at + n)[k as int] != needle@[k as int]);
            return false;
        }
        k = k + 1;
    }
    assert(hay@.subrange(at as int, at + n) =~= needle@);
    true
}

/// Tells whether `needle` occurs in `hay`.
pub fn contains(hay: &str, needle: &str) -> (r: bool)
    ensures
        r == contains_text(hay@, needle@),
{
    let h = hay.unicode_len();
    let n = needle.unicode_len();
    if n > h {
        return false;
    }
    let mut i: usize = 0;
    while i <= h - n
        invariant
            h == hay@.len(),
            n == needle@.len(),
            n <= h,
            forall|j: int| 0 <= j < i ==> #[trigger] hay@.subrange(j, j + n) != needle@,
        decreases h - n + 1 - i,
    {
        if occurs_at(hay, needle, i) {
            return true;
        }
        if i == h - n {
            return false;
        }
        i = i + 1;
    }
    false
}

/// Judges the sentinel from the trimmed and the lower-cased forms of a reply.
pub fn sentinel_parts(trimmed: &str, lowered: &str) -> (r: bool)
    ensures
        r == sentinel_text(trimmed@, lowered@),
{
    let starts_with_zero = trimmed.unicode_len() > 0 && trimmed.get_char(0) == '0';
    starts_with_zero || contains(lowered, "no error")
}

/// Tells whether an error-queue reply is the "no error" sentinel.
pub fn is_no_error_reply(reply: &str) -> (r: bool)
    ensures
        r == is_sentinel(reply@),
{
    let trimmed = trim_text(reply);
    let lowered = lowercase_text(reply);
    sentinel_parts(trimmed.as_str(), lowered.as_str())
}

} // verus!
