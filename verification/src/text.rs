//! Plain operations on strings, stated over their characters.

use vstd::prelude::*;
use vstd::string::StringSliceAdditionalSpecFns;
use vstd::utf8::encode_utf8_decode_utf8;

verus! {

/// `text` begins with `prefix`.
pub open spec fn has_prefix(text: Seq<char>, prefix: Seq<char>) -> bool {
    prefix.len() <= text.len() && text.subrange(0, prefix.len() as int) == prefix
}

/// `text` ends with `suffix`.
pub open spec fn has_suffix(text: Seq<char>, suffix: Seq<char>) -> bool {
    suffix.len() <= text.len() && text.subrange(text.len() - suffix.len(), text.len() as int)
        == suffix
}

/// Tells whether two strings hold the same characters.
pub fn str_eq(a: &str, b: &str) -> (r: bool)
    ensures
        r == (a@ == b@),
{
    let x = a.as_bytes();
    let y = b.as_bytes();
    if x.len() != y.len() {
        return false;
    }
    let mut i: usize = 0;
    while i < x.len()
        invariant
            i <= x.len(),
            x.len() == y.len(),
            x@ == a.spec_bytes(),
            y@ == b.spec_bytes(),
            forall|j: int| 0 <= j < i ==> x@[j] == y@[j],
        decreases x.len() - i,
    {
        if x[i] != y[i] {
            return false;
        }
        i += 1;
    }
    proof {
        assert(x@ =~= y@);
        encode_utf8_decode_utf8(a@);
        encode_utf8_decode_utf8(b@);
    }
    true
}

/// Tells whether `text` begins with `prefix`.
pub fn starts_with(text: &str, prefix: &str) -> (r: bool)
    ensures
        r == has_prefix(text@, prefix@),
{
    let n = text.unicode_len();
    let m = prefix.unicode_len();
    if m > n {
        false
    } else {
        str_eq(text.substring_char(0, m), prefix)
    }
}

/// Tells whether `text` ends with `suffix`.
pub fn ends_with(text: &str, suffix: &str) -> (r: bool)
    ensures
        r == has_suffix(text@, suffix@),
{
    let n = text.unicode_len();
    let m = suffix.unicode_len();
    if m > n {
        false
    } else {
        str_eq(text.substring_char(n - m, n), suffix)
    }
}

/// The position of the last `c` among the first `end` characters of `text`.
pub open spec fn last_index_of(text: Seq<char>, c: char, end: int) -> Option<int>
    decreases end,
{
    if end <= 0 {
        None
    } else if text[end - 1] == c {
        Some(end - 1)
    } else {
        last_index_of(text, c, end - 1)
    }
}

/// What `last_index_of` finds is the last occurrence before `end`.
pub proof fn lemma_last_index_of(text: Seq<char>, c: char, end: int)
    requires
        0 <= end <= text.len(),
    ensures
        match last_index_of(text, c, end) {
            Some(i) => 0 <= i < end && text[i] == c && forall|j: int| i < j < end ==> text[j] != c,
            None => forall|j: int| 0 <= j < end ==> text[j] != c,
        },
    decreases end,
{
    if end > 0 && text[end - 1] != c {
        lemma_last_index_of(text, c, end - 1);
    }
}

/// Finds the last `c` among the first `end` characters of `text`.
pub fn find_last(text: &str, c: char, end: usize) -> (r: Option<usize>)
    requires
        end <= text@.len(),
    ensures
        match r {
            Some(i) => last_index_of(text@, c, end as int) == Some(i as int),
            None => last_index_of(text@, c, end as int) is None,
        },
{
    let mut i: usize = end;
    while i > 0
        invariant
            i <= end <= text@.len(),
            last_index_of(text@, c, end as int) == last_index_of(text@, c, i as int),
        decreases i,
    {
        if text.get_char(i - 1) == c {
            return Some(i - 1);
        }
        i -= 1;
    }
    None
}

} // verus!
