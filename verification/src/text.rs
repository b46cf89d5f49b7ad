//! Whitespace handling for settings values and tokens.
//!
//! The provider treats an all-whitespace access token or settings value the
//! same as an absent one, so the crate needs a trimming function and a
//! blankness test with exact specifications.

use vstd::prelude::*;

verus! {

/// The whitespace characters this crate strips: space, tab, line feed,
/// carriage return.
pub open spec fn is_space_char(c: char) -> bool {
    c == ' ' || c == '\t' || c == '\n' || c == '\r'
}

/// A string is blank when every character is whitespace (an empty string is
/// blank).
pub open spec fn is_blank(s: Seq<char>) -> bool {
    forall|i: int| 0 <= i < s.len() ==> is_space_char(s[i])
}

/// Leading whitespace removed.
pub open spec fn trim_start(s: Seq<char>) -> Seq<char>
    decreases s.len(),
{
    if s.len() == 0 {
        s
    } else if is_space_char(s[0]) {
        trim_start(s.drop_first())
    } else {
        s
    }
}

/// Trailing whitespace removed.
pub open spec fn trim_end(s: Seq<char>) -> Seq<char>
    decreases s.len(),
{
    if s.len() == 0 {
        s
    } else if is_space_char(s[s.len() - 1]) {
        trim_end(s.drop_last())
    } else {
        s
    }
}

/// Whitespace removed from both ends.
pub open spec fn trim_spec(s: Seq<char>) -> Seq<char> {
    trim_end(trim_start(s))
}

/// Executable space test on one character.
fn char_is_space(c: char) -> (r: bool)
    ensures
        r == is_space_char(c),
{
    c == ' ' || c == '\t' || c == '\n' || c == '\r'
}

/// Executable blankness test.
pub fn is_blank_str(s: &str) -> (r: bool)
    ensures
        r == is_blank(s@),
{
    let len = s.unicode_len();
    let mut i: usize = 0;
    while i < len
        invariant
            i <= len,
            len == s@.len(),
            forall|j: int| 0 <= j < i ==> is_space_char(s@[j]),
        decreases len - i,
    {
        if !char_is_space(s.get_char(i)) {
            return false;
        }
        i = i + 1;
    }
    true
}

proof fn lemma_trim_start_skip(s: Seq<char>, i: int)
    requires
        0 <= i <= s.len(),
        forall|j: int| 0 <= j < i ==> is_space_char(s[j]),
    ensures
        trim_start(s) == trim_start(s.skip(i)),
    decreases i,
{
    if i == 0 {
        assert(s.skip(0) =~= s);
    } else {
        assert(is_space_char(s[0]));
        assert(s.drop_first() =~= s.skip(1));
        lemma_trim_start_skip(s.skip(1), i - 1);
        assert(s.skip(1).skip(i - 1) =~= s.skip(i));
    }
}

proof fn lemma_trim_end_take(s: Seq<char>, e: int)
    requires
        0 <= e <= s.len(),
        forall|j: int| e <= j < s.len() ==> is_space_char(s[j]),
    ensures
        trim_end(s) == trim_end(s.take(e)),
    decreases s.len() - e,
{
    if e == s.len() {
        assert(s.take(e) =~= s);
    } else {
        assert(is_space_char(s[s.len() - 1]));
        lemma_trim_end_take(s.drop_last(), e);
        assert(s.drop_last().take(e) =~= s.take(e));
    }
}

/// Trims both ends of the string; the result is exactly `trim_spec`.
pub fn trim_str(s: &str) -> (r: String)
    ensures
        r@ == trim_spec(s@),
{
    let len = s.unicode_len();
    let mut start: usize = 0;
    while start < len && char_is_space(s.get_char(start))
        invariant
            start <= len,
            len == s@.len(),
            forall|j: int| 0 <= j < start ==> is_space_char(s@[j]),
        decreases len - start,
    {
        start = start + 1;
    }
    proof {
        lemma_trim_start_skip(s@, start as int);
        if start < len {
            assert(!is_space_char(s@.skip(start as int)[0]));
        }
        assert(trim_start(s@) == s@.skip(start as int));
    }
    let mut end: usize = len;
    while end > start && char_is_space(s.get_char(end - 1))
        invariant
            start <= end <= len,
            len == s@.len(),
            forall|j: int| end <= j < len ==> is_space_char(s@[j]),
        decreases end,
    {
        end = end - 1;
    }
    proof {
        let t = trim_start(s@);
        assert(t =~= s@.subrange(start as int, len as int));
        assert(forall|j: int|
            end - start <= j < t.len() ==> is_space_char(#[trigger] t[j]));
        lemma_trim_end_take(t, end - start);
        if end > start {
            let u = t.take(end - start);
            assert(!is_space_char(u[u.len() - 1]));
        }
        assert(trim_end(t) == t.take(end - start));
        assert(t.take(end - start) =~= s@.subrange(start as int, end as int));
    }
    let trimmed = s.substring_char(start, end);
    trimmed.to_owned()
}

/// A string is blank exactly when trimming leaves nothing.
pub proof fn lemma_blank_iff_trim_empty(s: Seq<char>)
    ensures
        is_blank(s) <==> trim_spec(s).len() == 0,
{
    if is_blank(s) {
        lemma_trim_start_skip(s, s.len() as int);
        assert(s.skip(s.len() as int) =~= Seq::<char>::empty());
        assert(trim_start(s).len() == 0);
    } else {
        let w = choose|i: int| 0 <= i < s.len() && !is_space_char(s[i])
            && forall|j: int| 0 <= j < i ==> is_space_char(s[j]);
        assert(exists|i: int|
            0 <= i < s.len() && !is_space_char(s[i])
                && forall|j: int| 0 <= j < i ==> is_space_char(s[j])) by {
            let k = choose|i: int| 0 <= i < s.len() && !is_space_char(s[i]);
            lemma_first_non_space(s, k);
        }
        lemma_trim_start_skip(s, w);
        assert(trim_start(s) == s.skip(w));
        assert(!is_space_char(s.skip(w)[0]));
        lemma_trim_end_keeps_head(s.skip(w));
    }
}

/// Below any non-space character there is a first one.
proof fn lemma_first_non_space(s: Seq<char>, k: int)
    requires
        0 <= k < s.len(),
        !is_space_char(s[k]),
    ensures
        exists|i: int|
            0 <= i < s.len() && !is_space_char(s[i])
                && forall|j: int| 0 <= j < i ==> is_space_char(s[j]),
    decreases k,
{
    if forall|j: int| 0 <= j < k ==> is_space_char(s[j]) {
        assert(0 <= k < s.len() && !is_space_char(s[k])
            && forall|j: int| 0 <= j < k ==> is_space_char(s[j]));
    } else {
        let k2 = choose|j: int| 0 <= j < k && !is_space_char(s[j]);
        lemma_first_non_space(s, k2);
    }
}

/// Trimming the end never removes a non-space head.
proof fn lemma_trim_end_keeps_head(s: Seq<char>)
    requires
        s.len() > 0,
        !is_space_char(s[0]),
    ensures
        trim_end(s).len() > 0,
    decreases s.len(),
{
    if is_space_char(s[s.len() - 1]) {
        assert(s.len() >= 2);
        assert(s.drop_last()[0] == s[0]);
        lemma_trim_end_keeps_head(s.drop_last());
    }
}

} // verus!
