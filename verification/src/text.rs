//! Whitespace classification and trimming over character sequences.

use vstd::prelude::*;
use vstd::string::StrSliceExecFns;

verus! {

/// A character with the Unicode `White_Space` property: what the label
/// renderers treat as removable at either end of a reconstructed text.
pub open spec fn is_ws_char(c: char) -> bool {
    c == '\u{0009}' || c == '\u{000A}' || c == '\u{000B}' || c == '\u{000C}'
        || c == '\u{000D}' || c == ' ' || c == '\u{0085}' || c == '\u{00A0}'
        || c == '\u{1680}' || c == '\u{2000}' || c == '\u{2001}' || c == '\u{2002}'
        || c == '\u{2003}' || c == '\u{2004}' || c == '\u{2005}' || c == '\u{2006}'
        || c == '\u{2007}' || c == '\u{2008}' || c == '\u{2009}' || c == '\u{200A}'
        || c == '\u{2028}' || c == '\u{2029}' || c == '\u{202F}' || c == '\u{205F}'
        || c == '\u{3000}'
}

/// Executable whitespace test, equivalent to `is_ws_char`.
pub fn is_ws(c: char) -> (b: bool)
    ensures
        b == is_ws_char(c),
{
    c == '\u{0009}' || c == '\u{000A}' || c == '\u{000B}' || c == '\u{000C}'
        || c == '\u{000D}' || c == ' ' || c == '\u{0085}' || c == '\u{00A0}'
        || c == '\u{1680}' || c == '\u{2000}' || c == '\u{2001}' || c == '\u{2002}'
        || c == '\u{2003}' || c == '\u{2004}' || c == '\u{2005}' || c == '\u{2006}'
        || c == '\u{2007}' || c == '\u{2008}' || c == '\u{2009}' || c == '\u{200A}'
        || c == '\u{2028}' || c == '\u{2029}' || c == '\u{202F}' || c == '\u{205F}'
        || c == '\u{3000}'
}

/// `s` with every leading whitespace character removed.
pub open spec fn trim_start_of(s: Seq<char>) -> Seq<char>
    decreases s.len(),
{
    if s.len() > 0 && is_ws_char(s[0]) {
        trim_start_of(s.drop_first())
    } else {
        s
    }
}

/// `s` with every trailing whitespace character removed.
pub open spec fn trim_end_of(s: Seq<char>) -> Seq<char>
    decreases s.len(),
{
    if s.len() > 0 && is_ws_char(s[s.len() - 1]) {
        trim_end_of(s.drop_last())
    } else {
        s
    }
}

/// `s` with leading and trailing whitespace removed.
pub open spec fn trim_of(s: Seq<char>) -> Seq<char> {
    trim_end_of(trim_start_of(s))
}

/// Skipping a wholly-whitespace prefix does not change the start-trimmed text.
proof fn lemma_trim_start_skip(s: Seq<char>, i: int)
    requires
        0 <= i <= s.len(),
        forall|j: int| 0 <= j < i ==> is_ws_char(s[j]),
    ensures
        trim_start_of(s) == trim_start_of(s.skip(i)),
    decreases i,
{
    if i > 0 {
        assert(is_ws_char(s[0]));
        assert(s.drop_first() =~= s.skip(1));
        lemma_trim_start_skip(s.skip(1), i - 1);
        assert(s.skip(1).skip(i - 1) =~= s.skip(i));
    } else {
        assert(s.skip(0) =~= s);
    }
}

/// Dropping a wholly-whitespace suffix does not change the end-trimmed text.
proof fn lemma_trim_end_take(s: Seq<char>, i: int)
    requires
        0 <= i <= s.len(),
        forall|j: int| i <= j < s.len() ==> is_ws_char(s[j]),
    ensures
        trim_end_of(s) == trim_end_of(s.take(i)),
    decreases s.len() - i,
{
    if i < s.len() {
        assert(is_ws_char(s[s.len() - 1]));
        assert(s.drop_last() =~= s.take(s.len() - 1));
        lemma_trim_end_take(s.take(s.len() - 1), i);
        assert(s.take(s.len() - 1).take(i) =~= s.take(i));
    } else {
        assert(s.take(s.len() as int) =~= s);
    }
}

/// Remove leading and trailing whitespace from `s`.
pub fn trim_str(s: &str) -> (r: String)
    ensures
        r@ == trim_of(s@),
{
    let len = s.unicode_len();
    let mut start: usize = 0;
    while start < len && is_ws(s.get_char(start))
        invariant
            len == s@.len(),
            0 <= start <= len,
            forall|j: int| 0 <= j < start ==> is_ws_char(s@[j]),
        decreases len - start,
    {
        start = start + 1;
    }
    let mut end: usize = len;
    while end > start && is_ws(s.get_char(end - 1))
        invariant
            len == s@.len(),
            start <= end <= len,
            forall|j: int| end <= j < len ==> is_ws_char(s@[j]),
        decreases end,
    {
        end = end - 1;
    }
    let out = s.substring_char(start, end);
    proof {
        lemma_trim_start_skip(s@, start as int);
        let t = s@.skip(start as int);
        if start < len {
            assert(!is_ws_char(s@[start as int]));
            assert(t[0] == s@[start as int]);
            assert(trim_start_of(t) == t);
        } else {
            assert(t =~= Seq::<char>::empty());
            assert(trim_start_of(t) == t);
        }
        assert(forall|j: int|
            end - start <= j < t.len() ==> is_ws_char(#[trigger] t[j]));
        lemma_trim_end_take(t, end - start);
        let u = t.take(end - start);
        assert(u =~= s@.subrange(start as int, end as int));
        if end > start {
            assert(!is_ws_char(s@[end - 1]));
            assert(u[u.len() - 1] == s@[end - 1]);
            assert(trim_end_of(u) == u);
        } else {
            assert(u =~= Seq::<char>::empty());
            assert(trim_end_of(u) == u);
        }
        assert(trim_of(s@) == s@.subrange(start as int, end as int));
    }
    out.to_owned()
}

} // verus!
