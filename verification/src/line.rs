//! Removing the line ending from a line of text.

use vstd::prelude::*;
use vstd::string::*;

verus! {

/// The text of each string, in order.
pub open spec fn texts(v: Seq<String>) -> Seq<Seq<char>> {
    v.map_values(|s: String| s@)
}

/// A carriage return or a line feed.
pub open spec fn is_line_end(c: char) -> bool {
    c == '\r' || c == '\n'
}

/// How many leading characters of `s` stay once every trailing carriage
/// return and line feed is removed.
pub open spec fn kept_len(s: Seq<char>) -> nat
    decreases s.len(),
{
    if s.len() > 0 && is_line_end(s.last()) {
        kept_len(s.drop_last())
    } else {
        s.len()
    }
}

/// `s` without its trailing carriage returns and line feeds.
pub open spec fn stripped(s: Seq<char>) -> Seq<char> {
    s.take(kept_len(s) as int)
}

/// Text that `stripped` leaves as it is: it does not end in a line ending.
pub open spec fn is_bare(s: Seq<char>) -> bool {
    s.len() == 0 || !is_line_end(s.last())
}

/// `kept_len` cuts exactly the longest run of line endings at the end.
pub proof fn lemma_kept_len(s: Seq<char>)
    ensures
        kept_len(s) <= s.len(),
        kept_len(s) > 0 ==> !is_line_end(s[kept_len(s) - 1]),
        forall|i: int| kept_len(s) <= i < s.len() ==> is_line_end(#[trigger] s[i]),
    decreases s.len(),
{
    if s.len() > 0 && is_line_end(s.last()) {
        let t = s.drop_last();
        lemma_kept_len(t);
        assert forall|i: int| kept_len(s) <= i < s.len() implies is_line_end(#[trigger] s[i]) by {
            if i < t.len() {
                assert(s[i] == t[i]);
            }
        }
    }
}

/// What is cut depends only on the characters up to the cut's candidate end:
/// a trailing line ending can be dropped before measuring.
proof fn lemma_kept_len_prefix(s: Seq<char>, n: int)
    requires
        0 <= n <= s.len(),
        forall|i: int| n <= i < s.len() ==> is_line_end(#[trigger] s[i]),
    ensures
        kept_len(s) == kept_len(s.take(n)),
    decreases s.len() - n,
{
    if n < s.len() {
        assert(is_line_end(s[s.len() - 1]));
        lemma_kept_len_prefix(s.drop_last(), n);
        assert(s.drop_last().take(n) =~= s.take(n));
    } else {
        assert(s.take(n) =~= s);
    }
}

/// What was stripped does not end in a line ending; bare text is left as it
/// is; and so stripping twice is stripping once.
pub proof fn law_stripped_is_bare(s: Seq<char>)
    ensures
        is_bare(stripped(s)),
        is_bare(s) ==> stripped(s) == s,
        stripped(stripped(s)) == stripped(s),
{
    lemma_kept_len(s);
    let t = stripped(s);
    assert(is_bare(t));
    assert(kept_len(t) == t.len());
    assert(t.take(t.len() as int) =~= t);
    if is_bare(s) {
        assert(s.take(s.len() as int) =~= s);
    }
}

/// Returns `raw` without its trailing carriage returns and line feeds.
pub fn strip_line_end(raw: &str) -> (out: String)
    ensures
        out@ == stripped(raw@),
{
    let total: usize = raw.unicode_len();
    let mut keep: usize = total;
    while keep > 0
        invariant
            keep <= total,
            total == raw@.len(),
            forall|i: int| keep <= i < total ==> is_line_end(#[trigger] raw@[i]),
        ensures
            keep <= total,
            forall|i: int| keep <= i < total ==> is_line_end(#[trigger] raw@[i]),
            keep > 0 ==> !is_line_end(raw@[keep - 1]),
        decreases keep,
    {
        let c = raw.get_char(keep - 1);
        if c == '\r' || c == '\n' {
            keep = keep - 1;
        } else {
            break;
        }
    }
    proof {
        lemma_kept_len_prefix(raw@, keep as int);
        assert(kept_len(raw@.take(keep as int)) == keep);
    }
    raw.substring_char(0, keep).to_owned()
}

} // verus!
