//! Laying out the collected phrases for display.

use vstd::prelude::*;
use vstd::string::*;
use crate::line::texts;

verus! {

/// The line that stands above the listing.
pub open spec fn header() -> Seq<char> {
    "Here are the phrases you entered:"@
}

/// What stands before each phrase.
pub open spec fn opening() -> Seq<char> {
    ">>> "@
}

/// What stands after each phrase.
pub open spec fn closing() -> Seq<char> {
    " <<<"@
}

/// A phrase between its two markers.
pub open spec fn marked(phrase: Seq<char>) -> Seq<char> {
    opening() + phrase + closing()
}

/// The listing as texts: the header, then each phrase between its markers.
pub open spec fn listing(phrases: Seq<Seq<char>>) -> Seq<Seq<char>> {
    seq![header()] + phrases.map_values(|p: Seq<char>| marked(p))
}

/// Wraps one phrase in its markers.
pub fn mark_phrase(phrase: &str) -> (out: String)
    ensures
        out@ == marked(phrase@),
{
    let mut out = String::from_str(">>> ");
    out.append(phrase);
    out.append(" <<<");
    out
}

/// The lines to print for `phrases`: a header line, then one line for each
/// phrase, in order.
pub fn show_phrases(phrases: &Vec<String>) -> (out: Vec<String>)
    ensures
        texts(out@) == listing(texts(phrases@)),
{
    let mut out: Vec<String> = Vec::new();
    out.push(String::from_str("Here are the phrases you entered:"));
    let mut i: usize = 0;
    while i < phrases.len()
        invariant
            i <= phrases.len(),
            out.len() == i + 1,
            out@[0]@ == header(),
            forall|j: int| 0 <= j < i ==> (#[trigger] out@[j + 1])@ == marked(phrases@[j]@),
        decreases phrases.len() - i,
    {
        out.push(mark_phrase(phrases[i].as_str()));
        i += 1;
    }
    proof {
        let got = texts(out@);
        let want = listing(texts(phrases@));
        assert(got.len() == want.len());
        assert forall|k: int| 0 <= k < got.len() implies got[k] == want[k] by {
            if k > 0 {
                let j = k - 1;
                assert(out@[j + 1]@ == marked(phrases@[j]@));
            }
        }
        assert(got =~= want);
    }
    out
}

} // verus!
