//! The buffered collector: whole lines, ended by the first empty one.

use vstd::prelude::*;
use crate::line::{is_line_end, kept_len, lemma_kept_len, strip_line_end, stripped, texts};

verus! {

/// Why a read of the input stream gave no line.
#[derive(Clone, Copy, Debug, PartialEq, Eq)]
pub enum InputError {
    /// The stream ended where a line was expected.
    EndOfInput,
}

/// What the buffered collector hands back when it meets the empty line.
#[derive(Debug)]
pub struct Collected {
    /// The phrases in the order of entry.
    pub phrases: Vec<String>,
    /// How many lines were taken from the input, the empty one included.
    pub reads: usize,
}

/// A line that ends the collection: nothing is left of it without its line ending.
pub open spec fn is_terminator(raw: Seq<char>) -> bool {
    stripped(raw).len() == 0
}

/// Some line of `lines` ends the collection.
pub open spec fn has_terminator(lines: Seq<Seq<char>>) -> bool {
    exists|k: int| 0 <= k < lines.len() && is_terminator(#[trigger] lines[k])
}

/// `reads` lines of `lines` were taken: the last of them is the first
/// terminator, and `phrases` holds the ones before it, each without its line
/// ending.
pub open spec fn collects(lines: Seq<Seq<char>>, phrases: Seq<Seq<char>>, reads: int) -> bool {
    &&& 1 <= reads <= lines.len()
    &&& is_terminator(lines[reads - 1])
    &&& phrases.len() == reads - 1
    &&& forall|i: int|
        0 <= i < reads - 1 ==> !is_terminator(#[trigger] lines[i]) && phrases[i] == stripped(
            lines[i],
        )
}

/// Turns one read of the input stream into a phrase.
///
/// `input` is the line as it was read, with or without its line ending, or
/// `None` where the stream had ended. The end of the stream is an error; a line
/// that is empty without its line ending gives `Ok(None)`; any other line gives
/// the phrase, which is the line without its line ending.
pub fn read_line(input: Option<&str>) -> (r: Result<Option<String>, InputError>)
    ensures
        match input {
            None => r == Err::<Option<String>, InputError>(InputError::EndOfInput),
            Some(raw) => match r {
                Ok(Some(phrase)) => !is_terminator(raw@) && phrase@ == stripped(raw@),
                Ok(None) => is_terminator(raw@),
                Err(_) => false,
            },
        },
{
    match input {
        None => Err(InputError::EndOfInput),
        Some(raw) => {
            let phrase = strip_line_end(raw);
            if phrase.as_str().unicode_len() == 0 {
                Ok(None)
            } else {
                Ok(Some(phrase))
            }
        },
    }
}

/// Collects phrases from `lines`, read in order, up to the first empty line.
///
/// Lines after the empty one are not looked at. Where no line is empty the
/// stream ends before the collection does, which is an error.
pub fn read_phrases(lines: &Vec<String>) -> (r: Result<Collected, InputError>)
    ensures
        r is Ok <==> has_terminator(texts(lines@)),
        match r {
            Ok(c) => collects(texts(lines@), texts(c.phrases@), c.reads as int),
            Err(e) => e == InputError::EndOfInput,
        },
{
    let ghost all = texts(lines@);
    let mut phrases: Vec<String> = Vec::new();
    let mut i: usize = 0;
    while i < lines.len()
        invariant
            i <= lines.len(),
            all == texts(lines@),
            phrases.len() == i,
            forall|j: int|
                0 <= j < i ==> !is_terminator(#[trigger] all[j]) && texts(phrases@)[j] == stripped(
                    all[j],
                ),
        decreases lines.len() - i,
    {
        let step = read_line(Some(lines[i].as_str()));
        assert(all[i as int] == lines@[i as int]@);
        match step {
            Ok(Some(phrase)) => {
                let ghost before = texts(phrases@);
                phrases.push(phrase);
                assert forall|j: int| 0 <= j < i + 1 implies !is_terminator(#[trigger] all[j])
                    && texts(phrases@)[j] == stripped(all[j]) by {
                    if j < i {
                        assert(texts(phrases@)[j] == before[j]);
                    }
                }
            },
            Ok(None) => {
                return Ok(Collected { phrases, reads: i + 1 });
            },
            Err(e) => {
                return Err(e);
            },
        }
        i += 1;
    }
    match read_line(None) {
        Ok(_) => Ok(Collected { phrases, reads: i }),
        Err(e) => Err(e),
    }
}

/// Any number of lines that are not empty, followed by an empty line, are
/// collected whole: the phrases are exactly those lines, in order, and one read
/// more than their number is made. The lines are taken as they are entered,
/// without a line ending.
pub proof fn law_lines_before_empty_line(lines: Seq<Seq<char>>, n: int)
    requires
        0 <= n < lines.len(),
        forall|i: int|
            0 <= i < n ==> (#[trigger] lines[i]).len() > 0 && !is_line_end(lines[i].last()),
        lines[n].len() == 0,
    ensures
        has_terminator(lines),
        collects(lines, lines.take(n), n + 1),
        forall|phrases: Seq<Seq<char>>, reads: int| #[trigger]
            collects(lines, phrases, reads) ==> phrases == lines.take(n) && reads == n + 1,
{
    assert(is_terminator(lines[n])) by {
        lemma_kept_len(lines[n]);
    }
    assert forall|i: int| 0 <= i < n implies !is_terminator(#[trigger] lines[i]) && lines.take(
        n,
    )[i] == stripped(lines[i]) by {
        let l = lines[i];
        assert(kept_len(l) == l.len());
        assert(l.take(l.len() as int) =~= l);
    }
    assert forall|phrases: Seq<Seq<char>>, reads: int| #[trigger]
        collects(lines, phrases, reads) implies phrases == lines.take(n) && reads == n + 1 by {
        if reads - 1 < n {
            assert(!is_terminator(lines[reads - 1]));
        }
        if reads - 1 > n {
            assert(!is_terminator(lines[n]));
        }
        assert(phrases =~= lines.take(n));
    }
}

/// A line made of characters other than carriage return and line feed, spaces
/// for one, does not end the collection: it is a phrase, unchanged.
pub proof fn law_blank_line_is_phrase(line: Seq<char>)
    requires
        line.len() > 0,
        forall|i: int| 0 <= i < line.len() ==> !is_line_end(#[trigger] line[i]),
    ensures
        !is_terminator(line),
        stripped(line) == line,
{
    assert(!is_line_end(line[line.len() - 1]));
    assert(kept_len(line) == line.len());
    assert(line.take(line.len() as int) =~= line);
}

} // verus!
