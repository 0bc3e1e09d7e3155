//! The four counters over a text, each stated over the text's characters.
use vstd::prelude::*;
use vstd::utf8::*;

verus! {

/// Number of bytes in the UTF-8 encoding of `s`.
pub open spec fn byte_size(s: Seq<char>) -> nat {
    encode_utf8(s).len()
}

/// Number of line feeds in `s`.
pub open spec fn newline_count(s: Seq<char>) -> nat
    decreases s.len(),
{
    if s.len() == 0 {
        0
    } else {
        newline_count(s.drop_last()) + if s.last() == '\n' { 1nat } else { 0nat }
    }
}

/// Number of lines of `s`: one per line feed, and one more for a last line
/// that has no line feed after it.
pub open spec fn line_count(s: Seq<char>) -> nat {
    if s.len() > 0 && s.last() != '\n' {
        newline_count(s) + 1
    } else {
        newline_count(s)
    }
}

/// ASCII white space: space, tab, line feed, vertical tab, form feed and
/// carriage return.
pub open spec fn is_white(c: char) -> bool {
    c == ' ' || c == '\t' || c == '\n' || c == '\x0B' || c == '\x0C' || c == '\r'
}

/// Whether a word starts at position `i` of `s`: a character that is not
/// white space, at the start or after white space.
pub open spec fn starts_word(s: Seq<char>, i: int) -> bool {
    &&& 0 <= i < s.len()
    &&& !is_white(s[i])
    &&& (i == 0 || is_white(s[i - 1]))
}

/// Number of maximal runs of characters that are not white space in `s`,
/// counted by where each run starts.
pub open spec fn word_count(s: Seq<char>) -> nat
    decreases s.len(),
{
    if s.len() == 0 {
        0
    } else {
        word_count(s.drop_last()) + if starts_word(s, s.len() - 1) { 1nat } else { 0nat }
    }
}

proof fn lemma_newline_count_bounded(s: Seq<char>)
    ensures
        newline_count(s) <= s.len(),
    decreases s.len(),
{
    if s.len() > 0 {
        lemma_newline_count_bounded(s.drop_last());
    }
}

/// Number of bytes of `contents`.
pub fn get_size_in_bytes(contents: &str) -> (r: usize)
    ensures
        r == byte_size(contents@),
{
    contents.as_bytes().len()
}

/// Number of Unicode scalar values of `contents`.
pub fn get_num_char(contents: &str) -> (r: usize)
    ensures
        r == contents@.len(),
{
    contents.unicode_len()
}

/// Number of lines of `contents`; a line feed at the very end adds no empty
/// line after it.
pub fn get_num_lines(contents: &str) -> (r: usize)
    ensures
        r == line_count(contents@),
{
    broadcast use vstd::string::group_string_axioms;

    let n = contents.unicode_len();
    let mut newlines: usize = 0;
    let mut last: Option<char> = None;
    for c in it: contents.chars()
        invariant
            n == contents@.len(),
            it.seq() == contents@,
            it.index() <= contents@.len(),
            newlines == newline_count(contents@.take(it.index() as int)),
            newlines <= it.index(),
            last == if it.index() == 0 {
                None::<char>
            } else {
                Some(contents@[it.index() - 1])
            },
    {
        proof {
            let k = it.index() as int;
            assert(contents@.take(k + 1).drop_last() =~= contents@.take(k));
        }
        if c == '\n' {
            newlines = newlines + 1;
        }
        last = Some(c);
    }
    proof {
        assert(contents@.take(contents@.len() as int) =~= contents@);
        if n > 0 {
            lemma_newline_count_bounded(contents@.drop_last());
        }
    }
    match last {
        Some(c) if c != '\n' => newlines + 1,
        _ => newlines,
    }
}

/// Number of words of `contents`: maximal runs of characters that are not
/// ASCII white space.
pub fn get_num_words(contents: &str) -> (r: usize)
    ensures
        r == word_count(contents@),
{
    broadcast use vstd::string::group_string_axioms;

    let n = contents.unicode_len();
    let mut words: usize = 0;
    let mut after_white = true;
    for c in it: contents.chars()
        invariant
            n == contents@.len(),
            it.seq() == contents@,
            it.index() <= contents@.len(),
            words == word_count(contents@.take(it.index() as int)),
            words <= it.index(),
            after_white == (it.index() == 0 || is_white(contents@[it.index() - 1])),
    {
        proof {
            let k = it.index() as int;
            let t = contents@.take(k + 1);
            assert(t.drop_last() =~= contents@.take(k));
            assert(starts_word(t, k) == (!is_white(c) && after_white));
        }
        let white = c == ' ' || c == '\t' || c == '\n' || c == '\x0B' || c == '\x0C' || c == '\r';
        if !white && after_white {
            words = words + 1;
        }
        after_white = white;
    }
    proof {
        assert(contents@.take(contents@.len() as int) =~= contents@);
    }
    words
}

/// Every character takes at least one byte, and an ASCII character exactly
/// one: the byte count of a text is at least its character count, and equal
/// to it when the text is ASCII.
pub proof fn lemma_bytes_cover_chars(s: &str)
    ensures
        byte_size(s@) >= s@.len(),
        vstd::string::is_ascii(s) ==> byte_size(s@) == s@.len(),
{
    lemma_encoding_at_least_one_byte_each(s@);
    if vstd::string::is_ascii(s) {
        is_ascii_chars_encode_utf8(s@);
    }
}

proof fn lemma_encoding_at_least_one_byte_each(s: Seq<char>)
    ensures
        encode_utf8(s).len() >= s.len(),
    decreases s.len(),
{
    if s.len() > 0 {
        lemma_encoding_at_least_one_byte_each(s.drop_first());
    }
}

/// The four counts depend on the text alone: two texts with the same
/// characters, or one text counted twice, give the same counts.
pub proof fn lemma_counts_depend_on_text_alone(s: &str, t: &str)
    requires
        s@ == t@,
    ensures
        byte_size(s@) == byte_size(t@),
        line_count(s@) == line_count(t@),
        word_count(s@) == word_count(t@),
        s@.len() == t@.len(),
{
}

} // verus!
