//! What inference hands back: timed words, and segments joined to a transcript.

use vstd::prelude::*;

use crate::text::{is_blank, join, joined, lemma_trimmed_empty_iff_blank, texts, trim, trimmed};

verus! {

/// A recognised word and where it ends.
#[derive(Debug, Clone)]
pub struct TimedWord {
    pub text: String,
    /// End of the word in hundredths of a second from the start of the window.
    pub end_cs: i64,
}

/// The texts of a list of words.
pub open spec fn word_texts(words: Seq<TimedWord>) -> Seq<Seq<char>> {
    words.map_values(|w: TimedWord| w.text@)
}

/// The words of a list, with a space between neighbours.
pub fn words_to_string(words: &[TimedWord]) -> (s: String)
    ensures
        s@ == joined(word_texts(words@), " "@),
{
    let mut list: Vec<String> = Vec::new();
    let mut i: usize = 0;
    while i < words.len()
        invariant
            i <= words@.len(),
            texts(list@) =~= word_texts(words@).take(i as int),
        decreases words@.len() - i,
    {
        let ghost before = list@;
        list.push(words[i].text.clone());
        assert(texts(list@) =~= texts(before).push(words@[i as int].text@));
        i = i + 1;
    }
    assert(word_texts(words@).take(i as int) =~= word_texts(words@));
    join(&list, " ")
}

/// The segments that hold more than white space, trimmed.
pub open spec fn spoken(segments: Seq<Seq<char>>) -> Seq<Seq<char>>
    decreases segments.len(),
{
    if segments.len() == 0 {
        Seq::empty()
    } else {
        let rest = spoken(segments.drop_last());
        let last = trimmed(segments.last());
        if last.len() == 0 {
            rest
        } else {
            rest.push(last)
        }
    }
}

/// The transcript that the decoder's segments make: each trimmed, the empty ones left
/// out, a space between neighbours.
pub fn join_segments(segments: &Vec<String>) -> (transcript: String)
    ensures
        transcript@ == joined(spoken(texts(segments@)), " "@),
{
    let mut parts: Vec<String> = Vec::new();
    let mut i: usize = 0;
    while i < segments.len()
        invariant
            i <= segments@.len(),
            texts(parts@) == spoken(texts(segments@).take(i as int)),
        decreases segments@.len() - i,
    {
        let ghost before = parts@;
        assert(texts(segments@).take(i + 1).drop_last() =~= texts(segments@).take(i as int));
        assert(texts(segments@).take(i + 1).last() == segments@[i as int]@);
        let piece = trim(segments[i].as_str());
        if !piece.is_empty() {
            parts.push(piece.to_owned());
            assert(texts(parts@) =~= texts(before).push(piece@));
        }
        i = i + 1;
    }
    assert(texts(segments@).take(i as int) =~= texts(segments@));
    join(&parts, " ")
}

/// Decoder progress as a percentage: values outside 0 to 100 are cut off at the ends.
pub fn progress_percent(p: i32) -> (percent: u8)
    ensures
        percent == (if p < 0 {
            0int
        } else if p > 100 {
            100int
        } else {
            p as int
        }),
{
    if p < 0 {
        0
    } else if p > 100 {
        100
    } else {
        p as u8
    }
}

/// Segments are taken one by one, in order: one that holds more than white space gives its
/// text without the white space around it, any other one nothing.
pub proof fn law_segments_are_taken_in_order(
    a: Seq<Seq<char>>,
    b: Seq<Seq<char>>,
    segment: Seq<char>,
)
    ensures
        is_blank(segment) ==> spoken(seq![segment]) == Seq::<Seq<char>>::empty(),
        !is_blank(segment) ==> spoken(seq![segment]) == seq![trimmed(segment)],
        spoken(a + b) == spoken(a) + spoken(b),
    decreases b.len(),
{
    lemma_trimmed_empty_iff_blank(segment);
    assert(seq![segment].drop_last() =~= Seq::<Seq<char>>::empty());
    assert(spoken(Seq::<Seq<char>>::empty()) =~= Seq::<Seq<char>>::empty());
    assert(spoken(seq![segment]) =~= if is_blank(segment) {
        Seq::<Seq<char>>::empty()
    } else {
        seq![trimmed(segment)]
    });
    if b.len() == 0 {
        assert(a + b =~= a);
        assert(spoken(a) + spoken(b) =~= spoken(a));
    } else {
        law_segments_are_taken_in_order(a, b.drop_last(), segment);
        assert((a + b).drop_last() =~= a + b.drop_last());
        assert(spoken(a + b) =~= spoken(a) + spoken(b));
    }
}

/// There are as many texts as words, each at its word's place.
pub proof fn law_words_keep_their_texts(words: Seq<TimedWord>)
    ensures
        word_texts(words).len() == words.len(),
        forall|i: int| 0 <= i < words.len() ==> #[trigger] word_texts(words)[i] == words[i].text@,
{
}

} // verus!
