//! Live transcription of one source, utterance by utterance.
//!
//! [`StreamingTranscriber`] cuts the audio into utterances and keeps the end of what
//! was recognised as the prompt of the next pass. It runs no inference itself: it
//! hands out what to infer, and is handed the text.

use vstd::prelude::*;
use vstd::string::*;
use vstd::utf8::*;

use super::vad::{FlushSignal, Vad, VadSegmenter};
use crate::listener::error::ListenerError;
use crate::text::{
    chars_of, find_from, index_from, law_found_place_is_the_first, lemma_index_from, string_of,
};

verus! {

/// The prompt holds at most this many bytes of recognised text.
pub const MAX_PROMPT_CHARS: usize = 200;

/// What is said of the mode that is not wired yet.
pub const RESERVED_MODE: &'static str = "LocalAgreement — reserved: see PLAN Decision #21";

/// Selects how live audio is transcribed.
#[derive(Debug, Clone, Copy, PartialEq, Eq, Structural)]
pub enum StreamMode {
    /// Utterance by utterance, as an energy gate separates them.
    VadGated,
    /// Two-pass sliding window; reserved.
    LocalAgreement,
}

/// Result of feeding one block.
#[derive(Debug)]
pub struct FeedResult {
    /// A newly committed utterance, if one is ready.
    pub committed: Option<String>,
    /// Text that is not confirmed yet; always empty here.
    pub tentative: String,
}

/// What is due after one block.
#[derive(Debug)]
pub enum FeedStep<T> {
    /// Nothing to infer.
    Done(FeedResult),
    /// Infer `samples` with `prompt`, then [`StreamingTranscriber::commit`] the text.
    Infer { samples: Vec<T>, prompt: String },
}

/// A live transcriber of one source.
#[derive(Debug)]
pub struct StreamingTranscriber<T> {
    pub segmenter: VadSegmenter<T>,
    pub mode: StreamMode,
    /// End of the recognised text, the prompt of the next pass.
    pub prev_tail: String,
}

/// The error of a mode that is not wired, if the mode is one.
pub fn mode_error(mode: StreamMode) -> (error: Option<ListenerError>)
    ensures
        match mode {
            StreamMode::VadGated => error is None,
            StreamMode::LocalAgreement => error matches Some(ListenerError::NotImplemented(m))
                && m@ == RESERVED_MODE@,
        },
{
    match mode {
        StreamMode::VadGated => None,
        StreamMode::LocalAgreement => Some(ListenerError::NotImplemented(RESERVED_MODE)),
    }
}

// ── The prompt ────────────────────────────────────────────────────────────────

/// The kept text with a new utterance behind it.
pub open spec fn appended(tail: Seq<char>, text: Seq<char>) -> Seq<char> {
    if tail.len() == 0 {
        text
    } else {
        tail + " "@ + text
    }
}

/// The longest end of `s`, in whole characters, that fits into the prompt's bytes.
pub open spec fn fitting(s: Seq<char>) -> Seq<char>
    decreases s.len(),
{
    if s.len() == 0 || encode_utf8(s).len() <= MAX_PROMPT_CHARS {
        s
    } else {
        fitting(s.drop_first())
    }
}

/// `s` cut to the end of it that fits, and then to the first word that begins in there.
pub open spec fn clipped(s: Seq<char>) -> Seq<char> {
    if encode_utf8(s).len() <= MAX_PROMPT_CHARS {
        s
    } else {
        let end = fitting(s);
        match index_from(end, " "@, 0) {
            Some(i) => end.skip(i + 1),
            None => end,
        }
    }
}

/// How many bytes a character takes.
fn width(c: char) -> (n: usize)
    ensures
        n == encode_scalar(c as u32).len(),
        1 <= n <= 4,
{
    let scalar: u32 = c as u32;
    if scalar < 0x80 {
        1
    } else if scalar < 0x800 {
        2
    } else if scalar < 0x1_0000 {
        3
    } else {
        4
    }
}

fn clip(s: String) -> (tail: String)
    ensures
        tail@ == clipped(s@),
{
    let mut left: usize = s.as_str().as_bytes().len();
    if left <= MAX_PROMPT_CHARS {
        return s;
    }
    let chars = chars_of(s.as_str());
    let n: usize = chars.len();
    let mut start: usize = 0;
    assert(s@.skip(0) =~= s@);
    while left > MAX_PROMPT_CHARS
        invariant
            start <= n,
            n == chars@.len(),
            chars@ == s@,
            left == encode_utf8(s@.skip(start as int)).len(),
            fitting(s@.skip(start as int)) == fitting(s@),
        decreases left,
    {
        assert(s@.skip(start as int).len() > 0);
        assert(s@.skip(start as int).drop_first() =~= s@.skip(start + 1));
        left = left - width(chars[start]);
        start = start + 1;
    }
    let ghost end = s@.skip(start as int);
    assert(end == fitting(s@));
    let mut space: Vec<char> = Vec::new();
    space.push(' ');
    proof {
        reveal_strlit(" ");
        assert(space@ =~= " "@);
        lemma_index_from_skip(s@, " "@, start as int, 0);
        lemma_index_from(s@, " "@, start as int);
    }
    match find_from(&chars, &space, start) {
        Some(i) => {
            assert(end.skip(i - start + 1) =~= s@.subrange(i + 1, n as int));
            string_of(&chars, i + 1, n)
        },
        None => {
            assert(end =~= s@.subrange(start as int, n as int));
            string_of(&chars, start, n)
        },
    }
}

/// A search in the end of a text finds what a search of the text from there on finds.
proof fn lemma_index_from_skip(s: Seq<char>, sep: Seq<char>, cut: int, start: int)
    requires
        0 <= cut <= s.len(),
        start >= 0,
    ensures
        index_from(s.skip(cut), sep, start) == (match index_from(s, sep, cut + start) {
            Some(i) => Some(i - cut),
            None => None,
        }),
    decreases s.len() - cut - start + 1,
{
    if cut + start + sep.len() <= s.len() {
        assert(s.skip(cut).subrange(start, start + sep.len()) =~= s.subrange(
            cut + start,
            cut + start + sep.len(),
        ));
        if s.subrange(cut + start, cut + start + sep.len()) != sep {
            lemma_index_from_skip(s, sep, cut, start + 1);
        }
    }
}

// ── Transcriber ───────────────────────────────────────────────────────────────

impl<T: Copy> StreamingTranscriber<T> {
    /// A transcriber that has heard nothing.
    pub fn new(mode: StreamMode) -> (t: Self)
        ensures
            t.mode == mode,
            t.segmenter@ == Vad::<T>::empty(),
            t.segmenter@.wf(),
            t.prev_tail@.len() == 0,
    {
        let prev_tail = String::new();
        StreamingTranscriber { segmenter: VadSegmenter::new(), mode, prev_tail }
    }

    /// Feed one block; `is_speech` tells whether its energy reaches the speech floor.
    pub fn feed(&mut self, block: &[T], is_speech: bool) -> (step: Result<
        FeedStep<T>,
        ListenerError,
    >)
        requires
            old(self).segmenter@.wf(),
        ensures
            final(self).mode == old(self).mode,
            final(self).prev_tail == old(self).prev_tail,
            final(self).segmenter@.wf(),
            match old(self).mode {
                StreamMode::LocalAgreement => {
                    &&& step matches Err(ListenerError::NotImplemented(m)) && m@ == RESERVED_MODE@
                    &&& final(self).segmenter == old(self).segmenter
                },
                StreamMode::VadGated => {
                    &&& final(self).segmenter@ == old(self).segmenter@.after(block@, is_speech)
                    &&& match old(self).segmenter@.flushes(block@, is_speech) {
                        Some(utterance) => step matches Ok(FeedStep::Infer { samples, prompt })
                            && samples@ == utterance && prompt@ == old(self).prev_tail@,
                        None => step matches Ok(FeedStep::Done(result)) && result.committed is None
                            && result.tentative@.len() == 0,
                    }
                },
            },
    {
        match mode_error(self.mode) {
            Some(e) => return Err(e),
            None => {},
        }
        match self.segmenter.feed(block, is_speech) {
            FlushSignal::NoFlush => Ok(
                FeedStep::Done(FeedResult { committed: None, tentative: String::new() }),
            ),
            FlushSignal::Flush(samples) => {
                let prompt = self.prev_tail.clone();
                Ok(FeedStep::Infer { samples, prompt })
            },
        }
    }

    /// Take the text of an utterance: commit it unless it is empty, and keep its end as
    /// the prompt of the next one.
    pub fn commit(&mut self, text: String) -> (result: FeedResult)
        ensures
            final(self).mode == old(self).mode,
            final(self).segmenter == old(self).segmenter,
            result.tentative@.len() == 0,
            result.committed matches Some(t) ==> t@.len() > 0,
            text@.len() == 0 ==> result.committed is None && final(self).prev_tail == old(
                self,
            ).prev_tail,
            text@.len() > 0 ==> {
                &&& result.committed matches Some(t) && t@ == text@
                &&& final(self).prev_tail@ == clipped(appended(old(self).prev_tail@, text@))
                &&& final(self).prev_tail@.is_suffix_of(appended(old(self).prev_tail@, text@))
                &&& encode_utf8(final(self).prev_tail@).len() <= MAX_PROMPT_CHARS
            },
    {
        if text.as_str().is_empty() {
            return FeedResult { committed: None, tentative: String::new() };
        }
        let combined = if self.prev_tail.as_str().is_empty() {
            text.clone()
        } else {
            let mut both = self.prev_tail.clone();
            both.append(" ");
            both.append(text.as_str());
            both
        };
        assert(combined@ =~= appended(old(self).prev_tail@, text@));
        proof {
            law_prompt_is_bounded(combined@);
        }
        self.prev_tail = clip(combined);
        FeedResult { committed: Some(text), tentative: String::new() }
    }
}

// ── Laws ──────────────────────────────────────────────────────────────────────

/// The prompt is an end of what was recognised, and holds no more than its share of bytes.
pub proof fn law_prompt_is_bounded(s: Seq<char>)
    ensures
        clipped(s).is_suffix_of(s),
        encode_utf8(clipped(s)).len() <= MAX_PROMPT_CHARS,
{
    if encode_utf8(s).len() > MAX_PROMPT_CHARS {
        lemma_fitting(s);
        let end = fitting(s);
        lemma_index_from(end, " "@, 0);
        reveal_strlit(" ");
        match index_from(end, " "@, 0) {
            Some(i) => {
                lemma_suffix_is_no_longer(end, i + 1);
                assert(end.skip(i + 1) =~= s.skip(s.len() - end.len() + i + 1));
            },
            None => {},
        }
    }
}

/// Before it is cut to a word, the prompt is the longest end that fits: no longer one has
/// so few bytes.
pub proof fn law_prompt_takes_what_fits(s: Seq<char>, n: int)
    requires
        0 <= n <= s.len(),
        encode_utf8(s.skip(n)).len() <= MAX_PROMPT_CHARS,
    ensures
        fitting(s).len() >= s.len() - n,
    decreases s.len(),
{
    if s.len() > 0 && encode_utf8(s).len() > MAX_PROMPT_CHARS {
        if n == 0 {
            assert(s.skip(0) =~= s);
        } else {
            assert(s.drop_first().skip(n - 1) =~= s.skip(n));
            law_prompt_takes_what_fits(s.drop_first(), n - 1);
        }
    }
}

proof fn lemma_fitting(s: Seq<char>)
    ensures
        fitting(s).len() <= s.len(),
        fitting(s) == s.skip(s.len() - fitting(s).len()),
        encode_utf8(fitting(s)).len() <= MAX_PROMPT_CHARS,
    decreases s.len(),
{
    if s.len() == 0 || encode_utf8(s).len() <= MAX_PROMPT_CHARS {
        assert(s.skip(0) =~= s);
    } else {
        let rest = s.drop_first();
        lemma_fitting(rest);
        assert(rest.skip(rest.len() - fitting(rest).len()) =~= s.skip(
            s.len() - fitting(rest).len(),
        ));
    }
}

/// Dropping characters from the front drops bytes.
proof fn lemma_suffix_is_no_longer(s: Seq<char>, n: int)
    requires
        0 <= n <= s.len(),
    ensures
        encode_utf8(s.skip(n)).len() <= encode_utf8(s).len(),
    decreases n,
{
    if n == 0 {
        assert(s.skip(0) =~= s);
    } else {
        lemma_suffix_is_no_longer(s.drop_first(), n - 1);
        assert(s.drop_first().skip(n - 1) =~= s.skip(n));
    }
}

/// A new utterance comes behind what was kept, with one space between them where something
/// was kept.
pub proof fn law_prompt_takes_new_text(tail: Seq<char>, text: Seq<char>)
    ensures
        ({
            let both = appended(tail, text);
            &&& both.take(tail.len() as int) == tail
            &&& both.skip(both.len() - text.len()) == text
            &&& both.len() == tail.len() + text.len() + (if tail.len() > 0 {
                1int
            } else {
                0
            })
            &&& tail.len() > 0 ==> both[tail.len() as int] == ' '
        }),
{
    reveal_strlit(" ");
    let both = appended(tail, text);
    assert(both.take(tail.len() as int) =~= tail);
    assert(both.skip(both.len() - text.len()) =~= text);
}

/// What fits into 200 bytes is kept whole. Of a longer text the prompt is the longest end that
/// fits, from the character behind its first space on, or all of it where it has no space.
pub proof fn law_prompt_begins_at_a_word(s: Seq<char>)
    ensures
        encode_utf8(s).len() <= 200 ==> clipped(s) == s,
        encode_utf8(s).len() > 200 ==> exists|cut: int, word: int|
            {
                &&& 0 < cut <= word <= s.len()
                &&& encode_utf8(#[trigger] s.skip(cut)).len() <= 200
                &&& encode_utf8(s.skip(cut - 1)).len() > 200
                &&& clipped(s) == #[trigger] s.skip(word)
                &&& if word == cut {
                    !s.skip(cut).contains(' ')
                } else {
                    s[word - 1] == ' ' && !s.subrange(cut, word - 1).contains(' ')
                }
            },
{
    if encode_utf8(s).len() > 200 {
        reveal_strlit(" ");
        assert(" "@ =~= seq![' ']);
        lemma_fitting(s);
        let end = fitting(s);
        let cut = s.len() - end.len();
        if cut == 0 {
            assert(s.skip(0) =~= s);
        }
        if encode_utf8(s.skip(cut - 1)).len() <= 200 {
            law_prompt_takes_what_fits(s, cut - 1);
        }
        law_found_place_is_the_first(end, " "@, 0);
        match index_from(end, " "@, 0) {
            Some(i) => {
                let word = cut + i + 1;
                assert(end.skip(i + 1) =~= s.skip(word));
                assert(end.subrange(i, i + 1)[0] == ' ');
                assert(s[word - 1] == ' ');
                assert(!s.subrange(cut, word - 1).contains(' ')) by {
                    let head = s.subrange(cut, word - 1);
                    assert forall|j: int| 0 <= j < i implies #[trigger] head[j] != ' ' by {
                        assert(end.subrange(j, j + 1) != " "@);
                        if head[j] == ' ' {
                            assert(end[j] == ' ');
                            assert(end.subrange(j, j + 1) =~= " "@);
                        }
                    }
                }
                assert(s.skip(cut) == end && clipped(s) == s.skip(word));
            },
            None => {
                assert(!end.contains(' ')) by {
                    assert forall|j: int| 0 <= j < end.len() implies end[j] != ' ' by {
                        assert(end.subrange(j, j + 1) != " "@);
                        if end[j] == ' ' {
                            assert(end.subrange(j, j + 1) =~= " "@);
                        }
                    }
                }
                assert(s.skip(cut) == end && clipped(s) == s.skip(cut));
            },
        }
    }
}

} // verus!
