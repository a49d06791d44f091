//! LocalAgreement-2 sliding-window segmenter.
//!
//! Inference runs on a rolling audio window every few seconds. Words that two
//! consecutive passes agree on are committed, from the front; the rest is shown as
//! tentative. An energy gate keeps inference off during silence, and a trailing
//! silence closes the utterance.
//!
//! The segmenter knows no model: it says when a pass is due, and is handed the words.

use vstd::prelude::*;
use vstd::utf8::is_ascii_chars;

use super::engine::{word_texts, words_to_string, TimedWord};
use crate::samples::{drop_oldest, extend};
use crate::text::{
    ascii_lowered, joined, law_trimming_takes_only_the_ends, lemma_joined_split,
    lemma_lowered_trims_alike, lowered, trim_of, trimmed_of, CharClass,
};

verus! {

// ── Thresholds, in samples at 16 kHz ──────────────────────────────────────────

/// New samples between two passes (3 s).
pub const STEP_SAMPLES: usize = 48_000;

/// The smallest window that a pass is worth running on (3 s).
pub const MIN_INFERENCE_SAMPLES: usize = 48_000;

/// The trailing silence that closes an utterance (0.5 s).
pub const TRAILING_SILENCE_SAMPLES: usize = 8_000;

/// The window length that closes an utterance without a silence (15 s).
pub const MAX_WINDOW_SAMPLES: usize = 240_000;

/// Samples in a hundredth of a second.
pub const SAMPLES_PER_CS: i64 = 160;

// ── Types ─────────────────────────────────────────────────────────────────────

/// What is due after one block.
#[derive(Debug, Clone, Copy, PartialEq, Eq, Structural)]
pub enum LaAction {
    /// Keep buffering.
    Wait,
    /// Run inference on the window. A final pass closes the utterance.
    RunPass { is_final: bool },
}

/// What a pass settled.
#[derive(Debug)]
pub struct PassOutcome {
    /// Newly committed text, if any words are committed.
    pub committed: Option<String>,
    /// Words that are not confirmed yet; empty after a final pass.
    pub tentative: String,
}

/// LocalAgreement-2 state.
#[derive(Debug)]
pub struct LocalAgreementSegmenter<T> {
    /// The window; its first sample is the first one not committed.
    pub buf: Vec<T>,
    /// Samples appended since the last pass.
    pub new_since_pass: usize,
    /// The words of the last pass that were not committed.
    pub prev_words: Vec<TimedWord>,
    /// Silence at the end of the window.
    pub silence_run: usize,
    /// Whether speech has been heard in this utterance.
    pub saw_speech: bool,
}

// ── Agreement ─────────────────────────────────────────────────────────────────

/// A word in the form in which two passes are compared: lower case, without ASCII
/// punctuation at its ends.
pub open spec fn normal_form(word: Seq<char>) -> Seq<char> {
    trimmed_of(lowered(word), CharClass::Punctuation)
}

/// Whether two words count as the same.
pub open spec fn agree(a: Seq<char>, b: Seq<char>) -> bool {
    normal_form(a) == normal_form(b)
}

/// Whether the first `k` words of both passes agree pairwise.
pub open spec fn agree_up_to(prev: Seq<Seq<char>>, new: Seq<Seq<char>>, k: int) -> bool {
    &&& 0 <= k <= prev.len()
    &&& k <= new.len()
    &&& forall|i: int| #![trigger prev[i]] 0 <= i < k ==> agree(prev[i], new[i])
}

/// Whether `k` is the length of the longest agreeing prefix.
pub open spec fn is_agreement(prev: Seq<Seq<char>>, new: Seq<Seq<char>>, k: int) -> bool {
    &&& agree_up_to(prev, new, k)
    &&& k == prev.len() || k == new.len() || !agree(prev[k], new[k])
}

fn norm(s: &str) -> (form: String)
    ensures
        form@ == normal_form(s@),
{
    let lower = s.to_lowercase();
    trim_of(lower.as_str(), CharClass::Punctuation).to_owned()
}

/// How many words at the front two passes agree on.
pub fn longest_agreeing_prefix(prev: &[TimedWord], new: &[TimedWord]) -> (k: usize)
    ensures
        is_agreement(word_texts(prev@), word_texts(new@), k as int),
{
    let ghost p = word_texts(prev@);
    let ghost n = word_texts(new@);
    let mut k: usize = 0;
    while k < prev.len() && k < new.len()
        invariant
            p == word_texts(prev@),
            n == word_texts(new@),
            agree_up_to(p, n, k as int),
        decreases prev@.len() - k,
    {
        let a = norm(prev[k].text.as_str());
        let b = norm(new[k].text.as_str());
        if a != b {
            assert(!agree(p[k as int], n[k as int]));
            return k;
        }
        assert(agree(p[k as int], n[k as int]));
        k = k + 1;
    }
    k
}

// ── Segmenter ─────────────────────────────────────────────────────────────────

/// What is due with a window of `len` samples, `fresh` of them new and a silence of
/// `silence` at the end.
pub open spec fn due(len: int, fresh: int, silence: int) -> LaAction {
    if len >= MAX_WINDOW_SAMPLES || silence >= TRAILING_SILENCE_SAMPLES {
        LaAction::RunPass { is_final: true }
    } else if fresh >= STEP_SAMPLES && len >= MIN_INFERENCE_SAMPLES {
        LaAction::RunPass { is_final: false }
    } else {
        LaAction::Wait
    }
}

/// The window after committing words that end at `end_cs` hundredths of a second.
pub open spec fn trimmed_window<T>(buf: Seq<T>, end_cs: int) -> Seq<T> {
    let cut = end_cs * SAMPLES_PER_CS;
    if 0 <= cut < buf.len() {
        buf.skip(cut)
    } else {
        Seq::empty()
    }
}

impl<T: Copy> LocalAgreementSegmenter<T> {
    /// A segmenter that has heard nothing.
    pub fn new() -> (seg: Self)
        ensures
            seg.buf@.len() == 0,
            seg.new_since_pass == 0,
            seg.prev_words@.len() == 0,
            seg.silence_run == 0,
            !seg.saw_speech,
    {
        LocalAgreementSegmenter {
            buf: Vec::new(),
            new_since_pass: 0,
            prev_words: Vec::new(),
            silence_run: 0,
            saw_speech: false,
        }
    }

    /// Feed one block; `is_speech` tells whether its energy reaches the speech floor.
    pub fn feed(&mut self, block: &[T], is_speech: bool) -> (action: LaAction)
        requires
            old(self).new_since_pass + block@.len() <= usize::MAX,
            old(self).silence_run + block@.len() <= usize::MAX,
        ensures
            final(self).prev_words == old(self).prev_words,
            final(self).saw_speech == (old(self).saw_speech || is_speech),
            !old(self).saw_speech && !is_speech ==> *final(self) == *old(self) && action
                == LaAction::Wait,
            old(self).saw_speech || is_speech ==> {
                &&& final(self).buf@ == old(self).buf@ + block@
                &&& final(self).new_since_pass == old(self).new_since_pass + block@.len()
                &&& final(self).silence_run == (if is_speech {
                    0
                } else {
                    old(self).silence_run + block@.len()
                })
                &&& action == due(
                    final(self).buf@.len() as int,
                    final(self).new_since_pass as int,
                    final(self).silence_run as int,
                )
            },
    {
        if !self.saw_speech && !is_speech {
            return LaAction::Wait;
        }
        self.saw_speech = true;
        extend(&mut self.buf, block);
        self.new_since_pass = self.new_since_pass + block.len();
        self.silence_run = if is_speech {
            0
        } else {
            self.silence_run + block.len()
        };
        if self.buf.len() >= MAX_WINDOW_SAMPLES {
            return LaAction::RunPass { is_final: true };
        }
        if self.silence_run >= TRAILING_SILENCE_SAMPLES {
            return LaAction::RunPass { is_final: true };
        }
        if self.new_since_pass >= STEP_SAMPLES && self.buf.len() >= MIN_INFERENCE_SAMPLES {
            return LaAction::RunPass { is_final: false };
        }
        LaAction::Wait
    }

    /// Take the words of a pass.
    ///
    /// A final pass commits every word and starts afresh. Any other pass commits the
    /// words that agree with the last pass's tail, cuts the window behind the last of
    /// them, and keeps the rest as the tail to compare with.
    pub fn apply_pass(&mut self, new_words: Vec<TimedWord>, is_final: bool) -> (outcome:
        PassOutcome)
        ensures
            final(self).new_since_pass == 0,
            is_final ==> {
                &&& final(self).buf@.len() == 0
                &&& final(self).prev_words@.len() == 0
                &&& !final(self).saw_speech
                &&& final(self).silence_run == 0
                &&& outcome.tentative@.len() == 0
                &&& match outcome.committed {
                    Some(text) => text@ == joined(word_texts(new_words@), " "@) && text@.len() > 0,
                    None => joined(word_texts(new_words@), " "@).len() == 0,
                }
            },
            !is_final ==> {
                &&& final(self).saw_speech == old(self).saw_speech
                &&& final(self).silence_run == old(self).silence_run
                &&& exists|k: int|
                    #![trigger new_words@.skip(k)]
                    {
                        &&& is_agreement(word_texts(old(self).prev_words@), word_texts(new_words@), k)
                        &&& final(self).prev_words@ == new_words@.skip(k)
                        &&& outcome.tentative@ == joined(word_texts(new_words@.skip(k)), " "@)
                        &&& match outcome.committed {
                            Some(text) => k > 0 && text@ == joined(
                                word_texts(new_words@.take(k)),
                                " "@,
                            ) && final(self).buf@ == trimmed_window(
                                old(self).buf@,
                                new_words@[k - 1].end_cs as int,
                            ),
                            None => k == 0 && final(self).buf@ == old(self).buf@,
                        }
                    }
            },
    {
        self.new_since_pass = 0;
        if is_final {
            self.buf.clear();
            self.prev_words.clear();
            self.saw_speech = false;
            self.silence_run = 0;
            let text = words_to_string(new_words.as_slice());
            let committed = if text.as_str().is_empty() {
                None
            } else {
                Some(text)
            };
            return PassOutcome { committed, tentative: String::new() };
        }
        let mut new_words = new_words;
        let ghost all = new_words@;
        let k: usize = longest_agreeing_prefix(self.prev_words.as_slice(), new_words.as_slice());
        let committed = if k > 0 {
            let end_cs: i64 = new_words[k - 1].end_cs;
            let cut: i128 = end_cs as i128 * SAMPLES_PER_CS as i128;
            let len: usize = self.buf.len();
            if cut >= 0 && cut < len as i128 {
                drop_oldest(&mut self.buf, cut as usize);
            } else {
                self.buf.clear();
            }
            let rest = new_words.split_off(k);
            assert(new_words@ =~= all.take(k as int));
            let text = words_to_string(new_words.as_slice());
            new_words = rest;
            Some(text)
        } else {
            None
        };
        assert(new_words@ =~= all.skip(k as int));
        self.prev_words = new_words;
        let tentative = words_to_string(self.prev_words.as_slice());
        PassOutcome { committed, tentative }
    }
}

// ── Laws ──────────────────────────────────────────────────────────────────────

/// The longest agreeing prefix is one length, whichever way it is found.
pub proof fn law_agreement_is_unique(
    prev: Seq<Seq<char>>,
    new: Seq<Seq<char>>,
    j: int,
    k: int,
)
    requires
        is_agreement(prev, new, j),
        is_agreement(prev, new, k),
    ensures
        j == k,
{
    if j < k {
        assert(agree(prev[j], new[j]));
    }
    if k < j {
        assert(agree(prev[k], new[k]));
    }
}

/// Neither case nor the punctuation around a word matters: two ASCII words agree exactly
/// if, without that punctuation, they are the same letter by letter but for case.
pub proof fn law_case_and_punctuation_do_not_matter(a: Seq<char>, b: Seq<char>)
    requires
        is_ascii_chars(a),
        is_ascii_chars(b),
    ensures
        agree(a, b) <==> ascii_lowered(trimmed_of(a, CharClass::Punctuation)) == ascii_lowered(
            trimmed_of(b, CharClass::Punctuation),
        ),
{
    lemma_lowered_trims_alike(a);
    lemma_lowered_trims_alike(b);
}

/// No word of a pass is lost: what it commits and what it keeps make up all it heard.
pub proof fn law_pass_loses_no_word(words: Seq<TimedWord>, k: int)
    requires
        0 < k < words.len(),
    ensures
        joined(word_texts(words), " "@) == joined(word_texts(words.take(k)), " "@) + " "@ + joined(
            word_texts(words.skip(k)),
            " "@,
        ),
{
    lemma_joined_split(word_texts(words), " "@, k);
    assert(word_texts(words).take(k) =~= word_texts(words.take(k)));
    assert(word_texts(words).skip(k) =~= word_texts(words.skip(k)));
}

/// A pass is final exactly if the window has reached 15 s or the silence at its end half a
/// second. Short of both, one is due exactly if 3 s are new, and it is not final.
pub proof fn law_when_passes_are_due(len: int, fresh: int, silence: int)
    ensures
        due(len, fresh, silence) == (LaAction::RunPass { is_final: true }) <==> len >= 240_000
            || silence >= 8_000,
        due(len, fresh, silence) == (LaAction::RunPass { is_final: false }) <==> len < 240_000
            && silence < 8_000 && fresh >= 48_000 && len >= 48_000,
{
}

/// Agreement goes as far as it can: every word in it agrees, and every beginning on which
/// the passes agree lies in it.
pub proof fn law_agreement_is_the_longest(
    prev: Seq<Seq<char>>,
    new: Seq<Seq<char>>,
    j: int,
    k: int,
)
    requires
        is_agreement(prev, new, k),
        0 <= j <= prev.len(),
        j <= new.len(),
        forall|i: int| 0 <= i < j ==> normal_form(#[trigger] prev[i]) == normal_form(new[i]),
    ensures
        j <= k <= prev.len(),
        k <= new.len(),
        forall|i: int| 0 <= i < k ==> normal_form(#[trigger] prev[i]) == normal_form(new[i]),
{
    assert forall|i: int| 0 <= i < k implies normal_form(#[trigger] prev[i]) == normal_form(
        new[i],
    ) by {
        assert(agree(prev[i], new[i]));
    }
    if k < j {
        assert(normal_form(prev[k]) == normal_form(new[k]));
    }
}

/// A word is compared in lower case and without the punctuation around it, and what remains
/// of it is a stretch of its lower-case form.
pub proof fn law_normal_form(word: Seq<char>)
    ensures
        exists|a: int, b: int|
            {
                &&& 0 <= a <= b <= lowered(word).len()
                &&& normal_form(word) == #[trigger] lowered(word).subrange(a, b)
                &&& forall|i: int|
                    (0 <= i < a || b <= i < lowered(word).len()) ==> CharClass::Punctuation.has(
                        #[trigger] lowered(word)[i],
                    )
                &&& a < b ==> !CharClass::Punctuation.has(lowered(word)[a])
                    && !CharClass::Punctuation.has(lowered(word)[b - 1])
            },
{
    law_trimming_takes_only_the_ends(lowered(word), CharClass::Punctuation);
}

/// Committing words that end at some time cuts the window there: what remains is its end,
/// shorter by 160 samples for each hundredth of a second. An end that lies outside the
/// window leaves nothing of it.
pub proof fn law_window_is_cut_behind_the_words<T>(buf: Seq<T>, end_cs: int)
    ensures
        ({
            let rest = trimmed_window(buf, end_cs);
            &&& rest == buf.skip(buf.len() - rest.len())
            &&& 0 <= end_cs && end_cs * 160 <= buf.len() ==> rest.len() == buf.len() - end_cs * 160
            &&& end_cs < 0 || end_cs * 160 > buf.len() ==> rest.len() == 0
        }),
{
    let rest = trimmed_window(buf, end_cs);
    assert(rest =~= buf.skip(buf.len() - rest.len()));
}

/// While the segmenter waits, the window is short of the cap and of a closing silence.
pub proof fn law_waiting_window_is_short(len: int, fresh: int, silence: int)
    requires
        due(len, fresh, silence) == LaAction::Wait,
    ensures
        len < MAX_WINDOW_SAMPLES,
        silence < TRAILING_SILENCE_SAMPLES,
        fresh < STEP_SAMPLES || len < MIN_INFERENCE_SAMPLES,
{
}

/// A pass that repeats the words of the one before commits all of them.
pub proof fn law_repeated_pass_agrees(words: Seq<Seq<char>>, k: int)
    requires
        is_agreement(words, words, k),
    ensures
        k == words.len(),
{
}

} // verus!
