//! Rolling capture buffers of the current window, one per audio source.
//!
//! A trigger freezes what has been gathered as a [`Window`] and starts the next one.

use vstd::prelude::*;

use crate::samples::{extend, keep_newest, newest, take_all};
use crate::listener::transcribe::engine::spoken;
use crate::text::{
    is_blank, joined, law_joining_adds_each_part, lemma_trimmed_empty_iff_blank, trim, trimmed,
};

verus! {

/// Samples in a second.
pub const SAMPLE_RATE: u32 = 16_000;

/// An audio source.
#[derive(Debug, Clone, Copy, PartialEq, Eq, Structural)]
pub enum Source {
    /// The operator's own voice.
    Mic,
    /// The other party.
    Sys,
}

/// What one source has gathered in this window.
#[derive(Debug)]
pub struct SourceBuffer<T> {
    /// Raw samples.
    pub raw: Vec<T>,
    /// Completed utterances, with a space between neighbours.
    pub live_text: String,
}

/// The buffers of the current window.
#[derive(Debug)]
pub struct WindowManager<T> {
    pub mic: SourceBuffer<T>,
    pub sys: SourceBuffer<T>,
    /// Most raw samples kept per source; 0 keeps all.
    pub max_samples: usize,
    /// Windows frozen so far.
    pub window_n: u64,
}

/// A frozen window.
#[derive(Debug)]
pub struct Window<T> {
    /// Number of the window, from 1.
    pub n: u64,
    pub mic_raw: Vec<T>,
    pub sys_raw: Vec<T>,
    pub mic_text: String,
    pub sys_text: String,
}

/// `raw` within the cap, the oldest samples dropped.
pub open spec fn capped<T>(raw: Seq<T>, max: int) -> Seq<T> {
    if max > 0 {
        newest(raw, max as nat)
    } else {
        raw
    }
}

/// The text with one more utterance behind it; a blank one changes nothing.
pub open spec fn with_utterance(text: Seq<char>, utterance: Seq<char>) -> Seq<char> {
    let t = trimmed(utterance);
    if t.len() == 0 {
        text
    } else if text.len() == 0 {
        t
    } else {
        text + seq![' '] + t
    }
}

impl<T> SourceBuffer<T> {
    /// Whether nothing has been gathered.
    pub open spec fn is_empty(self) -> bool {
        self.raw@.len() == 0 && self.live_text@.len() == 0
    }
}

impl<T> WindowManager<T> {
    /// The buffer of a source.
    pub open spec fn buffer(self, source: Source) -> SourceBuffer<T> {
        match source {
            Source::Mic => self.mic,
            Source::Sys => self.sys,
        }
    }

    /// No buffer exceeds the cap.
    pub open spec fn wf(self) -> bool {
        self.max_samples > 0 ==> self.mic.raw@.len() <= self.max_samples && self.sys.raw@.len()
            <= self.max_samples
    }
}

/// The other source.
pub open spec fn other(source: Source) -> Source {
    match source {
        Source::Mic => Source::Sys,
        Source::Sys => Source::Mic,
    }
}

impl<T: Copy> SourceBuffer<T> {
    fn new() -> (buf: Self)
        ensures
            buf.is_empty(),
    {
        SourceBuffer { raw: Vec::new(), live_text: String::new() }
    }

    fn append_raw(&mut self, chunk: &[T], max: usize)
        ensures
            final(self).raw@ == capped(old(self).raw@ + chunk@, max as int),
            final(self).live_text == old(self).live_text,
    {
        extend(&mut self.raw, chunk);
        if max > 0 {
            keep_newest(&mut self.raw, max);
        }
    }

    fn append_text(&mut self, utterance: &str)
        ensures
            final(self).raw == old(self).raw,
            final(self).live_text@ == with_utterance(old(self).live_text@, utterance@),
    {
        let t = trim(utterance);
        if t.is_empty() {
            return;
        }
        if !self.live_text.as_str().is_empty() {
            self.live_text.push(' ');
        }
        self.live_text.append(t);
        assert(self.live_text@ =~= with_utterance(old(self).live_text@, utterance@));
    }

    fn take(&mut self) -> (taken: Self)
        ensures
            taken.raw@ == old(self).raw@,
            taken.live_text == old(self).live_text,
            final(self).is_empty(),
    {
        let raw = take_all(&mut self.raw);
        let mut live_text = String::new();
        core::mem::swap(&mut live_text, &mut self.live_text);
        SourceBuffer { raw, live_text }
    }
}

impl<T: Copy> WindowManager<T> {
    /// Empty buffers that keep at most `max_window_secs` of audio each; 0 keeps all.
    pub fn new(max_window_secs: u64) -> (manager: Self)
        requires
            max_window_secs * SAMPLE_RATE <= usize::MAX,
        ensures
            manager.wf(),
            manager.mic.is_empty(),
            manager.sys.is_empty(),
            manager.max_samples == max_window_secs * SAMPLE_RATE,
            manager.window_n == 0,
    {
        WindowManager {
            mic: SourceBuffer::new(),
            sys: SourceBuffer::new(),
            max_samples: max_window_secs as usize * SAMPLE_RATE as usize,
            window_n: 0,
        }
    }

    /// Append captured samples to a source; the oldest beyond the cap are dropped.
    pub fn append_raw(&mut self, source: Source, chunk: &[T])
        requires
            old(self).wf(),
        ensures
            final(self).wf(),
            final(self).buffer(source).raw@ == capped(
                old(self).buffer(source).raw@ + chunk@,
                old(self).max_samples as int,
            ),
            final(self).buffer(source).live_text == old(self).buffer(source).live_text,
            final(self).buffer(other(source)) == old(self).buffer(other(source)),
            final(self).max_samples == old(self).max_samples,
            final(self).window_n == old(self).window_n,
    {
        match source {
            Source::Mic => self.mic.append_raw(chunk, self.max_samples),
            Source::Sys => self.sys.append_raw(chunk, self.max_samples),
        }
    }

    /// Append a completed utterance to a source; a blank one is ignored.
    pub fn append_text(&mut self, source: Source, utterance: &str)
        requires
            old(self).wf(),
        ensures
            final(self).wf(),
            final(self).buffer(source).raw == old(self).buffer(source).raw,
            final(self).buffer(source).live_text@ == with_utterance(
                old(self).buffer(source).live_text@,
                utterance@,
            ),
            final(self).buffer(other(source)) == old(self).buffer(other(source)),
            final(self).max_samples == old(self).max_samples,
            final(self).window_n == old(self).window_n,
    {
        match source {
            Source::Mic => self.mic.append_text(utterance),
            Source::Sys => self.sys.append_text(utterance),
        }
    }

    /// Freeze the current window and start the next one with empty buffers.
    pub fn snapshot_and_reset(&mut self) -> (window: Window<T>)
        requires
            old(self).wf(),
            old(self).window_n < u64::MAX,
        ensures
            final(self).wf(),
            final(self).mic.is_empty(),
            final(self).sys.is_empty(),
            final(self).max_samples == old(self).max_samples,
            final(self).window_n == old(self).window_n + 1,
            window.n == final(self).window_n,
            window.mic_raw@ == old(self).mic.raw@,
            window.sys_raw@ == old(self).sys.raw@,
            window.mic_text == old(self).mic.live_text,
            window.sys_text == old(self).sys.live_text,
    {
        self.window_n = self.window_n + 1;
        let mic = self.mic.take();
        let sys = self.sys.take();
        Window {
            n: self.window_n,
            mic_raw: mic.raw,
            sys_raw: sys.raw,
            mic_text: mic.live_text,
            sys_text: sys.live_text,
        }
    }

    /// Forget what has been gathered; the count of windows goes on.
    pub fn clear(&mut self)
        requires
            old(self).wf(),
        ensures
            final(self).wf(),
            final(self).mic.is_empty(),
            final(self).sys.is_empty(),
            final(self).max_samples == old(self).max_samples,
            final(self).window_n == old(self).window_n,
    {
        self.mic = SourceBuffer::new();
        self.sys = SourceBuffer::new();
    }
}

// ── Laws ──────────────────────────────────────────────────────────────────────

/// Under a cap the newest samples survive, whatever came before them.
pub proof fn law_newest_samples_survive<T>(before: Seq<T>, chunk: Seq<T>, max: int)
    requires
        chunk.len() <= max,
    ensures
        capped(before + chunk, max).len() <= before.len() + chunk.len(),
        max > 0 ==> capped(before + chunk, max).len() <= max,
        capped(before + chunk, max).len() >= chunk.len(),
        capped(before + chunk, max).skip(capped(before + chunk, max).len() - chunk.len()) == chunk,
{
    let kept = capped(before + chunk, max);
    assert(kept.skip(kept.len() - chunk.len()) =~= chunk);
}

/// Appending chunk by chunk keeps the same samples as appending all at once.
pub proof fn law_chunks_are_one_stream<T>(before: Seq<T>, a: Seq<T>, b: Seq<T>, max: int)
    ensures
        capped(capped(before + a, max) + b, max) == capped(before + (a + b), max),
{
    assert(capped(capped(before + a, max) + b, max) =~= capped(before + (a + b), max));
}

/// No spoken utterance is lost: one that is not blank comes behind the text, without the
/// white space around it, and with one space between them where there is text already.
pub proof fn law_spoken_utterance_is_kept(text: Seq<char>, utterance: Seq<char>)
    requires
        !is_blank(utterance),
    ensures
        ({
            let after = with_utterance(text, utterance);
            let said = trimmed(utterance);
            &&& said.len() > 0
            &&& after.len() == text.len() + said.len() + (if text.len() > 0 {
                1int
            } else {
                0
            })
            &&& after.take(text.len() as int) == text
            &&& after.skip(after.len() - said.len()) == said
            &&& text.len() > 0 ==> after[text.len() as int] == ' '
        }),
{
    lemma_trimmed_empty_iff_blank(utterance);
    let after = with_utterance(text, utterance);
    let said = trimmed(utterance);
    assert(after.take(text.len() as int) =~= text);
    assert(after.skip(after.len() - said.len()) =~= said);
}

/// The text of a window after a list of utterances.
pub open spec fn with_utterances(utterances: Seq<Seq<char>>) -> Seq<char>
    decreases utterances.len(),
{
    if utterances.len() == 0 {
        Seq::empty()
    } else {
        with_utterance(with_utterances(utterances.drop_last()), utterances.last())
    }
}

/// The text of a window is everything that was said in it: the utterances that are not
/// blank, each without the white space around it, with a space between neighbours.
pub proof fn law_window_holds_every_utterance(utterances: Seq<Seq<char>>)
    ensures
        with_utterances(utterances) == joined(spoken(utterances), seq![' ']),
        with_utterances(utterances).len() == 0 <==> spoken(utterances).len() == 0,
    decreases utterances.len(),
{
    if utterances.len() > 0 {
        let most = utterances.drop_last();
        let last = utterances.last();
        law_window_holds_every_utterance(most);
        lemma_trimmed_empty_iff_blank(last);
        if !is_blank(last) {
            law_joining_adds_each_part(spoken(most), trimmed(last), seq![' ']);
            assert(spoken(utterances) == spoken(most).push(trimmed(last)));
            if spoken(most).len() == 0 {
                assert(spoken(utterances) =~= seq![trimmed(last)]);
            } else {
                assert(with_utterances(utterances) =~= joined(spoken(utterances), seq![' ']));
            }
        }
    }
}

/// The cap keeps the end of the audio, as much as it allows; a cap of 0 keeps all.
pub proof fn law_cap_keeps_the_end<T>(raw: Seq<T>, max: int)
    requires
        max >= 0,
    ensures
        capped(raw, max).len() == (if max > 0 && raw.len() > max {
            max
        } else {
            raw.len() as int
        }),
        capped(raw, max) == raw.skip(raw.len() - capped(raw, max).len()),
{
    assert(capped(raw, max) =~= raw.skip(raw.len() - capped(raw, max).len()));
}

/// The two sources are each other's other, and each has its own buffer.
pub proof fn law_sources_are_apart<T>(windows: WindowManager<T>, source: Source)
    ensures
        other(source) != source,
        other(other(source)) == source,
        windows.buffer(Source::Mic) == windows.mic,
        windows.buffer(Source::Sys) == windows.sys,
{
}

/// A buffer is empty exactly if it holds neither audio nor text.
pub proof fn law_empty_buffer_holds_nothing<T>(buffer: SourceBuffer<T>)
    ensures
        buffer.is_empty() <==> buffer.raw@ == Seq::<T>::empty() && buffer.live_text@ == Seq::<
            char,
        >::empty(),
{
    assert(buffer.raw@.len() == 0 ==> buffer.raw@ =~= Seq::<T>::empty());
    assert(buffer.live_text@.len() == 0 ==> buffer.live_text@ =~= Seq::<char>::empty());
}

/// A blank utterance changes nothing.
pub proof fn law_blank_utterance_is_ignored(text: Seq<char>, utterance: Seq<char>)
    requires
        is_blank(utterance),
    ensures
        with_utterance(text, utterance) == text,
{
    lemma_trimmed_empty_iff_blank(utterance);
}

} // verus!
