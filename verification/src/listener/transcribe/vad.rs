//! Energy-based voice-activity segmenter.
//!
//! A pure state machine: it takes 16 kHz mono blocks, each with the verdict of an
//! energy gate on it, and tells where an utterance ends. It knows no model and
//! does no I/O; the samples themselves are only carried.

use vstd::prelude::*;

use crate::samples::{concatenated, extend, keep_newest, newest, take_all};

verus! {

// ── Thresholds, in samples at 16 kHz ──────────────────────────────────────────

/// Consecutive speech samples from which a segment counts as speech (250 ms).
pub const MIN_SPEECH_SAMPLES: usize = 4_000;

/// Consecutive silence samples behind speech that close an utterance (100 ms).
pub const MIN_SILENCE_SAMPLES: usize = 1_600;

/// Audio kept from before speech starts, to catch the attack of the first word (100 ms).
pub const PRE_ROLL_SAMPLES: usize = 1_600;

/// Speech that closes an utterance whether or not a silence follows (15 s).
pub const MAX_SPEECH_SAMPLES: usize = 240_000;

/// The shortest utterance that is handed to inference (400 ms).
pub const MIN_VIABLE_SAMPLES: usize = 6_400;

// ── Types ─────────────────────────────────────────────────────────────────────

/// Where the segmenter stands in an utterance.
#[derive(Debug, Clone, Copy)]
pub enum VadState {
    /// No speech.
    Idle,
    /// Speech that may still turn out to be a short noise.
    Debouncing { speech_run: usize },
    /// Confirmed speech, and the silence at its end.
    Speaking { speech_samples: usize, silence_run: usize },
}

/// Outcome of feeding one block.
#[derive(Debug)]
pub enum FlushSignal<T> {
    /// No boundary yet.
    NoFlush,
    /// An utterance ended; its samples are ready for inference.
    Flush(Vec<T>),
}

/// Energy-based segmenter of an audio stream into utterances.
#[derive(Debug)]
pub struct VadSegmenter<T> {
    pub state: VadState,
    /// The current utterance: pre-roll and speech.
    pub buf: Vec<T>,
    /// The newest samples before speech starts.
    pub pre_roll: Vec<T>,
}

// ── Model ─────────────────────────────────────────────────────────────────────

/// [`VadState`] over natural numbers.
pub enum Phase {
    Idle,
    Debouncing { run: nat },
    Speaking { speech: nat, silence: nat },
}

/// What a segmenter holds.
#[verifier::ext_equal]
pub struct Vad<T> {
    pub phase: Phase,
    pub buf: Seq<T>,
    pub pre_roll: Seq<T>,
}

impl<T> View for VadSegmenter<T> {
    type V = Vad<T>;

    open spec fn view(&self) -> Vad<T> {
        Vad {
            phase: match self.state {
                VadState::Idle => Phase::Idle,
                VadState::Debouncing { speech_run } => Phase::Debouncing { run: speech_run as nat },
                VadState::Speaking { speech_samples, silence_run } => Phase::Speaking {
                    speech: speech_samples as nat,
                    silence: silence_run as nat,
                },
            },
            buf: self.buf@,
            pre_roll: self.pre_roll@,
        }
    }
}

impl<T> View for FlushSignal<T> {
    type V = Option<Seq<T>>;

    open spec fn view(&self) -> Option<Seq<T>> {
        match self {
            FlushSignal::NoFlush => None,
            FlushSignal::Flush(samples) => Some(samples@),
        }
    }
}

/// The phase that `run` consecutive speech samples lead to.
pub open spec fn gated(run: nat) -> Phase {
    if run >= MIN_SPEECH_SAMPLES {
        Phase::Speaking { speech: run, silence: 0 }
    } else {
        Phase::Debouncing { run }
    }
}

impl<T> Vad<T> {
    /// Nothing heard, nothing kept.
    pub open spec fn empty() -> Vad<T> {
        Vad { phase: Phase::Idle, buf: Seq::empty(), pre_roll: Seq::empty() }
    }

    /// Between utterances, with `pre_roll` kept.
    pub open spec fn idle(pre_roll: Seq<T>) -> Vad<T> {
        Vad { phase: Phase::Idle, buf: Seq::empty(), pre_roll }
    }

    /// Outside an utterance only the pre-roll is kept, inside one only the utterance,
    /// and no run is longer than the utterance that it is counted in.
    pub open spec fn wf(self) -> bool {
        &&& self.pre_roll.len() <= PRE_ROLL_SAMPLES
        &&& match self.phase {
            Phase::Idle => self.buf.len() == 0,
            Phase::Debouncing { run } => {
                &&& run < MIN_SPEECH_SAMPLES
                &&& run <= self.buf.len()
                &&& self.pre_roll.len() == 0
            },
            Phase::Speaking { speech, silence } => {
                &&& MIN_SPEECH_SAMPLES <= speech <= self.buf.len()
                &&& silence <= speech
                &&& silence < MIN_SILENCE_SAMPLES
                &&& self.pre_roll.len() == 0
            },
        }
    }

    /// The segmenter after one block, `speech` being the energy gate's verdict on it.
    pub open spec fn after(self, block: Seq<T>, speech: bool) -> Vad<T> {
        match self.phase {
            Phase::Idle => if speech {
                Vad {
                    phase: gated(block.len()),
                    buf: self.pre_roll + block,
                    pre_roll: Seq::empty(),
                }
            } else {
                Vad::idle(newest(self.pre_roll + block, PRE_ROLL_SAMPLES as nat))
            },
            Phase::Debouncing { run } => if speech {
                Vad {
                    phase: gated(run + block.len()),
                    buf: self.buf + block,
                    pre_roll: self.pre_roll,
                }
            } else {
                Vad::empty()
            },
            Phase::Speaking { speech: spoken, silence } => if self.closes(block, speech) {
                Vad::empty()
            } else {
                Vad {
                    phase: Phase::Speaking {
                        speech: spoken + block.len(),
                        silence: if speech {
                            0
                        } else {
                            silence + block.len()
                        },
                    },
                    buf: self.buf + block,
                    pre_roll: self.pre_roll,
                }
            },
        }
    }

    /// Whether the block ends an utterance: by the cap while speech goes on, by a
    /// long enough silence otherwise.
    pub open spec fn closes(self, block: Seq<T>, speech: bool) -> bool {
        match self.phase {
            Phase::Speaking { speech: spoken, silence } => if speech {
                spoken + block.len() >= MAX_SPEECH_SAMPLES
            } else {
                silence + block.len() >= MIN_SILENCE_SAMPLES
            },
            _ => false,
        }
    }

    /// The utterance that the block hands to inference, if it ends one that is long enough.
    pub open spec fn flushes(self, block: Seq<T>, speech: bool) -> Option<Seq<T>> {
        if self.closes(block, speech) && (self.buf + block).len() >= MIN_VIABLE_SAMPLES {
            Some(self.buf + block)
        } else {
            None
        }
    }

    /// The segmenter after a list of blocks.
    pub open spec fn after_all(self, blocks: Seq<(Seq<T>, bool)>) -> Vad<T>
        decreases blocks.len(),
    {
        if blocks.len() == 0 {
            self
        } else {
            self.after_all(blocks.drop_last()).after(blocks.last().0, blocks.last().1)
        }
    }
}

// ── Segmenter ─────────────────────────────────────────────────────────────────

impl<T: Copy> VadSegmenter<T> {
    /// A segmenter that has heard nothing.
    pub fn new() -> (seg: Self)
        ensures
            seg@ == Vad::<T>::empty(),
            seg@.wf(),
    {
        let seg = VadSegmenter { state: VadState::Idle, buf: Vec::new(), pre_roll: Vec::new() };
        assert(seg@ =~= Vad::<T>::empty());
        seg
    }

    /// Feed one block; `is_speech` tells whether its energy reaches the speech floor.
    pub fn feed(&mut self, block: &[T], is_speech: bool) -> (signal: FlushSignal<T>)
        requires
            old(self)@.wf(),
        ensures
            final(self)@.wf(),
            final(self)@ == old(self)@.after(block@, is_speech),
            signal@ == old(self)@.flushes(block@, is_speech),
    {
        let ghost before = self@;
        match self.state {
            VadState::Idle => {
                if is_speech {
                    let mut utterance = take_all(&mut self.pre_roll);
                    extend(&mut utterance, block);
                    self.buf = utterance;
                    let run: usize = block.len();
                    self.state = if run >= MIN_SPEECH_SAMPLES {
                        VadState::Speaking { speech_samples: run, silence_run: 0 }
                    } else {
                        VadState::Debouncing { speech_run: run }
                    };
                } else {
                    self.update_pre_roll(block);
                }
                assert(self@ =~= before.after(block@, is_speech));
                FlushSignal::NoFlush
            },
            VadState::Debouncing { speech_run } => {
                if is_speech {
                    extend(&mut self.buf, block);
                    // The run is part of the utterance, whose length fits a usize.
                    assert(self.buf.len() <= usize::MAX);
                    let run: usize = speech_run + block.len();
                    self.state = if run >= MIN_SPEECH_SAMPLES {
                        VadState::Speaking { speech_samples: run, silence_run: 0 }
                    } else {
                        VadState::Debouncing { speech_run: run }
                    };
                } else {
                    // Too short to be speech.
                    self.buf.clear();
                    self.pre_roll.clear();
                    self.state = VadState::Idle;
                }
                assert(self@ =~= before.after(block@, is_speech));
                FlushSignal::NoFlush
            },
            VadState::Speaking { speech_samples, silence_run } => {
                extend(&mut self.buf, block);
                // The counts are part of the utterance, whose length fits a usize.
                assert(self.buf.len() <= usize::MAX);
                let spoken: usize = speech_samples + block.len();
                let silence: usize = if is_speech {
                    0
                } else {
                    silence_run + block.len()
                };
                let closes: bool = if is_speech {
                    spoken >= MAX_SPEECH_SAMPLES
                } else {
                    silence >= MIN_SILENCE_SAMPLES
                };
                if closes {
                    let signal = self.flush();
                    assert(self@ =~= before.after(block@, is_speech));
                    signal
                } else {
                    self.state =
                    VadState::Speaking { speech_samples: spoken, silence_run: silence };
                    assert(self@ =~= before.after(block@, is_speech));
                    FlushSignal::NoFlush
                }
            },
        }
    }

    /// Close the utterance: hand it out if it is long enough, and forget it.
    fn flush(&mut self) -> (signal: FlushSignal<T>)
        ensures
            final(self)@ == Vad::<T>::empty(),
            signal@ == (if old(self)@.buf.len() >= MIN_VIABLE_SAMPLES {
                Some(old(self)@.buf)
            } else {
                None
            }),
    {
        let samples = take_all(&mut self.buf);
        self.pre_roll.clear();
        self.state = VadState::Idle;
        assert(self@ =~= Vad::<T>::empty());
        if samples.len() >= MIN_VIABLE_SAMPLES {
            FlushSignal::Flush(samples)
        } else {
            FlushSignal::NoFlush
        }
    }

    /// Keep the newest samples before speech.
    fn update_pre_roll(&mut self, block: &[T])
        ensures
            final(self).state == old(self).state,
            final(self).buf == old(self).buf,
            final(self).pre_roll@ == newest(old(self).pre_roll@ + block@, PRE_ROLL_SAMPLES as nat),
    {
        extend(&mut self.pre_roll, block);
        keep_newest(&mut self.pre_roll, PRE_ROLL_SAMPLES);
    }
}

// ── Laws ──────────────────────────────────────────────────────────────────────

/// Silence alone never yields an utterance: whatever pre-roll is kept, a segmenter
/// between utterances stays there and flushes nothing.
pub proof fn law_silence_never_flushes<T>(start: Vad<T>, blocks: Seq<(Seq<T>, bool)>)
    requires
        start.wf(),
        start.phase is Idle,
        forall|i: int| 0 <= i < blocks.len() ==> !(#[trigger] blocks[i]).1,
    ensures
        start.after_all(blocks).wf(),
        start.after_all(blocks).phase is Idle,
        forall|i: int|
            0 <= i < blocks.len() ==> (#[trigger] start.after_all(blocks.take(i))).flushes(
                blocks[i].0,
                blocks[i].1,
            ) is None,
    decreases blocks.len(),
{
    if blocks.len() > 0 {
        let most = blocks.drop_last();
        assert forall|i: int| 0 <= i < most.len() implies !(#[trigger] most[i]).1 by {
            assert(most[i] == blocks[i]);
        }
        law_silence_never_flushes(start, most);
        assert forall|i: int| 0 <= i < blocks.len() implies (#[trigger] start.after_all(
            blocks.take(i),
        )).flushes(blocks[i].0, blocks[i].1) is None by {
            if i < most.len() {
                assert(most.take(i) =~= blocks.take(i));
                assert(most[i] == blocks[i]);
            } else {
                assert(blocks.take(i) =~= most);
            }
        }
    }
}

/// Speech that stops before it is long enough to count is dropped without a trace.
pub proof fn law_short_noise_is_dropped<T>(seg: Vad<T>, block: Seq<T>)
    requires
        seg.wf(),
        seg.phase is Debouncing,
    ensures
        seg.flushes(block, false) is None,
        seg.after(block, false) == Vad::<T>::empty(),
{
}

/// Speech that reaches the cap is flushed whole, and the segmenter starts afresh.
pub proof fn law_cap_forces_flush<T>(seg: Vad<T>, block: Seq<T>)
    requires
        seg.wf(),
        seg.phase is Speaking,
        seg.phase->speech + block.len() >= MAX_SPEECH_SAMPLES,
    ensures
        seg.flushes(block, true) == Some(seg.buf + block),
        seg.after(block, true) == Vad::<T>::empty(),
{
}

/// An utterance that is handed out is long enough, and ends one: nothing of it is kept.
pub proof fn law_flush_ends_utterance<T>(seg: Vad<T>, block: Seq<T>, speech: bool)
    requires
        seg.wf(),
        seg.flushes(block, speech) is Some,
    ensures
        seg.phase is Speaking,
        seg.flushes(block, speech)->0.len() >= MIN_VIABLE_SAMPLES,
        seg.after(block, speech) == Vad::<T>::empty(),
{
}

/// The blocks of a list, without the verdicts.
pub open spec fn audio<T>(blocks: Seq<(Seq<T>, bool)>) -> Seq<Seq<T>> {
    blocks.map_values(|b: (Seq<T>, bool)| b.0)
}

proof fn lemma_utterance_holds_all<T>(start: Vad<T>, blocks: Seq<(Seq<T>, bool)>)
    requires
        start.wf(),
        start.phase is Idle,
        blocks.len() > 0,
        blocks[0].1,
        forall|i: int| 1 <= i <= blocks.len() ==> (#[trigger] start.after_all(
            blocks.take(i),
        )).phase !is Idle,
    ensures
        start.after_all(blocks).buf == start.pre_roll + concatenated(audio(blocks)),
    decreases blocks.len(),
{
    let most = blocks.drop_last();
    assert(blocks.take(blocks.len() as int) =~= blocks);
    assert(audio(blocks).drop_last() =~= audio(most));
    assert(audio(blocks).last() == blocks.last().0);
    if most.len() == 0 {
        assert(start.after_all(most) == start);
        assert(concatenated(audio(most)) =~= Seq::<T>::empty());
        assert(concatenated(audio(blocks)) =~= blocks[0].0);
    } else {
        assert forall|i: int| 1 <= i <= most.len() implies (#[trigger] start.after_all(
            most.take(i),
        )).phase !is Idle by {
            assert(most.take(i) =~= blocks.take(i));
        }
        lemma_utterance_holds_all(start, most);
        assert(blocks.take(most.len() as int) =~= most);
        assert(start.after_all(blocks).buf =~= start.pre_roll + (concatenated(audio(most))
            + blocks.last().0));
    }
}

/// No sample of an utterance is lost: what is flushed is the pre-roll and then every
/// block from the first one with speech to the one that closes.
pub proof fn law_utterance_keeps_every_sample<T>(start: Vad<T>, blocks: Seq<(Seq<T>, bool)>)
    requires
        start.wf(),
        start.phase is Idle,
        blocks.len() > 1,
        blocks[0].1,
        forall|i: int| 1 <= i < blocks.len() ==> (#[trigger] start.after_all(
            blocks.take(i),
        )).phase !is Idle,
    ensures
        match start.after_all(blocks.drop_last()).flushes(blocks.last().0, blocks.last().1) {
            Some(utterance) => utterance == start.pre_roll + concatenated(audio(blocks)),
            None => true,
        },
{
    let most = blocks.drop_last();
    assert forall|i: int| 1 <= i <= most.len() implies (#[trigger] start.after_all(
        most.take(i),
    )).phase !is Idle by {
        assert(most.take(i) =~= blocks.take(i));
    }
    lemma_utterance_holds_all(start, most);
    assert(audio(blocks).drop_last() =~= audio(most));
    assert(audio(blocks).last() == blocks.last().0);
    assert((start.pre_roll + concatenated(audio(most))) + blocks.last().0 =~= start.pre_roll + (
    concatenated(audio(most)) + blocks.last().0));
}

// ── The whole stream ──────────────────────────────────────────────────────────

/// All audio of a list of blocks, one sample behind the other.
pub open spec fn fed<T>(blocks: Seq<(Seq<T>, bool)>) -> Seq<T> {
    concatenated(audio(blocks))
}

/// A new segmenter after the first `n` blocks.
pub open spec fn state_at<T>(blocks: Seq<(Seq<T>, bool)>, n: int) -> Vad<T> {
    Vad::empty().after_all(blocks.take(n))
}

/// How many samples the first `n` blocks hold.
pub open spec fn samples_at<T>(blocks: Seq<(Seq<T>, bool)>, n: int) -> int {
    fed(blocks.take(n)).len() as int
}

/// The utterance that block `n` hands to inference, if it hands one.
pub open spec fn flushed_at<T>(blocks: Seq<(Seq<T>, bool)>, n: int) -> Option<Seq<T>> {
    state_at(blocks, n).flushes(blocks[n].0, blocks[n].1)
}

/// Whether block `first` opens the utterance that goes on up to block `n`: it is speech, the
/// segmenter is between utterances before it and inside one ever since.
pub open spec fn opens<T>(blocks: Seq<(Seq<T>, bool)>, first: int, n: int) -> bool {
    &&& 0 <= first < n
    &&& blocks[first].1
    &&& state_at(blocks, first).phase is Idle
    &&& forall|i: int| first < i <= n ==> (#[trigger] state_at(blocks, i)).phase !is Idle
}

/// The samples that a segmenter holds.
pub open spec fn held<T>(seg: Vad<T>) -> Seq<T> {
    if seg.phase is Idle {
        seg.pre_roll
    } else {
        seg.buf
    }
}

/// Where in the stream begins what is held after `n` blocks.
pub open spec fn held_from<T>(blocks: Seq<(Seq<T>, bool)>, n: int) -> int {
    samples_at(blocks, n) - held(state_at(blocks, n)).len()
}

/// One more block goes behind the stream and through the segmenter.
proof fn lemma_next_block<T>(blocks: Seq<(Seq<T>, bool)>, n: int)
    requires
        0 <= n < blocks.len(),
    ensures
        fed(blocks.take(n + 1)) == fed(blocks.take(n)) + blocks[n].0,
        state_at(blocks, n + 1) == state_at(blocks, n).after(blocks[n].0, blocks[n].1),
{
    let more = blocks.take(n + 1);
    assert(more.drop_last() =~= blocks.take(n));
    assert(audio(more).drop_last() =~= audio(blocks.take(n)));
    assert(audio(more).last() == blocks[n].0);
}

/// What is held is the end of all audio so far, and it is all of an utterance.
proof fn lemma_held_is_an_end<T>(blocks: Seq<(Seq<T>, bool)>, n: int)
    requires
        0 <= n <= blocks.len(),
    ensures
        state_at(blocks, n).wf(),
        0 <= held_from(blocks, n),
        held(state_at(blocks, n)) == fed(blocks.take(n)).skip(held_from(blocks, n)),
    decreases n,
{
    if n == 0 {
        assert(blocks.take(0) =~= Seq::empty());
        assert(audio(blocks.take(0)) =~= Seq::empty());
        assert(fed(blocks.take(0)).skip(0) =~= Seq::<T>::empty());
    } else {
        lemma_held_is_an_end(blocks, n - 1);
        lemma_next_block(blocks, n - 1);
        let before = state_at(blocks, n - 1);
        let block = blocks[n - 1].0;
        assert(before.after(block, blocks[n - 1].1).wf());
        let now = held(state_at(blocks, n));
        assert(now.len() <= held(before).len() + block.len());
        assert(now =~= (held(before) + block).skip(held(before).len() + block.len() - now.len()));
        assert(now =~= fed(blocks.take(n)).skip(held_from(blocks, n)));
    }
}

/// Where the held samples begin never moves back.
proof fn lemma_held_moves_on<T>(blocks: Seq<(Seq<T>, bool)>, m: int, n: int)
    requires
        0 <= m <= n <= blocks.len(),
    ensures
        held_from(blocks, m) <= held_from(blocks, n),
    decreases n - m,
{
    if m < n {
        lemma_held_moves_on(blocks, m, n - 1);
        lemma_next_block(blocks, n - 1);
        lemma_held_is_an_end(blocks, n - 1);
    }
}

/// An utterance that is under way has a block that opened it, and is held from the pre-roll
/// in front of that block on.
proof fn lemma_utterance_was_opened<T>(blocks: Seq<(Seq<T>, bool)>, n: int) -> (first: int)
    requires
        0 <= n <= blocks.len(),
        state_at(blocks, n).phase !is Idle,
    ensures
        opens(blocks, first, n),
        held_from(blocks, n) == held_from(blocks, first),
    decreases n,
{
    if n == 0 {
        assert(blocks.take(0) =~= Seq::empty());
        0
    } else {
        lemma_next_block(blocks, n - 1);
        lemma_held_is_an_end(blocks, n - 1);
        if state_at(blocks, n - 1).phase is Idle {
            n - 1
        } else {
            lemma_utterance_was_opened(blocks, n - 1)
        }
    }
}

/// Whatever is fed, every utterance that is handed out is one stretch of all the audio: it
/// ends with the block that closes it, begins with the pre-roll in front of the block that
/// opened it, and lies behind every utterance that was handed out before.
pub proof fn law_utterances_are_stretches<T>(blocks: Seq<(Seq<T>, bool)>, n: int)
    requires
        0 <= n < blocks.len(),
        flushed_at(blocks, n) is Some,
    ensures
        exists|first: int| #[trigger]
            opens(blocks, first, n) && {
                let begin = held_from(blocks, first);
                let end = samples_at(blocks, n + 1);
                &&& 0 <= begin <= end <= fed(blocks).len()
                &&& samples_at(blocks, first) - PRE_ROLL_SAMPLES <= begin <= samples_at(
                    blocks,
                    first,
                )
                &&& flushed_at(blocks, n) == Some(fed(blocks).subrange(begin, end))
                &&& forall|m: int|
                    0 <= m < n && (#[trigger] flushed_at(blocks, m)) is Some ==> samples_at(
                        blocks,
                        m + 1,
                    ) <= begin
            },
{
    lemma_held_is_an_end(blocks, n);
    lemma_next_block(blocks, n);
    let first = lemma_utterance_was_opened(blocks, n);
    lemma_held_is_an_end(blocks, first);
    let begin = held_from(blocks, first);
    let end = samples_at(blocks, n + 1);
    lemma_fed_grows(blocks, n + 1);
    let utterance = held(state_at(blocks, n)) + blocks[n].0;
    assert(flushed_at(blocks, n) == Some(utterance));
    assert(utterance =~= fed(blocks.take(n + 1)).skip(begin));
    assert(utterance =~= fed(blocks).subrange(begin, end));
    assert forall|m: int|
        0 <= m < n && (#[trigger] flushed_at(blocks, m)) is Some implies samples_at(blocks, m + 1)
            <= begin by {
        lemma_held_is_an_end(blocks, m);
        lemma_next_block(blocks, m);
        assert(held(state_at(blocks, m + 1)).len() == 0);
        lemma_held_moves_on(blocks, m + 1, n);
    }
    assert(opens(blocks, first, n));
}

/// The audio of the first blocks is the beginning of all audio.
proof fn lemma_fed_grows<T>(blocks: Seq<(Seq<T>, bool)>, n: int)
    requires
        0 <= n <= blocks.len(),
    ensures
        samples_at(blocks, n) <= fed(blocks).len(),
        fed(blocks).take(samples_at(blocks, n)) == fed(blocks.take(n)),
    decreases blocks.len() - n,
{
    if n == blocks.len() {
        assert(blocks.take(n) =~= blocks);
        assert(fed(blocks).take(samples_at(blocks, n)) =~= fed(blocks));
    } else {
        lemma_fed_grows(blocks, n + 1);
        lemma_next_block(blocks, n);
        assert(fed(blocks).take(samples_at(blocks, n)) =~= fed(blocks).take(
            samples_at(blocks, n + 1),
        ).take(samples_at(blocks, n)));
        assert(fed(blocks).take(samples_at(blocks, n)) =~= fed(blocks.take(n)));
    }
}

// ── When utterances begin and end ─────────────────────────────────────────────

/// The thresholds are the times they stand for, at 16 samples to the millisecond.
pub proof fn law_thresholds_are_times()
    ensures
        MIN_SPEECH_SAMPLES == 250 * 16,
        MIN_SILENCE_SAMPLES == 100 * 16,
        PRE_ROLL_SAMPLES == 100 * 16,
        MAX_SPEECH_SAMPLES == 15_000 * 16,
        MIN_VIABLE_SAMPLES == 400 * 16,
{
}

/// Whether the blocks from `first` up to `n` are all speech.
pub open spec fn all_speech<T>(blocks: Seq<(Seq<T>, bool)>, first: int, n: int) -> bool {
    forall|i: int| first <= i < n ==> (#[trigger] blocks[i]).1
}

/// Whether an utterance that block `first` opened counts as speech before block `n`: its
/// first blocks, without a silent one, hold enough samples.
pub open spec fn confirmed<T>(blocks: Seq<(Seq<T>, bool)>, first: int, n: int) -> bool {
    exists|j: int|
        first < j <= n && #[trigger] all_speech(blocks, first, j) && samples_at(blocks, j)
            - samples_at(blocks, first) >= MIN_SPEECH_SAMPLES
}

/// Whether the blocks from `m` up to `n` are the silent ones at the end: none of them is
/// speech, and the one before them is.
pub open spec fn silent_from<T>(blocks: Seq<(Seq<T>, bool)>, m: int, n: int) -> bool {
    &&& 0 < m <= n
    &&& blocks[m - 1].1
    &&& forall|i: int| m <= i < n ==> !(#[trigger] blocks[i]).1
}

/// Samples only add up.
proof fn lemma_samples_add_up<T>(blocks: Seq<(Seq<T>, bool)>, m: int, n: int)
    requires
        0 <= m <= n <= blocks.len(),
    ensures
        samples_at(blocks, m) <= samples_at(blocks, n),
    decreases n - m,
{
    if m < n {
        lemma_samples_add_up(blocks, m, n - 1);
        lemma_next_block(blocks, n - 1);
    }
}

/// The counts of an utterance under way are those of its blocks.
proof fn lemma_counts_are_samples<T>(blocks: Seq<(Seq<T>, bool)>, first: int, n: int)
    requires
        0 <= n <= blocks.len(),
        opens(blocks, first, n),
    ensures
        match state_at(blocks, n).phase {
            Phase::Idle => false,
            Phase::Debouncing { run } => {
                &&& run == samples_at(blocks, n) - samples_at(blocks, first)
                &&& run < MIN_SPEECH_SAMPLES
                &&& all_speech(blocks, first, n)
                &&& !confirmed(blocks, first, n)
            },
            Phase::Speaking { speech, silence } => {
                &&& speech == samples_at(blocks, n) - samples_at(blocks, first)
                &&& confirmed(blocks, first, n)
            },
        },
    decreases n,
{
    lemma_next_block(blocks, n - 1);
    lemma_held_is_an_end(blocks, n - 1);
    let before = state_at(blocks, n - 1);
    assert(state_at(blocks, n).phase !is Idle);
    if first == n - 1 {
        assert(all_speech(blocks, first, n));
    } else {
        assert(opens(blocks, first, n - 1));
        lemma_counts_are_samples(blocks, first, n - 1);
        if before.phase is Debouncing {
            assert(blocks[n - 1].1);
            assert(all_speech(blocks, first, n));
        } else {
            let j = choose|j: int|
                first < j <= n - 1 && #[trigger] all_speech(blocks, first, j) && samples_at(
                    blocks,
                    j,
                ) - samples_at(blocks, first) >= MIN_SPEECH_SAMPLES;
            assert(all_speech(blocks, first, j));
        }
    }
    if state_at(blocks, n).phase is Debouncing && confirmed(blocks, first, n) {
        let j = choose|j: int|
            first < j <= n && #[trigger] all_speech(blocks, first, j) && samples_at(blocks, j)
                - samples_at(blocks, first) >= MIN_SPEECH_SAMPLES;
        lemma_samples_add_up(blocks, j, n);
    }
}

/// The silence of an utterance under way is that of the silent blocks at its end, unbroken:
/// one block of speech, and it counts from 0 again.
pub proof fn law_silence_is_unbroken<T>(blocks: Seq<(Seq<T>, bool)>, m: int, n: int)
    requires
        0 <= n <= blocks.len(),
        state_at(blocks, n).phase is Speaking,
        silent_from(blocks, m, n),
    ensures
        state_at(blocks, n).phase->silence == samples_at(blocks, n) - samples_at(blocks, m),
    decreases n,
{
    lemma_next_block(blocks, n - 1);
    lemma_held_is_an_end(blocks, n - 1);
    if m < n {
        assert(!blocks[n - 1].1);
        law_silence_is_unbroken(blocks, m, n - 1);
    }
}

/// Between utterances speech opens one, and nothing else does.
pub proof fn law_speech_opens_utterances<T>(blocks: Seq<(Seq<T>, bool)>, n: int)
    requires
        0 <= n < blocks.len(),
        state_at(blocks, n).phase is Idle,
    ensures
        state_at(blocks, n + 1).phase is Idle <==> !blocks[n].1,
        flushed_at(blocks, n) is None,
{
    lemma_next_block(blocks, n);
    lemma_held_is_an_end(blocks, n);
}

/// When an utterance ends. One that counts as speech ends with a block of speech exactly if
/// 15 s have gone by since it opened, and with a silent block exactly if the silence behind
/// its last speech is 100 ms long by then. One that does not count yet ends with the first
/// silent block. What ends as speech is handed out exactly if it is 400 ms long.
pub proof fn law_when_utterances_end<T>(
    blocks: Seq<(Seq<T>, bool)>,
    first: int,
    m: int,
    n: int,
)
    requires
        0 <= n < blocks.len(),
        opens(blocks, first, n),
        silent_from(blocks, m, n),
    ensures
        ({
            let since_opened = samples_at(blocks, n + 1) - samples_at(blocks, first);
            let since_speech = samples_at(blocks, n + 1) - samples_at(blocks, m);
            let closed = confirmed(blocks, first, n) && (if blocks[n].1 {
                since_opened >= MAX_SPEECH_SAMPLES
            } else {
                since_speech >= MIN_SILENCE_SAMPLES
            });
            let dropped = !confirmed(blocks, first, n) && !blocks[n].1;
            &&& state_at(blocks, n + 1).phase is Idle <==> closed || dropped
            &&& flushed_at(blocks, n) is Some <==> closed && samples_at(blocks, n + 1) - held_from(
                blocks,
                first,
            ) >= MIN_VIABLE_SAMPLES
        }),
{
    lemma_next_block(blocks, n);
    lemma_held_is_an_end(blocks, n);
    lemma_counts_are_samples(blocks, first, n);
    if state_at(blocks, n).phase is Speaking {
        law_silence_is_unbroken(blocks, m, n);
    }
    lemma_held_since_opening(blocks, first, n);
}

/// An utterance under way is held from the pre-roll in front of its first block on.
proof fn lemma_held_since_opening<T>(blocks: Seq<(Seq<T>, bool)>, first: int, n: int)
    requires
        0 <= n <= blocks.len(),
        opens(blocks, first, n),
    ensures
        held_from(blocks, n) == held_from(blocks, first),
    decreases n,
{
    lemma_next_block(blocks, n - 1);
    lemma_held_is_an_end(blocks, n - 1);
    assert(state_at(blocks, n).phase !is Idle);
    if first < n - 1 {
        assert(opens(blocks, first, n - 1));
        lemma_held_since_opening(blocks, first, n - 1);
    }
}

/// Whether the segmenter has been between utterances from before block `from` up to `n`:
/// since the start, or since an utterance ended right before.
pub open spec fn between_since<T>(blocks: Seq<(Seq<T>, bool)>, from: int, n: int) -> bool {
    &&& 0 <= from <= n
    &&& from == 0 || state_at(blocks, from - 1).phase !is Idle
    &&& forall|i: int| from <= i <= n ==> (#[trigger] state_at(blocks, i)).phase is Idle
}

/// Between utterances the newest 100 ms are kept: all audio since the last utterance ended,
/// as far as it goes.
pub proof fn law_pre_roll_is_kept<T>(blocks: Seq<(Seq<T>, bool)>, from: int, n: int)
    requires
        0 <= n <= blocks.len(),
        between_since(blocks, from, n),
    ensures
        ({
            let since = samples_at(blocks, n) - samples_at(blocks, from);
            let kept = state_at(blocks, n).pre_roll;
            &&& kept.len() == (if since < PRE_ROLL_SAMPLES {
                since
            } else {
                PRE_ROLL_SAMPLES as int
            })
            &&& kept == fed(blocks.take(n)).skip(samples_at(blocks, n) - kept.len())
        }),
    decreases n,
{
    lemma_held_is_an_end(blocks, n);
    assert(state_at(blocks, n).phase is Idle);
    if n == 0 {
        assert(blocks.take(0) =~= Seq::empty());
    } else {
        lemma_next_block(blocks, n - 1);
        lemma_held_is_an_end(blocks, n - 1);
        if from < n {
            assert(state_at(blocks, n - 1).phase is Idle);
            law_pre_roll_is_kept(blocks, from, n - 1);
            lemma_samples_add_up(blocks, from, n - 1);
        }
    }
}

/// At the start nothing is heard and nothing is kept.
pub proof fn law_start_is_between_utterances<T>(blocks: Seq<(Seq<T>, bool)>)
    ensures
        state_at(blocks, 0).phase is Idle,
        state_at(blocks, 0).buf.len() == 0,
        state_at(blocks, 0).pre_roll.len() == 0,
        between_since(blocks, 0, 0),
{
    assert(blocks.take(0) =~= Seq::empty());
}

/// The model of a segmenter has its counts and its samples, and that of a signal the samples
/// that it hands out.
pub proof fn law_models_keep_the_parts<T>(seg: VadSegmenter<T>, signal: FlushSignal<T>)
    ensures
        seg@.buf == seg.buf@,
        seg@.pre_roll == seg.pre_roll@,
        match seg.state {
            VadState::Idle => seg@.phase is Idle,
            VadState::Debouncing { speech_run } => seg@.phase is Debouncing && seg@.phase->run
                == speech_run,
            VadState::Speaking { speech_samples, silence_run } => seg@.phase is Speaking
                && seg@.phase->speech == speech_samples && seg@.phase->silence == silence_run,
        },
        signal is NoFlush <==> signal@ is None,
        signal matches FlushSignal::Flush(samples) ==> signal@ == Some(samples@),
{
}

} // verus!
