//! Rolling-window live transcription.
//!
//! Audio is fed in as it is captured; the whole current window is transcribed again
//! on a schedule, which gives an updated partial each time. Audio older than the
//! window slides out of it.
//!
//! Times are nanoseconds on a clock that never goes back.

use vstd::prelude::*;

use crate::samples::{extend, keep_newest, newest};

verus! {

/// Samples in a second.
pub const LIVE_SAMPLE_RATE: usize = 16_000;

/// The least audio that inference is tried on (0.1 s).
pub const FLOOR_SAMPLES: usize = 1_600;

/// Tunables of a live transcriber, in nanoseconds.
#[derive(Debug, Clone, Copy)]
pub struct LiveConfig {
    /// Longest audio transcribed in one pass.
    pub window: u128,
    /// Shortest time between two passes.
    pub interval: u128,
    /// Least new audio between two passes.
    pub min_new: u128,
}

impl Default for LiveConfig {
    /// A window of 10 s, a pass every 500 ms at most, after 300 ms of new audio at least.
    fn default() -> (config: Self)
        ensures
            config.window == 10_000_000_000,
            config.interval == 500_000_000,
            config.min_new == 300_000_000,
    {
        LiveConfig { window: 10_000_000_000, interval: 500_000_000, min_new: 300_000_000 }
    }
}

/// The rolling buffer and its schedule.
#[derive(Debug)]
pub struct Window<T> {
    pub config: LiveConfig,
    /// Samples in `config.window`.
    pub window_samples: usize,
    /// Samples in `config.min_new`.
    pub min_new_samples: usize,
    pub buffer: Vec<T>,
    /// Samples fed since the last pass.
    pub fed_since_run: usize,
    /// When the last pass ran.
    pub last_run: Option<u128>,
}

impl<T> Window<T> {
    /// The buffer never exceeds the window.
    pub open spec fn wf(self) -> bool {
        self.buffer@.len() <= self.window_samples
    }

    /// Whether a pass is worthwhile at `now`.
    pub open spec fn due(self, now: int) -> bool {
        &&& self.buffer@.len() >= FLOOR_SAMPLES
        &&& self.fed_since_run >= self.min_new_samples
        &&& match self.last_run {
            None => true,
            Some(then) => self.config.interval <= (if now >= then {
                now - then
            } else {
                0
            }),
        }
    }
}

impl<T: Copy> Window<T> {
    /// An empty window; the sample counts belong to the times in `config`.
    pub fn new(config: LiveConfig, window_samples: usize, min_new_samples: usize) -> (w: Self)
        ensures
            w.wf(),
            w.config == config,
            w.window_samples == window_samples,
            w.min_new_samples == min_new_samples,
            w.buffer@.len() == 0,
            w.fed_since_run == 0,
            w.last_run is None,
    {
        Window {
            config,
            window_samples,
            min_new_samples,
            buffer: Vec::new(),
            fed_since_run: 0,
            last_run: None,
        }
    }

    /// Append samples; the oldest beyond the window slide out.
    pub fn feed(&mut self, samples: &[T])
        requires
            old(self).fed_since_run + samples@.len() <= usize::MAX,
        ensures
            final(self).wf(),
            final(self).buffer@ == newest(
                old(self).buffer@ + samples@,
                old(self).window_samples as nat,
            ),
            final(self).fed_since_run == old(self).fed_since_run + samples@.len(),
            final(self).last_run == old(self).last_run,
            final(self).config == old(self).config,
            final(self).window_samples == old(self).window_samples,
            final(self).min_new_samples == old(self).min_new_samples,
    {
        extend(&mut self.buffer, samples);
        self.fed_since_run = self.fed_since_run + samples.len();
        keep_newest(&mut self.buffer, self.window_samples);
    }

    /// Whether enough new audio has come and enough time has passed for another pass.
    pub fn should_run(&self, now: u128) -> (yes: bool)
        ensures
            yes == self.due(now as int),
    {
        if self.buffer.len() < FLOOR_SAMPLES {
            return false;
        }
        let new_ok: bool = self.fed_since_run >= self.min_new_samples;
        let time_ok: bool = match self.last_run {
            None => true,
            Some(then) => {
                let elapsed: u128 = if now >= then {
                    now - then
                } else {
                    0
                };
                elapsed >= self.config.interval
            },
        };
        new_ok && time_ok
    }

    /// Note that a pass runs at `now`.
    pub fn mark_ran(&mut self, now: u128)
        ensures
            final(self).last_run == Some(now),
            final(self).fed_since_run == 0,
            final(self).buffer == old(self).buffer,
            final(self).config == old(self).config,
            final(self).window_samples == old(self).window_samples,
            final(self).min_new_samples == old(self).min_new_samples,
    {
        self.last_run = Some(now);
        self.fed_since_run = 0;
    }
}

/// A model with a rolling window in front of it.
#[derive(Debug)]
pub struct LiveTranscriber<M, T> {
    pub transcriber: M,
    pub window: Window<T>,
}

impl<M, T: Copy> LiveTranscriber<M, T> {
    /// Put a window in front of a loaded model.
    pub fn new(
        transcriber: M,
        config: LiveConfig,
        window_samples: usize,
        min_new_samples: usize,
    ) -> (live: Self)
        ensures
            live.transcriber == transcriber,
            live.window.wf(),
            live.window.config == config,
            live.window.window_samples == window_samples,
            live.window.min_new_samples == min_new_samples,
            live.window.buffer@.len() == 0,
            live.window.fed_since_run == 0,
            live.window.last_run is None,
    {
        LiveTranscriber {
            transcriber,
            window: Window::new(config, window_samples, min_new_samples),
        }
    }

    /// Append newly captured samples.
    pub fn feed(&mut self, samples: &[T])
        requires
            old(self).window.fed_since_run + samples@.len() <= usize::MAX,
        ensures
            final(self).transcriber == old(self).transcriber,
            final(self).window.wf(),
            final(self).window.buffer@ == newest(
                old(self).window.buffer@ + samples@,
                old(self).window.window_samples as nat,
            ),
            final(self).window.fed_since_run == old(self).window.fed_since_run + samples@.len(),
            final(self).window.last_run == old(self).window.last_run,
            final(self).window.config == old(self).window.config,
            final(self).window.window_samples == old(self).window.window_samples,
            final(self).window.min_new_samples == old(self).window.min_new_samples,
    {
        self.window.feed(samples);
    }

    /// Whether another pass is worthwhile.
    pub fn should_run(&self, now: u128) -> (yes: bool)
        ensures
            yes == self.window.due(now as int),
    {
        self.window.should_run(now)
    }

    /// Begin a pass at `now`: the counters start over, and the whole window is to be
    /// transcribed if it is not too short for that.
    pub fn transcribe(&mut self, now: u128) -> (infer: bool)
        ensures
            infer == (old(self).window.buffer@.len() >= FLOOR_SAMPLES),
            final(self).transcriber == old(self).transcriber,
            final(self).window.last_run == Some(now),
            final(self).window.fed_since_run == 0,
            final(self).window.buffer == old(self).window.buffer,
            final(self).window.config == old(self).window.config,
            final(self).window.window_samples == old(self).window.window_samples,
            final(self).window.min_new_samples == old(self).window.min_new_samples,
    {
        self.window.mark_ran(now);
        self.window.buffer.len() >= FLOOR_SAMPLES
    }
}

// ── Laws ──────────────────────────────────────────────────────────────────────

/// Right after a pass no other one is due, unless neither new audio nor time is asked for.
pub proof fn law_pass_is_not_repeated<T>(w: Window<T>, now: u128)
    requires
        w.last_run == Some(now),
        w.fed_since_run == 0,
        w.min_new_samples > 0 || w.config.interval > 0,
    ensures
        !w.due(now as int),
{
}

/// Feeding audio in two parts leaves the same buffer as feeding it in one.
pub proof fn law_feed_in_parts<T>(buffer: Seq<T>, a: Seq<T>, b: Seq<T>, cap: nat)
    ensures
        newest(newest(buffer + a, cap) + b, cap) == newest(buffer + (a + b), cap),
{
    assert(newest(newest(buffer + a, cap) + b, cap) =~= newest(buffer + (a + b), cap));
}

/// A pass is due exactly if a tenth of a second is there to be heard, enough of it is new, and
/// the last pass, if there was one, is long enough ago.
pub proof fn law_when_a_pass_is_due<T>(w: Window<T>, now: int)
    ensures
        w.due(now) <==> {
            &&& w.buffer@.len() * 10 >= 16_000
            &&& w.fed_since_run >= w.min_new_samples
            &&& w.last_run is Some ==> now - w.last_run->0 >= w.config.interval
                || w.config.interval == 0
        },
{
}

/// A pass that is due stays due while time goes on.
pub proof fn law_due_stays_due<T>(w: Window<T>, now: int, later: int)
    requires
        now <= later,
        w.due(now),
    ensures
        w.due(later),
{
}

} // verus!
