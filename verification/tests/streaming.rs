use std::time::Duration;

use kitetsu::listener::capture::discover::Devices;
use kitetsu::listener::stream::{update_of, StreamSession, StreamSource};
use kitetsu::listener::transcribe::live::{LiveConfig, LiveTranscriber, Window, FLOOR_SAMPLES};
use kitetsu::listener::transcribe::stream::{
    FeedResult, FeedStep, StreamMode, StreamingTranscriber,
};
use kitetsu::listener::ListenerError;

const BLOCK: usize = 1024;

fn samples_in(nanos: u128) -> usize {
    let d = Duration::from_nanos(nanos as u64);
    (d.as_secs_f32() * 16_000.0) as usize
}

fn window(window: Duration, interval: Duration, min_new: Duration) -> Window<f32> {
    let config = LiveConfig {
        window: window.as_nanos(),
        interval: interval.as_nanos(),
        min_new: min_new.as_nanos(),
    };
    Window::new(config, samples_in(config.window), samples_in(config.min_new))
}

// ── Rolling window ────────────────────────────────────────────────────────────

#[test]
fn feed_trims_buffer_to_window_cap() {
    let mut w = window(Duration::from_secs(1), Duration::ZERO, Duration::from_millis(0));
    w.feed(&vec![0.0; 25_000]);
    assert_eq!(w.buffer.len(), 16_000);
}

#[test]
fn should_run_false_below_floor() {
    let mut w = window(Duration::from_secs(10), Duration::ZERO, Duration::ZERO);
    w.feed(&vec![0.0; FLOOR_SAMPLES - 1]);
    assert!(!w.should_run(0));
}

#[test]
fn should_run_requires_min_new_audio() {
    let mut w = window(
        Duration::from_secs(10),
        Duration::ZERO,
        Duration::from_millis(300),
    );
    w.feed(&vec![0.0; 5_000]);
    assert!(w.should_run(0));
    w.mark_ran(0);
    w.feed(&vec![0.0; 1_000]);
    assert!(!w.should_run(1));
    w.feed(&vec![0.0; 4_000]);
    assert!(w.should_run(2));
}

#[test]
fn interval_debounces_passes() {
    let mut w = window(
        Duration::from_secs(10),
        Duration::from_secs(3_600),
        Duration::ZERO,
    );
    w.feed(&vec![0.0; 5_000]);
    assert!(w.should_run(0));
    w.mark_ran(0);
    w.feed(&vec![0.0; 5_000]);
    assert!(!w.should_run(Duration::from_secs(3_599).as_nanos()));
    assert!(w.should_run(Duration::from_secs(3_600).as_nanos()));
}

#[test]
fn feeding_in_parts_keeps_the_same_audio() {
    let mut whole: Window<i32> = Window::new(LiveConfig::default(), 5, 0);
    whole.feed(&[1, 2, 3, 4, 5, 6, 7]);
    let mut parts: Window<i32> = Window::new(LiveConfig::default(), 5, 0);
    parts.feed(&[1, 2, 3]);
    parts.feed(&[4, 5, 6, 7]);
    assert_eq!(whole.buffer, vec![3, 4, 5, 6, 7]);
    assert_eq!(parts.buffer, whole.buffer);
    assert_eq!(parts.fed_since_run, 7);
}

#[test]
fn live_config_defaults() {
    let config = LiveConfig::default();
    assert_eq!(config.window, Duration::from_secs(10).as_nanos());
    assert_eq!(config.interval, Duration::from_millis(500).as_nanos());
    assert_eq!(config.min_new, Duration::from_millis(300).as_nanos());
}

#[test]
fn live_transcriber_skips_short_audio() {
    let mut live = LiveTranscriber::new("model", LiveConfig::default(), 160_000, 4_800);
    live.feed(&vec![0i16; FLOOR_SAMPLES - 1]);
    assert!(!live.transcribe(7));
    assert_eq!(live.window.last_run, Some(7));
    live.feed(&[0i16]);
    assert!(!live.should_run(7));
    assert!(live.transcribe(9));
    assert_eq!(live.window.fed_since_run, 0);
    assert_eq!(live.transcriber, "model");
}

// ── Utterances ────────────────────────────────────────────────────────────────

fn silence(n: usize) -> Vec<f32> {
    vec![0.0f32; n]
}

fn tone(n: usize) -> Vec<f32> {
    vec![0.5f32; n]
}

fn count_flushes(
    t: &mut StreamingTranscriber<f32>,
    blocks: usize,
    samples_fn: fn(usize) -> Vec<f32>,
) -> usize {
    let mut n = 0;
    for _ in 0..blocks {
        let block = samples_fn(BLOCK);
        let sum_sq: f32 = block.iter().map(|s| s * s).sum();
        let is_speech = (sum_sq / block.len() as f32).sqrt() >= 0.01;
        if let Ok(FeedStep::Infer { .. }) = t.feed(&block, is_speech) {
            n += 1;
        }
    }
    n
}

fn streaming() -> StreamingTranscriber<f32> {
    StreamingTranscriber::new(StreamMode::VadGated)
}

#[test]
fn stream_silence_only_never_flushes() {
    let mut seg = streaming();
    assert_eq!(count_flushes(&mut seg, 10 * 16_000 / BLOCK, silence), 0);
}

#[test]
fn stream_short_noise_below_min_speech_does_not_flush() {
    let mut seg = streaming();
    count_flushes(&mut seg, 2, tone);
    assert_eq!(count_flushes(&mut seg, 20, silence), 0);
}

#[test]
fn stream_speech_then_silence_flushes_one_utterance() {
    let mut seg = streaming();
    count_flushes(&mut seg, 3 * 16_000 / BLOCK, tone);
    let n = count_flushes(&mut seg, 16_000 / BLOCK, silence);
    assert_eq!(n, 1);
}

#[test]
fn stream_max_speech_cap_forces_flush() {
    let mut seg = streaming();
    let n = count_flushes(&mut seg, 16 * 16_000 / BLOCK, tone);
    assert!(n >= 1, "expected at least one flush from the 15 s cap");
}

#[test]
fn stream_two_utterances_produce_two_flushes() {
    let mut seg = streaming();
    count_flushes(&mut seg, 3 * 16_000 / BLOCK, tone);
    let n1 = count_flushes(&mut seg, 16_000 / BLOCK, silence);
    count_flushes(&mut seg, 3 * 16_000 / BLOCK, tone);
    let n2 = count_flushes(&mut seg, 16_000 / BLOCK, silence);
    assert_eq!(n1 + n2, 2, "expected exactly two flushes for two utterances");
}

#[test]
fn commit_keeps_text_as_prompt() {
    let mut t = streaming();
    let first = t.commit("hello there".to_owned());
    assert_eq!(first.committed.as_deref(), Some("hello there"));
    assert_eq!(first.tentative, "");
    assert!(t.commit(String::new()).committed.is_none());
    t.commit("friend".to_owned());
    assert_eq!(t.prev_tail, "hello there friend");
    t.feed(&tone(5_000), true).unwrap();
    t.feed(&tone(5_000), true).unwrap();
    match t.feed(&silence(1_600), false).unwrap() {
        FeedStep::Infer { samples, prompt } => {
            assert_eq!(samples.len(), 11_600);
            assert_eq!(prompt, "hello there friend");
        }
        FeedStep::Done(_) => panic!("expected inference"),
    }
}

#[test]
fn prompt_is_cut_at_a_word_within_its_bytes() {
    let mut t = streaming();
    t.commit("a".repeat(150));
    t.commit(format!("{} {}", "b".repeat(60), "c".repeat(100)));
    assert_eq!(t.prev_tail, format!("{} {}", "b".repeat(60), "c".repeat(100)));
    let mut u = streaming();
    u.commit("x".repeat(300));
    assert_eq!(u.prev_tail, "x".repeat(200));
}

#[test]
fn prompt_is_cut_between_characters() {
    let mut t = streaming();
    let text = "é".repeat(100) + "a";
    let result = t.commit(text.clone());
    assert_eq!(result.committed.as_deref(), Some(text.as_str()));
    assert_eq!(result.tentative, "");
    assert_eq!(t.prev_tail, "é".repeat(99) + "a");
    t.commit("€".repeat(70));
    assert_eq!(t.prev_tail, "€".repeat(66));
    t.commit("𝄞".repeat(20));
    assert_eq!(t.prev_tail, "𝄞".repeat(20));
}

#[test]
fn reserved_mode_is_refused() {
    let mut t: StreamingTranscriber<f32> = StreamingTranscriber::new(StreamMode::LocalAgreement);
    assert!(matches!(
        t.feed(&[0.5], true),
        Err(ListenerError::NotImplemented(_))
    ));
}

// ── Sessions ──────────────────────────────────────────────────────────────────

fn devices() -> Devices {
    Devices {
        mic_source: "mic0".to_owned(),
        system_monitor: "sink0.monitor".to_owned(),
    }
}

#[test]
fn session_plans_every_source() {
    let s = StreamSession::start(
        &[StreamSource::Mic, StreamSource::System],
        StreamMode::VadGated,
        12,
        Ok(devices()),
    )
    .unwrap();
    assert_eq!(s.n_threads, 4);
    assert_eq!(s.plans.len(), 2);
    assert_eq!(s.plans[0].device, "mic0");
    assert_eq!(s.plans[0].label, "kitetsu-stream-mic");
    assert_eq!(s.plans[0].capture_thread, "kitetsu-capture-kitetsu-stream-mic");
    assert_eq!(s.plans[1].device, "sink0.monitor");
    assert_eq!(s.plans[1].worker_thread, "kitetsu-worker-kitetsu-stream-system");
}

#[test]
fn session_shares_the_cores() {
    let threads = |sources: &[StreamSource], cores: i32| {
        StreamSession::start(sources, StreamMode::VadGated, cores, Ok(devices()))
            .unwrap()
            .n_threads
    };
    assert_eq!(threads(&[StreamSource::Mic], 16), 8);
    assert_eq!(threads(&[StreamSource::Mic], 3), 3);
    assert_eq!(threads(&[StreamSource::Mic, StreamSource::System], 1), 1);
    assert_eq!(threads(&[StreamSource::Mic, StreamSource::System], 6), 3);
}

#[test]
fn session_refuses_reserved_mode_before_discovery_counts() {
    let refused = StreamSession::start(
        &[StreamSource::Mic],
        StreamMode::LocalAgreement,
        4,
        Err(ListenerError::JoinError),
    );
    assert!(matches!(refused, Err(ListenerError::NotImplemented(_))));
    let failed = StreamSession::start(
        &[StreamSource::Mic],
        StreamMode::VadGated,
        4,
        Err(ListenerError::IntrospectionFailed("no server")),
    );
    assert!(matches!(failed, Err(ListenerError::IntrospectionFailed("no server"))));
}

#[test]
fn only_committed_text_is_reported() {
    let silent = FeedResult {
        committed: None,
        tentative: String::new(),
    };
    assert!(update_of(StreamSource::Mic, silent).is_none());
    let spoken = FeedResult {
        committed: Some("hi".to_owned()),
        tentative: "there".to_owned(),
    };
    let update = update_of(StreamSource::System, spoken).unwrap();
    assert_eq!(update.source, StreamSource::System);
    assert_eq!(update.committed, "hi");
    assert_eq!(update.tentative, "there");
}
