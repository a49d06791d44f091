use kitetsu::listener::transcribe::engine::{
    join_segments, progress_percent, words_to_string, TimedWord,
};
use kitetsu::listener::transcribe::local_agreement::{
    longest_agreeing_prefix, LaAction, LocalAgreementSegmenter, MAX_WINDOW_SAMPLES, STEP_SAMPLES,
    TRAILING_SILENCE_SAMPLES,
};
use kitetsu::listener::transcribe::vad::{
    FlushSignal, VadSegmenter, VadState, MAX_SPEECH_SAMPLES, PRE_ROLL_SAMPLES,
};

const SILENCE_RMS: f32 = 0.01;
const BLOCK: usize = 1024;

fn rms(samples: &[f32]) -> f32 {
    if samples.is_empty() {
        return 0.0;
    }
    let sum_sq: f32 = samples.iter().map(|s| s * s).sum();
    (sum_sq / samples.len() as f32).sqrt()
}

fn speech(samples: &[f32]) -> bool {
    rms(samples) >= SILENCE_RMS
}

fn silence(n: usize) -> Vec<f32> {
    vec![0.0f32; n]
}

fn tone(n: usize) -> Vec<f32> {
    vec![0.5f32; n]
}

fn count_flushes(
    seg: &mut VadSegmenter<f32>,
    blocks: usize,
    samples_fn: fn(usize) -> Vec<f32>,
) -> usize {
    let mut n = 0;
    for _ in 0..blocks {
        let block = samples_fn(BLOCK);
        let is_speech = speech(&block);
        if let FlushSignal::Flush(_) = seg.feed(&block, is_speech) {
            n += 1;
        }
    }
    n
}

// ── Voice activity ────────────────────────────────────────────────────────────

#[test]
fn vad_silence_only_never_flushes() {
    let mut seg = VadSegmenter::new();
    assert_eq!(count_flushes(&mut seg, 10 * 16_000 / BLOCK, silence), 0);
}

#[test]
fn vad_utterances_are_stretches_of_the_stream() {
    // Samples are their own place in the stream.
    let mut seg: VadSegmenter<u32> = VadSegmenter::new();
    let mut next: u32 = 0;
    let mut flushed: Vec<(u32, u32)> = Vec::new();
    let verdicts = [(3, false), (8, true), (2, false), (1, true), (3, false), (9, true), (2, false)];
    for (blocks, is_speech) in verdicts {
        for _ in 0..blocks {
            let block: Vec<u32> = (next..next + BLOCK as u32).collect();
            next += BLOCK as u32;
            if let FlushSignal::Flush(utterance) = seg.feed(&block, is_speech) {
                let (first, last) = (utterance[0], utterance[utterance.len() - 1]);
                assert_eq!(utterance, (first..=last).collect::<Vec<u32>>());
                assert_eq!(last + 1, next);
                flushed.push((first, last));
            }
        }
    }
    let block = BLOCK as u32;
    let pre_roll = PRE_ROLL_SAMPLES as u32;
    assert_eq!(
        flushed,
        vec![
            (3 * block - pre_roll, 13 * block - 1),
            (17 * block - pre_roll, 28 * block - 1),
        ]
    );
    assert!(flushed[0].1 < flushed[1].0);
}

#[test]
fn vad_short_noise_below_min_speech_does_not_flush() {
    let mut seg = VadSegmenter::new();
    for _ in 0..2 {
        let block = tone(BLOCK);
        let is_speech = speech(&block);
        seg.feed(&block, is_speech);
    }
    assert_eq!(count_flushes(&mut seg, 20, silence), 0);
}

#[test]
fn vad_speech_then_silence_flushes_one_utterance() {
    let mut seg = VadSegmenter::new();
    count_flushes(&mut seg, 3 * 16_000 / BLOCK, tone);
    let n = count_flushes(&mut seg, 16_000 / BLOCK, silence);
    assert_eq!(n, 1);
}

#[test]
fn vad_max_speech_cap_forces_flush() {
    let mut seg = VadSegmenter::new();
    let n = count_flushes(&mut seg, 16 * 16_000 / BLOCK, tone);
    assert!(n >= 1, "expected at least one flush from the 15 s cap");
}

#[test]
fn vad_two_utterances_produce_two_flushes() {
    let mut seg = VadSegmenter::new();
    count_flushes(&mut seg, 3 * 16_000 / BLOCK, tone);
    let n1 = count_flushes(&mut seg, 16_000 / BLOCK, silence);
    count_flushes(&mut seg, 3 * 16_000 / BLOCK, tone);
    let n2 = count_flushes(&mut seg, 16_000 / BLOCK, silence);
    assert_eq!(n1 + n2, 2, "expected exactly two flushes for two utterances");
}

#[test]
fn vad_flush_holds_pre_roll_and_every_block() {
    let mut seg: VadSegmenter<i32> = VadSegmenter::new();
    seg.feed(&[1; 1000], false);
    seg.feed(&[2; 1000], false);
    assert_eq!(seg.pre_roll.len(), PRE_ROLL_SAMPLES);
    seg.feed(&[3; 5000], true);
    match seg.feed(&[4; 1600], false) {
        FlushSignal::Flush(samples) => {
            assert_eq!(samples.len(), 1600 + 5000 + 1600);
            assert_eq!(samples[0], 1);
            assert_eq!(samples[599], 1);
            assert_eq!(samples[600], 2);
            assert_eq!(samples[1600], 3);
            assert_eq!(samples[6600], 4);
        }
        FlushSignal::NoFlush => panic!("expected an utterance"),
    }
    assert!(matches!(seg.state, VadState::Idle));
    assert!(seg.buf.is_empty());
}

#[test]
fn vad_utterance_below_viable_length_is_dropped() {
    let mut seg: VadSegmenter<i32> = VadSegmenter::new();
    seg.feed(&[1; 4000], true);
    assert!(matches!(seg.state, VadState::Speaking { speech_samples: 4000, silence_run: 0 }));
    assert!(matches!(seg.feed(&[0; 1600], false), FlushSignal::NoFlush));
    assert!(matches!(seg.state, VadState::Idle));
}

#[test]
fn vad_cap_is_reached_exactly() {
    let mut seg: VadSegmenter<i32> = VadSegmenter::new();
    seg.feed(&[1; 4000], true);
    assert!(matches!(
        seg.feed(&vec![1; MAX_SPEECH_SAMPLES - 4001], true),
        FlushSignal::NoFlush
    ));
    match seg.feed(&[1], true) {
        FlushSignal::Flush(samples) => assert_eq!(samples.len(), MAX_SPEECH_SAMPLES),
        FlushSignal::NoFlush => panic!("expected the cap to flush"),
    }
}

// ── Local agreement ───────────────────────────────────────────────────────────

fn w(text: &str, end_cs: i64) -> TimedWord {
    TimedWord {
        text: text.to_owned(),
        end_cs,
    }
}

fn feed(seg: &mut LocalAgreementSegmenter<f32>, block: &[f32]) -> LaAction {
    seg.feed(block, speech(block))
}

#[test]
fn silence_only_never_requests_a_pass() {
    let mut seg = LocalAgreementSegmenter::new();
    for _ in 0..(10 * 16_000 / BLOCK) {
        assert_eq!(feed(&mut seg, &silence(BLOCK)), LaAction::Wait);
    }
    assert!(!seg.saw_speech);
    assert!(seg.buf.is_empty());
}

#[test]
fn speech_accumulates_to_runpass_at_step() {
    let mut seg = LocalAgreementSegmenter::new();
    let target_blocks = STEP_SAMPLES / BLOCK + 1;
    let mut passes = 0usize;
    for _ in 0..target_blocks {
        if matches!(
            feed(&mut seg, &tone(BLOCK)),
            LaAction::RunPass { is_final: false }
        ) {
            passes += 1;
        }
    }
    assert_eq!(passes, 1, "expected exactly one RunPass after reaching step threshold");
}

#[test]
fn trailing_silence_yields_final_pass() {
    let mut seg = LocalAgreementSegmenter::new();
    for _ in 0..(2 * 16_000 / BLOCK) {
        feed(&mut seg, &tone(BLOCK));
    }
    seg.new_since_pass = 0;
    let silence_blocks = TRAILING_SILENCE_SAMPLES / BLOCK + 1;
    let mut got_final = false;
    for _ in 0..silence_blocks {
        if matches!(
            feed(&mut seg, &silence(BLOCK)),
            LaAction::RunPass { is_final: true }
        ) {
            got_final = true;
            break;
        }
    }
    assert!(got_final, "expected a final RunPass after trailing silence");
}

#[test]
fn half_a_second_of_silence_closes() {
    let mut seg = LocalAgreementSegmenter::new();
    for _ in 0..31 {
        assert_eq!(feed(&mut seg, &tone(BLOCK)), LaAction::Wait);
    }
    for _ in 0..7 {
        assert_eq!(feed(&mut seg, &silence(BLOCK)), LaAction::Wait);
    }
    assert_eq!(
        feed(&mut seg, &silence(BLOCK)),
        LaAction::RunPass { is_final: true }
    );
}

#[test]
fn word_end_beyond_the_window_empties_it() {
    for end in [i64::MAX, i64::MIN, -1, 1] {
        let mut seg = LocalAgreementSegmenter::new();
        seg.buf = vec![0.5f32; 160];
        seg.saw_speech = true;
        seg.prev_words = vec![w("the", 1)];
        let out = seg.apply_pass(vec![w("the", end), w("cat", i64::MAX)], false);
        assert_eq!(out.committed.as_deref(), Some("the"));
        assert_eq!(out.tentative, "cat");
        assert!(seg.buf.is_empty());
    }
}

#[test]
fn cap_forces_final_pass() {
    let mut seg = LocalAgreementSegmenter::new();
    let big_block = tone(MAX_WINDOW_SAMPLES);
    let action = feed(&mut seg, &big_block);
    assert_eq!(
        action,
        LaAction::RunPass { is_final: true },
        "expected final RunPass when window exceeds cap"
    );
}

#[test]
fn lcp_empty_inputs_return_zero() {
    assert_eq!(longest_agreeing_prefix(&[], &[]), 0);
    assert_eq!(longest_agreeing_prefix(&[w("hello", 10)], &[]), 0);
    assert_eq!(longest_agreeing_prefix(&[], &[w("hello", 10)]), 0);
}

#[test]
fn lcp_no_overlap() {
    let prev = vec![w("hello", 10)];
    let new = vec![w("world", 20)];
    assert_eq!(longest_agreeing_prefix(&prev, &new), 0);
}

#[test]
fn lcp_full_match() {
    let a = vec![w("the", 10), w("cat", 20), w("sat", 30)];
    let b = vec![w("the", 12), w("cat", 22), w("sat", 32)];
    assert_eq!(longest_agreeing_prefix(&a, &b), 3);
}

#[test]
fn lcp_partial_match() {
    let a = vec![w("the", 10), w("cat", 20), w("sat", 30)];
    let b = vec![w("the", 12), w("cat", 22), w("slept", 35)];
    assert_eq!(longest_agreeing_prefix(&a, &b), 2);
}

#[test]
fn lcp_case_and_punctuation_insensitive() {
    let a = vec![w("Hello,", 10), w("World.", 20)];
    let b = vec![w("hello", 12), w("world", 22)];
    assert_eq!(longest_agreeing_prefix(&a, &b), 2);
}

#[test]
fn lcp_folds_letters_beyond_ascii() {
    assert_eq!(longest_agreeing_prefix(&[w("ÄRGER!", 1)], &[w("ärger", 2)]), 1);
    assert_eq!(longest_agreeing_prefix(&[w("it's", 1)], &[w("its", 2)]), 0);
}

#[test]
fn apply_pass_normal_commits_agreed_prefix_and_trims_buf() {
    let mut seg = LocalAgreementSegmenter::new();
    seg.buf = vec![0.5f32; 48_000];
    seg.saw_speech = true;
    seg.prev_words = vec![w("the", 100), w("cat", 200)];

    let new_words = vec![w("the", 100), w("cat", 200), w("sat", 300)];
    let outcome = seg.apply_pass(new_words, false);

    assert_eq!(outcome.committed.as_deref(), Some("the cat"));
    assert_eq!(outcome.tentative, "sat");
    assert_eq!(
        seg.buf.len(),
        48_000 - 32_000,
        "buf should be trimmed by agreed words"
    );
    assert_eq!(seg.prev_words.len(), 1);
    assert_eq!(seg.prev_words[0].text, "sat");
}

#[test]
fn apply_pass_no_agreement_returns_none_committed() {
    let mut seg = LocalAgreementSegmenter::new();
    seg.buf = vec![0.5f32; 16_000];
    seg.saw_speech = true;
    seg.prev_words = vec![w("hello", 100)];

    let new_words = vec![w("world", 100)];
    let outcome = seg.apply_pass(new_words.clone(), false);

    assert!(outcome.committed.is_none());
    assert_eq!(outcome.tentative, "world");
}

#[test]
fn apply_pass_final_commits_all_and_resets() {
    let mut seg = LocalAgreementSegmenter::new();
    seg.buf = vec![0.5f32; 32_000];
    seg.saw_speech = true;
    seg.prev_words = vec![w("some", 50)];
    seg.silence_run = 8_000;

    let new_words = vec![w("the", 100), w("cat", 200)];
    let outcome = seg.apply_pass(new_words, true);

    assert_eq!(outcome.committed.as_deref(), Some("the cat"));
    assert_eq!(outcome.tentative, "");
    assert!(seg.buf.is_empty(), "buf must be cleared on final pass");
    assert!(seg.prev_words.is_empty());
    assert!(!seg.saw_speech, "utterance reset after final pass");
}

#[test]
fn apply_pass_final_with_empty_words_commits_none() {
    let mut seg = LocalAgreementSegmenter::new();
    seg.buf = vec![0.5f32; 8_000];
    seg.saw_speech = true;
    let outcome = seg.apply_pass(vec![], true);
    assert!(outcome.committed.is_none());
    assert!(seg.buf.is_empty());
}

#[test]
fn apply_pass_end_beyond_window_clears_it() {
    let mut seg = LocalAgreementSegmenter::new();
    seg.buf = vec![1i16; 100];
    seg.prev_words = vec![w("a", 1)];
    let outcome = seg.apply_pass(vec![w("a", 1)], false);
    assert_eq!(outcome.committed.as_deref(), Some("a"));
    assert_eq!(outcome.tentative, "");
    assert!(seg.buf.is_empty());

    seg.buf = vec![1i16; 100];
    seg.prev_words = vec![w("a", 1)];
    seg.apply_pass(vec![w("a", -1)], false);
    assert!(seg.buf.is_empty());
}

#[test]
fn repeated_pass_commits_every_word() {
    let mut seg = LocalAgreementSegmenter::new();
    seg.buf = vec![1i16; 1_000];
    assert!(seg.apply_pass(vec![w("yes", 1), w("sir", 2)], false).committed.is_none());
    let outcome = seg.apply_pass(vec![w("Yes,", 1), w("sir", 2)], false);
    assert_eq!(outcome.committed.as_deref(), Some("Yes, sir"));
    assert_eq!(outcome.tentative, "");
    assert_eq!(seg.buf.len(), 1_000 - 320);
}

// ── Transcripts ───────────────────────────────────────────────────────────────

#[test]
fn segments_are_trimmed_and_joined() {
    let segments = vec![" one ".to_owned(), "  ".to_owned(), "two\n".to_owned()];
    assert_eq!(join_segments(&segments), "one two");
    assert_eq!(join_segments(&vec![]), "");
}

#[test]
fn words_are_joined_by_spaces() {
    assert_eq!(words_to_string(&[w("a", 0), w("b", 0)]), "a b");
    assert_eq!(words_to_string(&[]), "");
}

#[test]
fn progress_is_cut_to_percent() {
    assert_eq!(progress_percent(-5), 0);
    assert_eq!(progress_percent(42), 42);
    assert_eq!(progress_percent(250), 100);
}
