use kitetsu::bytes::{decode_pcm16, push_pcm16};
use kitetsu::listener::capture::discover::{
    setup_failure, ContextState, Devices, Discovery, Iterate, Step,
};
use kitetsu::listener::capture::record::{
    keep_chunk, read_plan, wants_more, wav_bytes, wav_file, NANOS_PER_SEC, RATE_16K,
    SAMPLE_RATE,
};
use kitetsu::listener::sink::{needs_discovery, resolve_device, sink_label};
use kitetsu::listener::transcribe::models::{
    inference_threads, whole_transcript, AudioModel, Backends, Found, LoadPlan, MoonshineVariant,
};
use kitetsu::listener::transcribe::transcriber::{
    joined_result, transcribe, TranscribeError, TranscribeOutcome,
};
use kitetsu::listener::{AudioSink, CaptureConfig, InputSink, ListenerError, OutputSink, Recorder};
use kitetsu::paths::FilePath;

fn scaled(samples: &[f32]) -> Vec<i16> {
    samples
        .iter()
        .map(|s| (s.clamp(-1.0, 1.0) * f32::from(i16::MAX)) as i16)
        .collect()
}

// ── PCM and WAV ───────────────────────────────────────────────────────────────

#[test]
fn wav_header_describes_16khz_mono_pcm() {
    let bytes = wav_bytes(&scaled(&[0.0, 0.5, -0.5]));
    assert_eq!(&bytes[0..4], b"RIFF");
    assert_eq!(&bytes[8..12], b"WAVE");
    assert_eq!(&bytes[12..16], b"fmt ");
    assert_eq!(u16::from_le_bytes([bytes[20], bytes[21]]), 1);
    assert_eq!(u16::from_le_bytes([bytes[22], bytes[23]]), 1);
    assert_eq!(
        u32::from_le_bytes([bytes[24], bytes[25], bytes[26], bytes[27]]),
        RATE_16K
    );
    assert_eq!(&bytes[36..40], b"data");
}

#[test]
fn wav_length_is_header_plus_two_bytes_per_sample() {
    let bytes = wav_bytes(&scaled(&[0.0; 10]));
    assert_eq!(bytes.len(), 44 + 10 * 2);
    assert_eq!(
        u32::from_le_bytes([bytes[40], bytes[41], bytes[42], bytes[43]]),
        20
    );
}

#[test]
fn wav_file_holds_rates_and_body() {
    let file = wav_file(&[1, 2, 3, 4], 2, SAMPLE_RATE);
    assert_eq!(u32::from_le_bytes([file[4], file[5], file[6], file[7]]), 40);
    assert_eq!(u16::from_le_bytes([file[22], file[23]]), 2);
    assert_eq!(u32::from_le_bytes([file[24], file[25], file[26], file[27]]), 48_000);
    assert_eq!(u32::from_le_bytes([file[28], file[29], file[30], file[31]]), 192_000);
    assert_eq!(u16::from_le_bytes([file[32], file[33]]), 4);
    assert_eq!(u16::from_le_bytes([file[34], file[35]]), 16);
    assert_eq!(&file[44..], &[1, 2, 3, 4]);
}

#[test]
fn pcm16_clamps_and_scales_known_values() {
    let mut bytes = Vec::new();
    push_pcm16(&mut bytes, &scaled(&[0.0f32, 1.0, -1.0, 0.5]));
    assert_eq!(bytes.len(), 8);
    let words: Vec<i16> = bytes
        .chunks_exact(2)
        .map(|b| i16::from_le_bytes([b[0], b[1]]))
        .collect();
    assert_eq!(words[0], 0);
    assert_eq!(words[1], i16::MAX);
    assert_eq!(words[2], i16::MIN + 1);
    assert_eq!(words[3], (0.5 * f32::from(i16::MAX)) as i16);
}

#[test]
fn pcm16_output_is_two_bytes_per_sample() {
    let mut bytes = Vec::new();
    push_pcm16(&mut bytes, &scaled(&[0.0f32; 100]));
    assert_eq!(bytes.len(), 200);
}

#[test]
fn pcm16_survives_the_round_trip() {
    let samples = vec![0i16, 1, -1, 256, -256, i16::MAX, i16::MIN, -12_345];
    let mut bytes = Vec::new();
    push_pcm16(&mut bytes, &samples);
    assert_eq!(bytes[2..4], [1, 0]);
    assert_eq!(bytes[4..6], [255, 255]);
    assert_eq!(decode_pcm16(&bytes), samples);
    bytes.push(7);
    assert_eq!(decode_pcm16(&bytes), samples);
}

// ── Reading ───────────────────────────────────────────────────────────────────

#[test]
fn capture_stops_at_the_total() {
    let plan = read_plan(16_000, 1, 5 * NANOS_PER_SEC);
    assert_eq!(plan.chunk_bytes, 8_192);
    assert_eq!(plan.total_bytes, 160_000);
    let stereo = read_plan(48_000, 2, NANOS_PER_SEC);
    assert_eq!(stereo.chunk_bytes, 16_384);
    assert_eq!(stereo.total_bytes, 192_000);

    let plan = read_plan(3, 1, NANOS_PER_SEC);
    let mut pcm = Vec::new();
    keep_chunk(&mut pcm, &[1, 2, 3, 4], &plan);
    assert!(wants_more(pcm.len(), &plan, true));
    assert!(!wants_more(pcm.len(), &plan, false));
    keep_chunk(&mut pcm, &[5, 6, 7, 8], &plan);
    assert_eq!(pcm, vec![1, 2, 3, 4, 5, 6]);
    assert!(!wants_more(pcm.len(), &plan, true));
}

#[test]
fn capture_configs_name_their_stream() {
    let mic = CaptureConfig::mic("a".to_owned());
    assert_eq!((mic.device.as_str(), mic.label, mic.channels), ("a", "mic", 1));
    let system = CaptureConfig::system("b".to_owned());
    assert_eq!((system.device.as_str(), system.label, system.channels), ("b", "system", 2));
    let recorder = Recorder::new("c".to_owned(), "rec");
    assert_eq!((recorder.device.as_str(), recorder.label), ("c", "rec"));
}

// ── Devices ───────────────────────────────────────────────────────────────────

fn devices() -> Devices {
    Devices {
        mic_source: "mic0".to_owned(),
        system_monitor: "sink0.monitor".to_owned(),
    }
}

#[test]
fn discovery_walks_its_three_rounds() {
    let mut d = Discovery::new();
    assert!(matches!(
        d.iterated(Iterate::Success, ContextState::Pending),
        Ok(Step::Iterate)
    ));
    assert!(matches!(
        d.iterated(Iterate::Success, ContextState::Ready),
        Ok(Step::AskServer)
    ));
    assert!(matches!(
        d.iterated(Iterate::Success, ContextState::Ready),
        Ok(Step::Iterate)
    ));
    d.server_info(None, Some("sink0".to_owned()));
    match d.iterated(Iterate::Success, ContextState::Ready) {
        Ok(Step::AskSink(name)) => assert_eq!(name, "sink0"),
        _ => panic!("expected the sink to be asked for"),
    }
    d.sink_item(Some("sink0.monitor".to_owned()));
    d.sink_item(None);
    assert!(matches!(
        d.iterated(Iterate::Success, ContextState::Ready),
        Ok(Step::Iterate)
    ));
    d.sink_end();
    match d.iterated(Iterate::Success, ContextState::Ready) {
        Ok(Step::Found(found)) => {
            assert_eq!(found.mic_source, "unknown");
            assert_eq!(found.system_monitor, "sink0.monitor");
        }
        _ => panic!("expected the devices"),
    }
}

fn message(result: Result<Step, ListenerError>) -> &'static str {
    match result {
        Err(ListenerError::IntrospectionFailed(m)) => m,
        _ => panic!("expected a failure"),
    }
}

#[test]
fn discovery_failures_name_their_cause() {
    let fresh = Discovery::new;
    assert_eq!(
        message(fresh().iterated(Iterate::Failed, ContextState::Pending)),
        "mainloop iterate error while waiting for context ready"
    );
    assert_eq!(
        message(fresh().iterated(Iterate::Quit, ContextState::Pending)),
        "mainloop quit unexpectedly before context was ready"
    );
    assert_eq!(
        message(fresh().iterated(Iterate::Success, ContextState::Failed)),
        "PulseAudio context failed — is pipewire-pulse or PulseAudio running?"
    );
    assert_eq!(
        message(fresh().iterated(Iterate::Success, ContextState::Terminated)),
        "PulseAudio context terminated unexpectedly"
    );
    let mut d = fresh();
    d.iterated(Iterate::Success, ContextState::Ready).unwrap();
    assert_eq!(
        message(d.iterated(Iterate::Quit, ContextState::Ready)),
        "mainloop error while querying server info"
    );
    d.server_info(Some("m".to_owned()), Some("s".to_owned()));
    d.iterated(Iterate::Success, ContextState::Ready).unwrap();
    assert_eq!(
        message(d.iterated(Iterate::Failed, ContextState::Ready)),
        "mainloop error while querying sink monitor source"
    );
    d.sink_end();
    assert_eq!(
        message(d.iterated(Iterate::Success, ContextState::Ready)),
        "default sink has no monitor source — is pipewire-pulse or PulseAudio exposing one?"
    );
}

#[test]
fn setup_failures_name_their_cause() {
    assert!(setup_failure(true, true, true).is_none());
    assert!(matches!(
        setup_failure(false, false, false),
        Some(ListenerError::IntrospectionFailed("could not allocate PulseAudio mainloop"))
    ));
    assert!(matches!(
        setup_failure(true, false, false),
        Some(ListenerError::IntrospectionFailed("could not create PulseAudio context"))
    ));
    assert!(matches!(
        setup_failure(true, true, false),
        Some(ListenerError::IntrospectionFailed("context connect rejected by server"))
    ));
}

#[test]
fn sinks_resolve_to_devices() {
    let input = AudioSink::Input(InputSink::Default);
    let output = AudioSink::Output(OutputSink::Default);
    assert!(needs_discovery(&input));
    assert_eq!(resolve_device(&input, Ok(devices())).unwrap(), "mic0");
    assert_eq!(resolve_device(&output, Ok(devices())).unwrap(), "sink0.monitor");
    assert!(matches!(
        resolve_device(&output, Err(ListenerError::JoinError)),
        Err(ListenerError::JoinError)
    ));
    let custom = AudioSink::Output(OutputSink::Custom("x".to_owned()));
    assert!(!needs_discovery(&custom));
    assert_eq!(resolve_device(&custom, Err(ListenerError::JoinError)).unwrap(), "x");
    let mic = AudioSink::Input(InputSink::Custom("y".to_owned()));
    assert_eq!(resolve_device(&mic, Ok(devices())).unwrap(), "y");
    assert_eq!(sink_label(&mic), "kitetsu-transcribe-input");
    assert_eq!(sink_label(&custom), "kitetsu-transcribe-output");
}

// ── Models ────────────────────────────────────────────────────────────────────

const ALL: Backends = Backends {
    onnx: true,
    whisper: true,
    whisperfile: true,
};

const NONE: Backends = Backends {
    onnx: false,
    whisper: false,
    whisperfile: false,
};

const EVERYTHING: Found = Found {
    named: true,
    moonshine_dir: true,
    whisper_file: true,
};

#[test]
fn moonshine_unavailable_when_dir_absent() {
    let dir = "/nonexistent/moonshine-base-test-sentinel";
    let m = AudioModel::Moonshine {
        model_dir: FilePath::of(dir),
        variant: MoonshineVariant::Base,
    };
    let found = Found {
        named: std::path::Path::new(dir).is_dir(),
        moonshine_dir: true,
        whisper_file: true,
    };
    assert!(!m.available(ALL, found));
}

#[test]
fn whisper_unavailable_when_file_absent() {
    let path = "/nonexistent/ggml-base.en-test-sentinel.bin";
    let m = AudioModel::Whisper {
        model_path: FilePath::of(path),
    };
    let found = Found {
        named: std::path::Path::new(path).exists(),
        moonshine_dir: true,
        whisper_file: true,
    };
    assert!(!m.available(ALL, found));
}

#[test]
fn moonshine_default_dir_respects_env_var() {
    let custom = "/tmp/kitetsu-test-moonshine-sentinel";
    let path = AudioModel::default_moonshine_dir(
        Some(custom.to_owned()),
        Some("/data".to_owned()),
        Some("/home/me".to_owned()),
    );
    assert_eq!(path.bytes, custom.as_bytes());
}

#[test]
fn whisper_default_path_respects_env_var() {
    let custom = "/tmp/kitetsu-test-whisper-sentinel.bin";
    let path = AudioModel::default_whisper_path(Some(custom.to_owned()), None, None);
    assert_eq!(path.bytes, custom.as_bytes());
}

#[test]
fn default_model_paths_follow_the_data_directory() {
    let path = AudioModel::default_moonshine_dir(None, Some("/data".to_owned()), None);
    assert_eq!(path.bytes, b"/data/kitetsu/models/moonshine-base");
    let path = AudioModel::default_whisper_path(None, None, Some("/home/me/".to_owned()));
    assert_eq!(path.bytes, b"/home/me/.local/share/kitetsu/models/ggml-base.en.bin");
    let path = AudioModel::default_whisper_path(None, None, None);
    assert_eq!(path.bytes, b"/tmp/kitetsu/models/ggml-base.en.bin");
}

#[test]
fn availability_needs_backend_and_files() {
    assert!(AudioModel::Default.available(ALL, EVERYTHING));
    assert!(!AudioModel::Default.available(NONE, EVERYTHING));
    let whisper_only = Found {
        named: false,
        moonshine_dir: false,
        whisper_file: true,
    };
    assert!(AudioModel::Default.available(ALL, whisper_only));
    let file = AudioModel::Whisperfile {
        model_path: FilePath::of("w"),
    };
    assert!(file.available(ALL, EVERYTHING));
    let onnx = AudioModel::Onnx {
        model_dir: FilePath::of("o"),
    };
    assert!(!onnx.available(ALL, whisper_only));
    assert!(matches!(onnx.resolve(ALL, whisper_only), AudioModel::Default));
    let again = file.resolve(ALL, EVERYTHING).resolve(ALL, EVERYTHING);
    assert!(matches!(again, AudioModel::Whisperfile { .. }));
}

fn load(model: AudioModel, backends: Backends, found: Found) -> Result<LoadPlan, ListenerError> {
    model.load(backends, found, FilePath::of("moon"), FilePath::of("whisper"))
}

#[test]
fn default_model_is_the_first_available() {
    match load(AudioModel::Default, ALL, EVERYTHING) {
        Ok(LoadPlan::Moonshine { model_dir, variant }) => {
            assert_eq!(model_dir.bytes, b"moon");
            assert_eq!(variant, MoonshineVariant::Base);
        }
        _ => panic!("expected Moonshine"),
    }
    let whisper_only = Found {
        named: false,
        moonshine_dir: false,
        whisper_file: true,
    };
    match load(AudioModel::Default, ALL, whisper_only) {
        Ok(LoadPlan::Whisper { model_path }) => assert_eq!(model_path.bytes, b"whisper"),
        _ => panic!("expected Whisper"),
    }
    let nothing = Found {
        named: false,
        moonshine_dir: false,
        whisper_file: false,
    };
    assert!(matches!(
        load(AudioModel::Default, ALL, nothing),
        Ok(LoadPlan::Moonshine { .. })
    ));
    assert!(matches!(
        load(AudioModel::Default, NONE, EVERYTHING),
        Err(ListenerError::BackendNotCompiled(
            "no STT backend compiled — enable the 'onnx' or 'whisper' feature"
        ))
    ));
}

#[test]
fn models_outside_the_build_are_refused() {
    let moonshine = AudioModel::Moonshine {
        model_dir: FilePath::of("m"),
        variant: MoonshineVariant::Tiny,
    };
    assert!(matches!(
        load(moonshine.clone(), NONE, EVERYTHING),
        Err(ListenerError::BackendNotCompiled("onnx — enable the 'onnx' feature"))
    ));
    assert!(matches!(
        load(moonshine, ALL, EVERYTHING),
        Ok(LoadPlan::Moonshine { variant: MoonshineVariant::Tiny, .. })
    ));
    let whisper = AudioModel::Whisper {
        model_path: FilePath::of("w"),
    };
    assert!(matches!(
        load(whisper, NONE, EVERYTHING),
        Err(ListenerError::BackendNotCompiled("whisper — enable the 'whisper' feature"))
    ));
    let file = AudioModel::Whisperfile {
        model_path: FilePath::of("w"),
    };
    assert!(matches!(
        load(file, ALL, EVERYTHING),
        Err(ListenerError::BackendNotCompiled("whisperfile — enable the 'whisperfile' feature"))
    ));
    let onnx = AudioModel::Onnx {
        model_dir: FilePath::of("o"),
    };
    assert!(matches!(
        load(onnx, ALL, EVERYTHING),
        Err(ListenerError::BackendNotCompiled("onnx — enable the 'onnx' feature"))
    ));
}

#[test]
fn threads_follow_the_request_or_the_cores() {
    assert_eq!(inference_threads(Some(3), 16), 3);
    assert_eq!(inference_threads(None, 16), 8);
    assert_eq!(inference_threads(None, 2), 2);
    assert_eq!(whole_transcript("  hi \n"), "hi");
}

#[test]
fn transcription_failures_keep_their_origin() {
    assert_eq!(
        transcribe(TranscribeOutcome::Local(Some(Ok("a".to_owned())))).unwrap(),
        "a"
    );
    assert!(matches!(
        transcribe(TranscribeOutcome::Local(None)),
        Err(TranscribeError::Panicked)
    ));
    assert!(matches!(
        transcribe(TranscribeOutcome::Local(Some(Err(ListenerError::JoinError)))),
        Err(TranscribeError::Local(ListenerError::JoinError))
    ));
    assert!(matches!(joined_result(None), Err(ListenerError::JoinError)));
    assert_eq!(joined_result(Some(Ok("b".to_owned()))).unwrap(), "b");
}

#[test]
fn fraction_of_a_second_is_captured() {
    let plan = read_plan(RATE_16K, 1, 1_500_000_000);
    let mut pcm = Vec::new();
    let mut reads: u64 = 0;
    // Every read takes as long as its audio: 256 ms.
    while wants_more(pcm.len(), &plan, reads * 256 < 1_500) {
        keep_chunk(&mut pcm, &vec![1u8; plan.chunk_bytes], &plan);
        reads += 1;
    }
    assert_eq!(reads, 6);
    assert_eq!(decode_pcm16(&pcm).len(), 24_000);
    assert_eq!(read_plan(SAMPLE_RATE, 2, 1).total_bytes, 0);
    assert_eq!(read_plan(SAMPLE_RATE, 2, 20_834).total_bytes, 4);
}
