use kitetsu::listener::transcribe::api::env::{
    load_dotenv, require, KeyError, ANTHROPIC_API_KEY, OPENAI_API_KEY,
};
use kitetsu::listener::transcribe::api::openai::{refusal, ApiConfig, ApiError, ApiTranscriber};
use kitetsu::listener::transcribe::api::realtime::{
    authorization, commit_text, feed_message, message_text, next_event, parse_server_event,
    resample_16k_to_24k, unknown_code, Frame, Incoming, RealtimeError, Received, ServerError, Tap,
    TranscriptEvent,
};
use kitetsu::listener::transcribe::transcriber::{transcribe, TranscribeError, TranscribeOutcome};

// ── Keys ──────────────────────────────────────────────────────────────────────

#[test]
fn require_missing_key_returns_missing() {
    assert!(matches!(
        require("__KITETSU_ABSENT_KEY_A1B2C3__", None),
        Err(KeyError::Missing(_))
    ));
}

#[test]
fn require_wants_a_value() {
    assert!(matches!(
        require(OPENAI_API_KEY, Some(" \t ".to_owned())),
        Err(KeyError::Empty("OPENAI_API_KEY"))
    ));
    assert_eq!(
        require(ANTHROPIC_API_KEY, Some(" k ".to_owned())).unwrap(),
        " k "
    );
}

#[test]
fn dotenv_lines_become_assignments() {
    let text = "# note\n\n A = 1 \r\nB=\"two words\"\nC='x=y'\nnot a line\nD=\"'q'\"\n=v\n";
    let added = load_dotenv(text, &vec![]);
    let want = [
        ("A", "1"),
        ("B", "two words"),
        ("C", "x=y"),
        ("D", "q"),
        ("", "v"),
    ];
    assert_eq!(added.len(), want.len());
    for (got, want) in added.iter().zip(want) {
        assert_eq!((got.0.as_str(), got.1.as_str()), want);
    }
}

#[test]
fn dotenv_leaves_set_names_alone() {
    let added = load_dotenv("A=1\nB=2\nA=3\nB=4\n", &vec!["A".to_owned()]);
    assert_eq!(added, vec![("B".to_owned(), "2".to_owned())]);
}

// ── Uploads ───────────────────────────────────────────────────────────────────

#[test]
fn transcribe_empty_key_is_rejected() {
    let err = ApiTranscriber::new("   ".to_owned(), ApiConfig::default()).unwrap_err();
    assert!(matches!(err, ApiError::MissingKey));
}

#[test]
fn upload_holds_the_form() {
    let config = ApiConfig {
        language: Some("en".to_owned()),
        ..ApiConfig::default()
    };
    let client = ApiTranscriber::new("key".to_owned(), config).unwrap();
    assert!(matches!(client.transcribe(&[]), Err(ApiError::EmptyAudio)));
    let upload = client.transcribe(&[1, -1]).unwrap();
    assert_eq!(upload.url, "https://api.openai.com/v1/audio/transcriptions");
    assert_eq!(upload.bearer, "key");
    assert_eq!(upload.file.len(), 48);
    assert_eq!(&upload.file[44..], &[1, 0, 255, 255]);
    assert_eq!((upload.file_name, upload.mime), ("audio.wav", "audio/wav"));
    let fields: Vec<(&str, &str)> =
        upload.fields.iter().map(|f| (f.0, f.1.as_str())).collect();
    assert_eq!(
        fields,
        vec![
            ("model", "gpt-4o-transcribe"),
            ("response_format", "json"),
            ("language", "en")
        ]
    );
}

#[test]
fn refused_uploads_keep_status_and_body() {
    assert!(refusal(200, String::new()).is_none());
    assert!(refusal(299, String::new()).is_none());
    match refusal(401, "no".to_owned()) {
        Some(ApiError::Status { status, body }) => {
            assert_eq!((status, body.as_str()), (401, "no"));
        }
        _ => panic!("expected a refusal"),
    }
    assert!(refusal(199, String::new()).is_some());
    assert!(refusal(300, String::new()).is_some());
    assert!(matches!(
        transcribe(TranscribeOutcome::Api(Err(ApiError::Request("dns".to_owned())))),
        Err(TranscribeError::Api(ApiError::Request(_)))
    ));
    assert_eq!(transcribe(TranscribeOutcome::Api(Ok("t".to_owned()))).unwrap(), "t");
}

// ── Resampling ────────────────────────────────────────────────────────────────

fn blend(taps: &[Tap<f32>]) -> Vec<f32> {
    taps.iter()
        .map(|t| match t {
            Tap::Whole(a) => *a,
            Tap::Blend { near, far } => near * (2.0 / 3.0) + far * (1.0 / 3.0),
        })
        .collect()
}

#[test]
fn resample_empty_input_is_empty() {
    let none: [f32; 0] = [];
    assert!(resample_16k_to_24k(&none).is_empty());
}

#[test]
fn resample_single_sample_passthrough() {
    let out = blend(&resample_16k_to_24k(&[0.5f32]));
    assert_eq!(out.len(), 1);
    assert_eq!(out[0], 0.5);
}

#[test]
fn resample_two_samples_produce_three() {
    let out = blend(&resample_16k_to_24k(&[0.0f32, 1.0]));
    assert_eq!(out.len(), 3);
    assert_eq!(out[0], 0.0);
    assert!((out[1] - 1.0 / 3.0).abs() < 1e-6, "out[1] = {}", out[1]);
    assert!((out[2] - 2.0 / 3.0).abs() < 1e-6, "out[2] = {}", out[2]);
}

#[test]
fn resample_4096_chunk_produces_6144() {
    let out = resample_16k_to_24k(&[0.0f32; 4096]);
    assert_eq!(out.len(), 6144);
}

#[test]
fn resample_odd_input_length() {
    let out = resample_16k_to_24k(&[0.0f32; 5]);
    assert_eq!(out.len(), 7);
}

#[test]
fn resample_in_even_parts_is_seamless() {
    let samples = [1.0f32, 2.0, 3.0, 4.0, 5.0];
    let whole = blend(&resample_16k_to_24k(&samples));
    let mut parts = blend(&resample_16k_to_24k(&samples[..2]));
    parts.extend(blend(&resample_16k_to_24k(&samples[2..])));
    assert_eq!(whole, parts);
}

// ── Messages ──────────────────────────────────────────────────────────────────

#[test]
fn audio_goes_up_as_base64_json() {
    assert!(feed_message(&[]).unwrap().is_none());
    let text = feed_message(&[0x0201, 0x0003]).unwrap().unwrap();
    assert_eq!(
        text,
        r#"{"audio":"AQIDAA==","type":"input_audio_buffer.append"}"#
    );
    assert_eq!(commit_text().unwrap(), r#"{"type":"input_audio_buffer.commit"}"#);
    let value: serde_json::Value = serde_json::from_str(r#"{"b":[1,true],"a":null}"#).unwrap();
    assert_eq!(message_text(&value).unwrap(), r#"{"a":null,"b":[1,true]}"#);
}

#[test]
fn connect_rejects_blank_key() {
    assert!(matches!(authorization("   "), Err(RealtimeError::MissingKey)));
    assert_eq!(authorization(" abc\n").unwrap(), "Bearer abc");
}

fn text(value: &serde_json::Value, key: &str) -> Option<String> {
    value.get(key).and_then(|v| v.as_str()).map(|s| s.to_owned())
}

fn frame(json: &str) -> Frame {
    let value: serde_json::Value = serde_json::from_str(json).unwrap();
    Frame {
        event_type: text(&value, "type").unwrap(),
        delta: text(&value, "delta"),
        transcript: text(&value, "transcript"),
        error: value.get("error").map(|e| ServerError {
            code: text(e, "code").unwrap_or_else(unknown_code),
            message: text(e, "message").unwrap(),
        }),
    }
}

#[test]
fn parses_delta_event() {
    let json = r#"{"type":"conversation.item.input_audio_transcription.delta","delta":"Hello"}"#;
    let evt = parse_server_event(frame(json)).unwrap().unwrap();
    assert!(matches!(evt, TranscriptEvent::Delta(s) if s == "Hello"));
}

#[test]
fn parses_completed_event() {
    let json = r#"{"type":"conversation.item.input_audio_transcription.completed","transcript":"Hello world."}"#;
    let evt = parse_server_event(frame(json)).unwrap().unwrap();
    assert!(matches!(evt, TranscriptEvent::Completed(s) if s == "Hello world."));
}

#[test]
fn lifecycle_events_return_none() {
    let json = r#"{"type":"session.created","session":{}}"#;
    assert!(parse_server_event(frame(json)).unwrap().is_none());
}

#[test]
fn unknown_event_type_returns_none() {
    let json = r#"{"type":"session.updated","session":{}}"#;
    assert!(parse_server_event(frame(json)).unwrap().is_none());
}

#[test]
fn error_event_returns_err() {
    let json = r#"{"type":"error","error":{"code":"invalid_request","message":"bad audio"}}"#;
    let result = parse_server_event(frame(json));
    assert!(
        matches!(result, Err(RealtimeError::Protocol { ref code, ref message })
            if code == "invalid_request" && message == "bad audio")
    );
}

#[test]
fn response_events_and_absent_members() {
    let json = r#"{"type":"response.audio_transcript.delta"}"#;
    let evt = parse_server_event(frame(json)).unwrap().unwrap();
    assert!(matches!(evt, TranscriptEvent::Delta(s) if s.is_empty()));
    let json = r#"{"type":"response.audio_transcript.done","transcript":"x"}"#;
    let evt = parse_server_event(frame(json)).unwrap().unwrap();
    assert!(matches!(evt, TranscriptEvent::Completed(s) if s == "x"));
    let result = parse_server_event(frame(r#"{"type":"error"}"#));
    assert!(
        matches!(result, Err(RealtimeError::Protocol { ref code, ref message })
            if code == "unknown" && message == "unknown server error")
    );
}

#[test]
fn frames_are_told_apart() {
    assert!(matches!(next_event(Incoming::Ended), Err(RealtimeError::Closed)));
    assert!(matches!(next_event(Incoming::Close), Err(RealtimeError::Closed)));
    assert!(matches!(
        next_event(Incoming::Failed("tls".to_owned())),
        Err(RealtimeError::WebSocket(m)) if m == "tls"
    ));
    assert!(matches!(
        next_event(Incoming::Text(Err("eof".to_owned()))),
        Err(RealtimeError::Json(m)) if m == "eof"
    ));
    assert!(matches!(next_event(Incoming::Other), Ok(Received::Ignore)));
    assert!(matches!(
        next_event(Incoming::Text(Ok(frame(r#"{"type":"session.created"}"#)))),
        Ok(Received::Event(None))
    ));
    assert!(matches!(
        next_event(Incoming::Text(Ok(frame(
            r#"{"type":"response.audio_transcript.delta","delta":"d"}"#
        )))),
        Ok(Received::Event(Some(TranscriptEvent::Delta(s)))) if s == "d"
    ));
}
