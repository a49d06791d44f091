use kitetsu::listener::capture::discover::Devices;
use kitetsu::listener::transcribe::api::env::KeyError;
use kitetsu::listener::transcribe::api::realtime::{RealtimeError, TranscriptEvent};
use kitetsu::paths::FilePath;
use kitetsu::settings::{config_dir, settings_path, Settings, SettingsError, SettingsFile};
use kitetsu::single::Single;
use kitetsu::teleprompter::config::{
    relative_to, Config, ConfigError, ConfigFile, OutputMode,
};
use kitetsu::teleprompter::daemon::{
    build_backend, build_session_update, capture_plans, chunk_transcriber, finished, labels,
    need_discovery, openai_key, started, transcribed, CommitClock, Daemon, DaemonError, PipeKind,
};
use kitetsu::teleprompter::ipc::{
    bind, framed, response, socket_path, unframed, BindStep, Command, IpcError,
};
use kitetsu::teleprompter::llm::{LlmBackendKind, LlmError};
use kitetsu::teleprompter::output::{utc_hms, write_block, BlockWrite};
use kitetsu::teleprompter::pipes::{PipeError, PipeOutcome};
use kitetsu::teleprompter::ui::{Stage, UiEvent};
use kitetsu::teleprompter::window::{Source, WindowManager, SAMPLE_RATE};

// ── Configuration ─────────────────────────────────────────────────────────────

fn single(v: &toml::Value) -> Single {
    Single {
        bits: (v.as_float().unwrap() as f32).to_bits(),
    }
}

fn text(v: &toml::Value) -> String {
    v.as_str().unwrap().to_owned()
}

fn backend(v: &toml::Value) -> LlmBackendKind {
    match v.as_str().unwrap() {
        "openai" => LlmBackendKind::Openai,
        "anthropic" => LlmBackendKind::Anthropic,
        other => panic!("no backend {other}"),
    }
}

/// The defaults with the values of a TOML text on top.
fn config(toml_text: &str) -> Config {
    let mut c = Config::default();
    let table: toml::Table = toml_text.parse().unwrap();
    for (section, values) in &table {
        for (key, v) in values.as_table().unwrap() {
            match (section.as_str(), key.as_str()) {
                ("output", "dir") => c.output.dir = FilePath::of(v.as_str().unwrap()),
                ("output", "mode") => {
                    c.output.mode = match v.as_str().unwrap() {
                        "append" => OutputMode::Append,
                        _ => OutputMode::Overwrite,
                    }
                }
                ("prompts", "prompt") => c.prompts.prompt = FilePath::of(v.as_str().unwrap()),
                ("prompts", "context") => c.prompts.context = FilePath::of(v.as_str().unwrap()),
                ("audio", "mic") => c.audio.mic = v.as_bool().unwrap(),
                ("audio", "system") => c.audio.system = v.as_bool().unwrap(),
                ("audio", "mic_label") => c.audio.mic_label = text(v),
                ("audio", "system_label") => c.audio.system_label = text(v),
                ("audio", "max_window_secs") => {
                    c.audio.max_window_secs = v.as_integer().unwrap() as u64
                }
                ("pipe1", "enabled") => c.pipe1.enabled = v.as_bool().unwrap(),
                ("pipe1", "stt_model") => c.pipe1.stt_model = text(v),
                ("pipe1", "stt_language") => c.pipe1.stt_language = Some(text(v)),
                ("pipe1", "commit_every_chunks") => {
                    c.pipe1.commit_every_chunks = v.as_integer().unwrap() as usize
                }
                ("pipe1", "llm_backend") => c.pipe1.llm_backend = backend(v),
                ("pipe1", "llm_model") => c.pipe1.llm_model = text(v),
                ("pipe1", "font_size") => c.pipe1.font_size = single(v),
                ("pipe1", "width") => c.pipe1.width = single(v),
                ("pipe1", "height") => c.pipe1.height = single(v),
                ("pipe1", "opacity") => c.pipe1.opacity = single(v),
                ("pipe1", "bg_opacity") => c.pipe1.bg_opacity = Some(single(v)),
                ("pipe1", "text_opacity") => c.pipe1.text_opacity = Some(single(v)),
                ("pipe1", "pos_x") => c.pipe1.pos_x = single(v),
                ("pipe1", "pos_y") => c.pipe1.pos_y = single(v),
                ("pipe2", "enabled") => c.pipe2.enabled = v.as_bool().unwrap(),
                ("pipe2", "stt_model") => c.pipe2.stt_model = text(v),
                ("pipe2", "llm_backend") => c.pipe2.llm_backend = backend(v),
                ("pipe2", "llm_model") => c.pipe2.llm_model = text(v),
                ("pipe2", "opacity") => c.pipe2.opacity = single(v),
                ("pipe3", "enabled") => c.pipe3.enabled = v.as_bool().unwrap(),
                ("pipe3", "llm_backend") => c.pipe3.llm_backend = backend(v),
                ("pipe3", "llm_model") => c.pipe3.llm_model = text(v),
                (section, key) => panic!("no key {section}.{key}"),
            }
        }
    }
    c
}

fn bits(v: f32) -> Single {
    Single { bits: v.to_bits() }
}

fn problem(toml_text: &str) -> String {
    match config(toml_text).validate() {
        Err(ConfigError::Invalid(m)) => m,
        _ => panic!("expected an invalid configuration"),
    }
}

#[test]
fn empty_config_uses_all_defaults() {
    let cfg = config("");
    assert!(cfg.validate().is_ok());
    assert_eq!(cfg.audio.max_window_secs, 300);
    assert_eq!(cfg.output.mode, OutputMode::Append);
    assert_eq!(cfg.pipe3.llm_model, "gpt-4o-audio-preview");
    assert_eq!(cfg.output.dir.bytes, b"out");
    assert_eq!(cfg.prompts.prompt.bytes, b"prompt.md");
    assert_eq!(cfg.prompts.context.bytes, b"context.md");
    assert_eq!(cfg.audio.mic_label, "Me");
    assert_eq!(cfg.audio.system_label, "Them");
    assert_eq!(cfg.pipe1.font_size, bits(19.0));
    assert_eq!(cfg.pipe1.opacity, bits(1.0));
    assert_eq!(cfg.pipe1.width, bits(600.0));
    assert_eq!(cfg.pipe1.height, bits(400.0));
    assert_eq!(cfg.pipe1.pos_x, bits(40.0));
    assert_eq!(cfg.pipe1.pos_y, bits(40.0));
    assert_eq!(cfg.pipe2.pos_y, bits(460.0));
    assert_eq!(cfg.pipe1.commit_every_chunks, 8);
    assert_eq!(OutputMode::default(), OutputMode::Append);
}

#[test]
fn parses_full_schema() {
    let cfg = config(
        r#"
            [output]
            dir = "results"
            mode = "overwrite"
            [prompts]
            prompt = "p.md"
            context = "c.md"
            [audio]
            mic = true
            system = false
            mic_label = "I"
            system_label = "They"
            max_window_secs = 120
            [pipe1]
            enabled = true
            stt_model = "gpt-realtime-whisper"
            stt_language = "en"
            commit_every_chunks = 4
            llm_backend = "anthropic"
            llm_model = "opus-4-8"
            [pipe2]
            enabled = false
            stt_model = "whisper-1"
            llm_backend = "openai"
            llm_model = "gpt-4o-mini"
            [pipe3]
            enabled = true
            llm_backend = "openai"
            llm_model = "gpt-4o-audio-preview"
        "#,
    );
    cfg.validate().expect("valid");
    assert_eq!(cfg.output.mode, OutputMode::Overwrite);
    assert!(!cfg.audio.system);
    assert_eq!(cfg.pipe1.llm_backend, LlmBackendKind::Anthropic);
    assert_eq!(cfg.pipe1.commit_every_chunks, 4);
    assert!(!cfg.pipe2.enabled);
}

#[test]
fn zero_window_cap_is_invalid() {
    let cfg = config("[audio]\nmax_window_secs = 0\n");
    assert!(matches!(cfg.validate(), Err(ConfigError::Invalid(_))));
}

#[test]
fn no_audio_sources_is_invalid() {
    let cfg = config("[audio]\nmic = false\nsystem = false\n");
    assert!(matches!(cfg.validate(), Err(ConfigError::Invalid(_))));
}

#[test]
fn enabled_pipe_with_blank_model_is_invalid() {
    let cfg = config("[pipe1]\nllm_model = \"  \"\n");
    assert!(matches!(cfg.validate(), Err(ConfigError::Invalid(_))));
}

#[test]
fn pipe3_non_openai_backend_is_invalid() {
    let cfg = config("[pipe3]\nllm_backend = \"anthropic\"\n");
    assert!(matches!(cfg.validate(), Err(ConfigError::Invalid(_))));
}

#[test]
fn disabled_pipe_skips_model_validation() {
    let cfg = config("[pipe1]\nenabled = false\nllm_model = \"\"\n");
    assert!(cfg.validate().is_ok());
}

#[test]
fn parses_card_style_keys() {
    let cfg = config(
        "[pipe1]\nfont_size = 26.0\nopacity = 0.8\nbg_opacity = 0.5\npos_x = 100.0\npos_y = 200.0\n",
    );
    cfg.validate().expect("valid");
    assert_eq!(cfg.pipe1.font_size, bits(26.0));
    assert_eq!(cfg.pipe1.opacity, bits(0.8));
    assert_eq!(cfg.pipe1.bg_opacity, Some(bits(0.5)));
    assert_eq!(cfg.pipe1.text_opacity, None);
    assert_eq!(cfg.pipe1.pos_x, bits(100.0));
    assert_eq!(cfg.pipe1.pos_y, bits(200.0));
}

#[test]
fn out_of_range_opacity_is_invalid() {
    let cfg = config("[pipe2]\nopacity = 1.5\n");
    assert!(matches!(cfg.validate(), Err(ConfigError::Invalid(_))));
}

#[test]
fn nonpositive_font_size_is_invalid() {
    let cfg = config("[pipe1]\nfont_size = 0.0\n");
    assert!(matches!(cfg.validate(), Err(ConfigError::Invalid(_))));
}

#[test]
fn problems_are_named_in_order() {
    assert_eq!(
        problem("[audio]\nmax_window_secs = 0\nmic = false\nsystem = false\n"),
        "audio.max_window_secs must be greater than 0"
    );
    assert_eq!(
        problem("[audio]\nmic = false\nsystem = false\n"),
        "at least one of audio.mic / audio.system must be enabled"
    );
    assert_eq!(
        problem("[pipe1]\nstt_model = \"\"\nllm_model = \"\"\n"),
        "pipe1.stt_model must not be blank"
    );
    assert_eq!(problem("[pipe1]\nllm_model = \"\"\n"), "pipe1.llm_model must not be blank");
    assert_eq!(
        problem("[pipe1]\ncommit_every_chunks = 0\nwidth = -1.0\n"),
        "pipe1.commit_every_chunks must be greater than 0"
    );
    assert_eq!(problem("[pipe1]\nwidth = -1.0\n"), "pipe1.width must be greater than 0");
    assert_eq!(problem("[pipe1]\nheight = -0.0\n"), "pipe1.height must be greater than 0");
    assert_eq!(
        problem("[pipe1]\nopacity = -0.1\n"),
        "pipe1.opacity must be between 0.0 and 1.0"
    );
    assert_eq!(
        problem("[pipe1]\nbg_opacity = 1.1\n"),
        "pipe1.bg_opacity must be between 0.0 and 1.0"
    );
    assert_eq!(
        problem("[pipe1]\ntext_opacity = nan\n"),
        "pipe1.text_opacity must be between 0.0 and 1.0"
    );
    assert_eq!(problem("[pipe2]\nstt_model = \"\"\n"), "pipe2.stt_model must not be blank");
    assert_eq!(problem("[pipe3]\nllm_model = \"\"\n"), "pipe3.llm_model must not be blank");
    assert_eq!(
        problem("[pipe3]\nllm_backend = \"anthropic\"\n"),
        "pipe3 (audio-direct) supports only llm_backend = \"openai\""
    );
}

#[test]
fn singles_compare_as_numbers() {
    for v in [
        0.0f32,
        -0.0,
        1.0,
        -1.0,
        0.5,
        1.0000001,
        0.99999994,
        f32::MIN_POSITIVE,
        1.0e-45,
        -1.0e-45,
        f32::MAX,
        f32::INFINITY,
        f32::NEG_INFINITY,
        f32::NAN,
    ] {
        assert_eq!(bits(v).is_at_most_zero(), v <= 0.0, "{v}");
        assert_eq!(bits(v).is_in_unit(), (0.0..=1.0).contains(&v), "{v}");
    }
}

#[test]
fn config_file_troubles_are_told_apart() {
    let path = FilePath::of("/etc/t.toml");
    assert!(matches!(
        Config::load(path.clone(), ConfigFile::Unreadable("gone".to_owned())),
        Err(ConfigError::Read { path, source }) if path.bytes == b"/etc/t.toml" && source == "gone"
    ));
    assert!(matches!(
        Config::load(path.clone(), ConfigFile::Malformed("eof".to_owned())),
        Err(ConfigError::Parse { source, .. }) if source == "eof"
    ));
    assert!(Config::load(path.clone(), ConfigFile::Parsed(Config::default())).is_ok());
    assert!(matches!(
        Config::load(path, ConfigFile::Parsed(config("[audio]\nmax_window_secs = 0\n"))),
        Err(ConfigError::Invalid(_))
    ));
}

#[test]
fn system_prompt_joins_two_files() {
    assert_eq!(Config::load_system_prompt(" be brief\n\n", "I am Ada \n"), " be brief\n\nI am Ada");
    let base = FilePath::of("/conf");
    assert_eq!(relative_to(&base, &FilePath::of("p.md")).bytes, b"/conf/p.md");
    assert_eq!(relative_to(&base, &FilePath::of("/p.md")).bytes, b"/p.md");
}

// ── Settings ──────────────────────────────────────────────────────────────────

#[test]
fn missing_file_means_all_tools_disabled() {
    let settings = Settings::load(&FilePath::of("/d"), SettingsFile::Missing)
        .expect("missing file is not an error");
    assert_eq!(settings, Settings::default());
    assert!(!settings.teleprompter.enabled);
}

#[test]
fn settings_file_troubles_are_errors() {
    let dir = FilePath::of("/d");
    assert_eq!(settings_path(&dir).bytes, b"/d/kitetsu.toml");
    assert!(matches!(
        Settings::load(&dir, SettingsFile::Unreadable("denied".to_owned())),
        Err(SettingsError::Read { path, source })
            if path.bytes == b"/d/kitetsu.toml" && source == "denied"
    ));
    assert!(matches!(
        Settings::load(&dir, SettingsFile::Malformed("eof".to_owned())),
        Err(SettingsError::Parse { .. })
    ));
    let mut on = Settings::default();
    on.teleprompter.enabled = true;
    assert_eq!(Settings::load(&dir, SettingsFile::Parsed(on)).unwrap(), on);
}

#[test]
fn override_dir_wins() {
    let explicit = FilePath::of("/tmp/kitetsu-explicit");
    let dir = config_dir(
        Some(explicit),
        Some(FilePath::of("/xdg")),
        Some(FilePath::of("/home/me")),
    );
    assert_eq!(dir.bytes, b"/tmp/kitetsu-explicit");
}

#[test]
fn config_dir_ends_in_kitetsu() {
    let path = |p: &str| Some(FilePath::of(p));
    assert_eq!(config_dir(None, path("/xdg"), path("/home/me")).bytes, b"/xdg/kitetsu");
    assert_eq!(
        config_dir(None, path(""), path("/home/me")).bytes,
        b"/home/me/.config/kitetsu"
    );
    assert_eq!(config_dir(None, None, path("")).bytes, b".config/kitetsu");
    assert_eq!(config_dir(None, None, None).bytes, b".config/kitetsu");
}

// ── Control plane ─────────────────────────────────────────────────────────────

const COMMANDS: [Command; 8] = [
    Command::Ping,
    Command::Next,
    Command::Trash,
    Command::Pause,
    Command::Toggle,
    Command::Forward,
    Command::Backward,
    Command::Stop,
];

fn decode(line: &str) -> Option<Command> {
    let value: serde_json::Value = serde_json::from_str(line).ok()?;
    Command::from_tag(value.get("cmd")?.as_str()?)
}

#[test]
fn command_json_round_trips() {
    for cmd in COMMANDS {
        let line = cmd.encode().expect("serialise");
        let back = decode(&line).expect("deserialise");
        assert_eq!(cmd, back);
    }
}

#[test]
fn command_tag_is_lowercase_cmd_field() {
    assert_eq!(Command::Next.encode().unwrap(), r#"{"cmd":"next"}"#);
    assert_eq!(Command::Stop.encode().unwrap(), r#"{"cmd":"stop"}"#);
}

#[test]
fn unknown_command_is_rejected() {
    assert!(decode(r#"{"cmd":"explode"}"#).is_none());
    assert!(Command::from_tag("Next").is_none());
}

#[test]
fn socket_path_uses_runtime_dir_when_set() {
    let run = FilePath::of("/run/user/1000");
    assert_eq!(
        socket_path(Some(run), FilePath::of("/tmp")).bytes,
        b"/run/user/1000/kitetsu.sock"
    );
    assert_eq!(socket_path(None, FilePath::of("/tmp/")).bytes, b"/tmp/kitetsu.sock");
}

#[test]
fn sent_commands_read_back_as_themselves() {
    for cmd in COMMANDS {
        let line = cmd.encode().expect("serialise");
        assert!(!line.contains('\n'));
        let got = unframed(&framed(&line));
        assert_eq!(got, line);
        assert_eq!(decode(&got), Some(cmd));
    }
}

#[test]
fn lines_are_framed_and_unframed() {
    assert_eq!(framed("pong"), "pong\n");
    assert_eq!(unframed(&framed(" queued window 3 ")), " queued window 3");
    assert_eq!(response(Some("pong\r\n".to_owned())).unwrap(), "pong");
    assert!(matches!(response(None), Err(IpcError::NoResponse)));
}

#[test]
fn bind_spares_a_live_daemon() {
    let path = FilePath::of("/tmp/kitetsu.sock");
    assert!(matches!(bind(path.clone(), false, false), Ok(BindStep::Bind)));
    assert!(matches!(bind(path.clone(), true, false), Ok(BindStep::RemoveStale)));
    assert!(matches!(
        bind(path, true, true),
        Err(IpcError::AlreadyRunning(p)) if p.bytes == b"/tmp/kitetsu.sock"
    ));
}

// ── Windows ───────────────────────────────────────────────────────────────────

#[test]
fn snapshot_clears_buffers_and_increments_window() {
    let mut wm = WindowManager::new(300);
    wm.append_raw(Source::Mic, &[0.1, 0.2, 0.3]);
    wm.append_text(Source::Mic, "hello");
    wm.append_text(Source::Sys, "world");

    let w1 = wm.snapshot_and_reset();
    assert_eq!(w1.n, 1);
    assert_eq!(w1.mic_raw, vec![0.1, 0.2, 0.3]);
    assert_eq!(w1.mic_text, "hello");
    assert_eq!(w1.sys_text, "world");

    let w2 = wm.snapshot_and_reset();
    assert_eq!(w2.n, 2);
    assert!(w2.mic_raw.is_empty());
    assert!(w2.mic_text.is_empty());
}

#[test]
fn cap_drops_oldest_raw_samples() {
    let mut wm = WindowManager::new(1);
    let chunk = vec![1.0f32; SAMPLE_RATE as usize];
    wm.append_raw(Source::Sys, &chunk);
    wm.append_raw(Source::Sys, &[2.0, 2.0, 2.0]);

    let w = wm.snapshot_and_reset();
    assert_eq!(w.sys_raw.len(), SAMPLE_RATE as usize);
    assert_eq!(&w.sys_raw[w.sys_raw.len() - 3..], &[2.0, 2.0, 2.0]);
}

#[test]
fn zero_cap_is_unbounded() {
    let mut wm = WindowManager::new(0);
    let chunk = vec![1.0f32; SAMPLE_RATE as usize * 2];
    wm.append_raw(Source::Mic, &chunk);
    let w = wm.snapshot_and_reset();
    assert_eq!(w.mic_raw.len(), SAMPLE_RATE as usize * 2);
}

#[test]
fn text_accumulation_joins_utterances_and_skips_blanks() {
    let mut wm: WindowManager<f32> = WindowManager::new(300);
    wm.append_text(Source::Mic, "one");
    wm.append_text(Source::Mic, "   ");
    wm.append_text(Source::Mic, " two ");
    let w = wm.snapshot_and_reset();
    assert_eq!(w.mic_text, "one two");
}

#[test]
fn chunks_make_one_stream_under_the_cap() {
    let mut one: WindowManager<u8> = WindowManager::new(1);
    let mut two: WindowManager<u8> = WindowManager::new(1);
    let a = vec![1u8; 10_000];
    let b = vec![2u8; 10_000];
    one.append_raw(Source::Mic, &a);
    one.append_raw(Source::Mic, &b);
    let mut all = a;
    all.extend(b);
    two.append_raw(Source::Mic, &all);
    assert_eq!(one.mic.raw, two.mic.raw);
    assert_eq!(one.mic.raw.len(), 16_000);
    one.clear();
    assert!(one.mic.raw.is_empty());
    assert_eq!(one.window_n, 0);
}

// ── Output ────────────────────────────────────────────────────────────────────

fn write(file: &mut String, n: u64, millis: u64, body: &str, mode: OutputMode) {
    let latency = std::time::Duration::from_millis(millis).as_secs_f32();
    match write_block(n, 3_661, &format!("{latency:.1}"), body, mode) {
        BlockWrite::Append(text) => file.push_str(&text),
        BlockWrite::Replace(text) => *file = text,
    }
}

#[test]
fn append_keeps_every_block() {
    let mut text = String::new();
    write(&mut text, 1, 900, "first", OutputMode::Append);
    write(&mut text, 2, 2_000, "second", OutputMode::Append);
    assert!(text.contains("## window 1"));
    assert!(text.contains("## window 2"));
    assert!(text.contains("first"));
    assert!(text.contains("second"));
    assert!(text.contains("(+0.9s)"));
}

#[test]
fn overwrite_keeps_only_latest() {
    let mut text = String::new();
    write(&mut text, 1, 0, "old", OutputMode::Overwrite);
    write(&mut text, 2, 0, "new", OutputMode::Overwrite);
    assert!(!text.contains("old"));
    assert!(text.contains("new"));
    assert!(text.contains("## window 2"));
}

#[test]
fn block_has_header_body_and_rule() {
    let mut text = String::new();
    write(&mut text, 12, 1_500, " say hi \n", OutputMode::Append);
    assert_eq!(
        text,
        "## window 12 — 01:01:01 UTC (+1.5s)\n\nsay hi\n\n---\n\n"
    );
}

#[test]
fn utc_hms_is_zero_padded_and_in_range() {
    let s = utc_hms(3661);
    assert_eq!(s, "01:01:01");
}

#[test]
fn utc_hms_wraps_at_midnight() {
    assert_eq!(utc_hms(86_399), "23:59:59");
    assert_eq!(utc_hms(86_400), "00:00:00");
    assert_eq!(utc_hms(u64::MAX), utc_hms(u64::MAX % 86_400));
}

// ── Daemon ────────────────────────────────────────────────────────────────────

fn daemon() -> Daemon<f32> {
    Daemon::new(&Config::default())
}

#[test]
fn commands_are_acknowledged() {
    let mut d = daemon();
    assert_eq!(d.handle(Command::Ping).ack, "pong");
    assert_eq!(d.handle(Command::Toggle).ack, "toggled");
    assert_eq!(d.handle(Command::Forward).ack, "forward");
    assert_eq!(d.handle(Command::Backward).ack, "backward");
    let stop = d.handle(Command::Stop);
    assert_eq!(stop.ack, "stopping");
    assert!(stop.stop);
    assert!(matches!(d.handle(Command::Toggle).event, Some(UiEvent::Toggle)));
    assert!(matches!(d.handle(Command::Forward).event, Some(UiEvent::Forward)));
    assert!(matches!(d.handle(Command::Backward).event, Some(UiEvent::Backward)));
    assert!(d.handle(Command::Ping).event.is_none());
}

#[test]
fn next_freezes_the_window() {
    let mut d = daemon();
    assert!(d.captured(Source::Mic, &[0.5]));
    assert!(d.heard(
        Source::Sys,
        Ok(Some(TranscriptEvent::Completed(" hi ".to_owned())))
    ));
    let r = d.handle(Command::Next);
    assert_eq!(r.ack, "queued window 1");
    assert!(!r.stop && !r.untrash);
    let w = r.window.unwrap();
    assert_eq!(w.n, 1);
    assert_eq!(w.mic_raw, vec![0.5]);
    assert_eq!(w.sys_text, "hi");
    assert_eq!(d.handle(Command::Next).ack, "queued window 2");
    assert_eq!(d.pipes(), vec![PipeKind::Live, PipeKind::Chunk]);
}

#[test]
fn trash_forgets_and_keeps_counting() {
    let mut d = daemon();
    d.handle(Command::Next);
    d.captured(Source::Sys, &[0.1, 0.2]);
    let r = d.handle(Command::Trash);
    assert_eq!(r.ack, "trashed");
    assert!(r.untrash);
    assert!(matches!(r.event, Some(UiEvent::Trashed)));
    assert!(d.windows.sys.raw.is_empty());
    assert_eq!(d.handle(Command::Next).ack, "queued window 2");
}

#[test]
fn pause_drops_audio_until_resumed() {
    let mut d = daemon();
    d.captured(Source::Mic, &[0.1]);
    let r = d.handle(Command::Pause);
    assert_eq!(r.ack, "paused");
    assert!(matches!(r.event, Some(UiEvent::Recording(false))));
    assert!(!d.captured(Source::Mic, &[0.2]));
    let r = d.handle(Command::Pause);
    assert_eq!(r.ack, "resumed");
    assert!(matches!(r.event, Some(UiEvent::Recording(true))));
    d.captured(Source::Mic, &[0.3]);
    assert_eq!(d.windows.mic.raw, vec![0.1, 0.3]);
}

#[test]
fn live_session_text_joins_the_window() {
    let mut d = daemon();
    assert!(d.heard(Source::Mic, Ok(Some(TranscriptEvent::Delta("x".to_owned())))));
    assert!(d.heard(Source::Mic, Ok(None)));
    assert_eq!(d.windows.mic.live_text, "");
    assert!(d.heard(
        Source::Mic,
        Ok(Some(TranscriptEvent::Completed("a".to_owned())))
    ));
    assert!(d.heard(
        Source::Mic,
        Ok(Some(TranscriptEvent::Completed("b".to_owned())))
    ));
    assert_eq!(d.windows.mic.live_text, "a b");
    assert!(!d.heard(Source::Mic, Err(RealtimeError::Closed)));
}

#[test]
fn only_the_live_pipe_forwards_audio() {
    let mut cfg = Config::default();
    cfg.pipe1.enabled = false;
    let mut d: Daemon<f32> = Daemon::new(&cfg);
    assert!(!d.captured(Source::Mic, &[0.1]));
    assert_eq!(d.windows.mic.raw, vec![0.1]);
    assert_eq!(d.pipes(), vec![PipeKind::Chunk]);
}

#[test]
fn commits_come_every_so_many_chunks() {
    let mut clock = CommitClock::new(3);
    let ticks: Vec<bool> = (0..7).map(|_| clock.tick()).collect();
    assert_eq!(ticks, vec![false, false, true, false, false, true, false]);
    let mut always = CommitClock::new(0);
    assert!(always.tick() && always.tick());
}

#[test]
fn pipes_report_their_stages() {
    assert!(matches!(
        started(PipeKind::Live),
        UiEvent::Status { stage: Some(Stage::Fetching) }
    ));
    assert!(matches!(
        started(PipeKind::Chunk),
        UiEvent::Status { stage: Some(Stage::Transcribing) }
    ));
    assert!(matches!(
        transcribed(),
        UiEvent::Status { stage: Some(Stage::Fetching) }
    ));
    let outcome = PipeOutcome {
        mic_text: String::new(),
        sys_text: String::new(),
        reply: "r".to_owned(),
    };
    assert!(matches!(finished(Ok(outcome)), UiEvent::Reply { text } if text == "r"));
    assert!(matches!(
        finished(Err(PipeError::Llm(LlmError::MissingKey))),
        UiEvent::Status { stage: None }
    ));
}

#[test]
fn devices_are_named_or_found() {
    let mut audio = Config::default().audio;
    assert!(need_discovery(&audio));
    let found = Some(Devices {
        mic_source: "m".to_owned(),
        system_monitor: "s".to_owned(),
    });
    let plans = capture_plans(&audio, &found);
    assert_eq!(plans.len(), 2);
    assert_eq!((plans[0].device.as_str(), plans[0].label), ("m", "telep-mic"));
    assert_eq!((plans[1].device.as_str(), plans[1].label), ("s", "telep-sys"));
    audio.mic_source = Some("named".to_owned());
    audio.system = false;
    assert!(!need_discovery(&audio));
    let plans = capture_plans(&audio, &None);
    assert_eq!(plans.len(), 1);
    assert_eq!(plans[0].device, "named");
    assert_eq!(plans[0].source, Source::Mic);
    assert_eq!(labels(&audio).system, "Them");
}

#[test]
fn keys_decide_the_backends() {
    assert!(matches!(
        openai_key(None),
        Err(DaemonError::Key(KeyError::Missing("OPENAI_API_KEY")))
    ));
    assert!(matches!(
        openai_key(Some(" ".to_owned())),
        Err(DaemonError::Key(KeyError::Empty("OPENAI_API_KEY")))
    ));
    let b = build_backend(LlmBackendKind::Openai, Some("k".to_owned()), None).unwrap();
    assert_eq!(b.name(), "openai");
    assert_eq!(b.chat("m", "s", &[]).url, "https://api.openai.com/v1/chat/completions");
    assert!(matches!(
        build_backend(LlmBackendKind::Openai, None, Some("a".to_owned())),
        Err(DaemonError::Key(KeyError::Missing("OPENAI_API_KEY")))
    ));
    assert!(matches!(
        build_backend(LlmBackendKind::Openai, Some("".to_owned()), None),
        Err(DaemonError::Llm(LlmError::MissingKey))
    ));
    assert!(matches!(
        build_backend(LlmBackendKind::Anthropic, Some("k".to_owned()), None),
        Err(DaemonError::Key(KeyError::Missing("ANTHROPIC_API_KEY")))
    ));
    assert!(matches!(
        build_backend(LlmBackendKind::Anthropic, None, Some("\t".to_owned())),
        Err(DaemonError::Key(KeyError::Empty("ANTHROPIC_API_KEY")))
    ));
    let b = build_backend(LlmBackendKind::Anthropic, None, Some("a".to_owned())).unwrap();
    assert_eq!(b.name(), "anthropic");
    assert_eq!(b.chat("m", "s", &[]).url, "https://api.anthropic.com/v1/messages");
}

#[test]
fn defaults_name_the_sides_and_the_looks() {
    let c = Config::default();
    assert_eq!((c.audio.mic_label.as_str(), c.audio.system_label.as_str()), ("Me", "Them"));
    assert!(c.audio.mic_source.is_none() && c.audio.system_source.is_none());
    assert_eq!(c.pipe1.stt_language.as_deref(), Some("en"));
    assert_eq!(c.pipe1.commit_every_chunks, 8);
    assert_eq!(c.pipe1.llm_backend, LlmBackendKind::Openai);
    assert_eq!(f32::from_bits(c.pipe1.font_size.bits), 19.0);
    assert_eq!(f32::from_bits(c.pipe1.pos_y.bits), 40.0);
    assert_eq!(f32::from_bits(c.pipe2.pos_y.bits), 460.0);
    assert_eq!(f32::from_bits(c.pipe2.width.bits), 600.0);
    assert_eq!(f32::from_bits(c.pipe2.height.bits), 400.0);
    assert_eq!(f32::from_bits(c.pipe2.opacity.bits), 1.0);
}

#[test]
fn loop_serves_until_the_first_stop() {
    let mut d = daemon();
    let reads = vec![
        Ok(None),
        Ok(Some(Command::Ping)),
        Err(IpcError::Json("bad".to_owned())),
        Ok(Some(Command::Next)),
        Ok(Some(Command::Pause)),
        Ok(Some(Command::Next)),
        Ok(Some(Command::Stop)),
        Ok(Some(Command::Ping)),
    ];
    let mut acks: Vec<Option<String>> = Vec::new();
    for read in reads {
        let served = d.received(read);
        let stop = served.as_ref().is_some_and(|r| r.stop);
        acks.push(served.map(|r| r.ack));
        if stop {
            break;
        }
    }
    let want = [
        None,
        Some("pong"),
        None,
        Some("queued window 1"),
        Some("paused"),
        Some("queued window 2"),
        Some("stopping"),
    ];
    assert_eq!(acks.len(), want.len());
    for (got, want) in acks.iter().zip(want) {
        assert_eq!(got.as_deref(), want);
    }
    let n = d.windows.window_n;
    assert!(d.received(Ok(None)).is_none());
    assert_eq!((d.windows.window_n, d.paused), (n, true));
}

#[test]
fn chunk_pipe_uploads_with_its_own_model() {
    let t = chunk_transcriber(&Config::default(), "k".to_owned()).unwrap();
    assert_eq!(t.config.model, "gpt-4o-transcribe");
    assert_eq!(t.config.language.as_deref(), Some("en"));
    assert_eq!(t.api_key, "k");
    assert!(matches!(
        chunk_transcriber(&Config::default(), " ".to_owned()),
        Err(DaemonError::Key(KeyError::Missing("OPENAI_API_KEY")))
    ));
}

#[test]
fn session_update_asks_for_pcm_at_24_khz() {
    let mut live = Config::default().pipe1;
    let message = build_session_update(&live);
    let want: serde_json::Value = serde_json::from_str(
        r#"{"type":"session.update","session":{"type":"transcription","audio":{"input":{
            "format":{"type":"audio/pcm","rate":24000},
            "transcription":{"model":"gpt-realtime-whisper","delay":"high","language":"en"}}}}}"#,
    )
    .unwrap();
    assert_eq!(message, want);
    live.stt_language = None;
    let input = build_session_update(&live);
    let transcription = &input["session"]["audio"]["input"]["transcription"];
    assert!(transcription.get("language").is_none());
    assert_eq!(transcription["model"], "gpt-realtime-whisper");
}

#[test]
fn files_hold_the_blocks_that_were_written() {
    for (mode, want) in [(OutputMode::Append, "old123"), (OutputMode::Overwrite, "3")] {
        let mut file = "old".to_owned();
        let mut blocks: Vec<String> = Vec::new();
        for n in 1..=3u64 {
            let text = match write_block(n, 0, "0.1", "body", mode) {
                BlockWrite::Append(text) => {
                    file.push_str(&text);
                    text
                }
                BlockWrite::Replace(text) => {
                    file = text.clone();
                    text
                }
            };
            assert_eq!(text, format!("## window {n} — 00:00:00 UTC (+0.1s)\n\nbody\n\n---\n\n"));
            blocks.push(text);
        }
        let expected: String = want
            .chars()
            .map(|c| match c.to_digit(10) {
                Some(n) => blocks[n as usize - 1].clone(),
                None => c.to_string(),
            })
            .collect();
        assert_eq!(file, expected);
    }
}
