//! The daemon: what it captures, what it runs, and how it answers commands.

use vstd::prelude::*;

use super::config::{AudioConfig, Config, Pipe1Config};
use super::ipc::{Command, IpcError};
use super::llm::anthropic::ANTHROPIC_ENDPOINT;
use super::llm::backend::{Backend, LlmBackendKind};
use super::llm::openai::OPENAI_ENDPOINT;
use super::llm::turn::LlmError;
use super::pipes::{Labels, PipeError, PipeOutcome};
use super::ui::{as_message, runs, Overlay, Stage, UiEvent};
use super::window::{capped, other, with_utterance, Source, Window, WindowManager, SAMPLE_RATE};
use crate::json::{field, no_members, number_value, object_value, put, string_value, tree, Json};
use crate::listener::capture::discover::Devices;
use crate::listener::error::ListenerError;
use crate::listener::transcribe::api::env::{
    require, KeyError, ANTHROPIC_API_KEY, OPENAI_API_KEY,
};
use crate::listener::transcribe::api::openai::{ApiConfig, ApiTranscriber};
use crate::listener::transcribe::api::realtime::{RealtimeError, TranscriptEvent};
use crate::text::{decimal, decimal_string, is_blank};

verus! {

/// URL of the live transcription.
pub const REALTIME_ENDPOINT: &'static str =
    "wss://api.openai.com/v1/realtime?intent=transcription";

/// Seconds for which the overlay shows that the conversation was forgotten.
pub const TRASH_FLASH_SECS: u64 = 3;

/// What ends the daemon.
#[derive(Debug, Clone)]
pub enum DaemonError {
    /// The control plane failed.
    Ipc(IpcError),
    /// The capture could not be set up.
    Capture(ListenerError),
    /// A key is missing.
    Key(KeyError),
    /// The live session could not be opened.
    Realtime(RealtimeError),
    /// The chat client could not be made.
    Llm(LlmError),
}

// ── Setup ─────────────────────────────────────────────────────────────────────

/// The key that both pipes transcribe with, `value` being what the environment holds.
pub fn openai_key(value: Option<String>) -> (key: Result<String, DaemonError>)
    ensures
        match value {
            None => key == Err::<String, DaemonError>(
                DaemonError::Key(KeyError::Missing(OPENAI_API_KEY)),
            ),
            Some(v) => if is_blank(v@) {
                key == Err::<String, DaemonError>(DaemonError::Key(KeyError::Empty(OPENAI_API_KEY)))
            } else {
                key == Ok::<String, DaemonError>(v)
            },
        },
{
    match require(OPENAI_API_KEY, value) {
        Ok(key) => Ok(key),
        Err(e) => Err(DaemonError::Key(e)),
    }
}

/// Whether the sound server has to be asked: a source is captured and its device is not named.
pub open spec fn asks_server(audio: AudioConfig) -> bool {
    (audio.mic && audio.mic_source is None) || (audio.system && audio.system_source is None)
}

/// Whether the sound server has to be asked.
pub fn need_discovery(audio: &AudioConfig) -> (needed: bool)
    ensures
        needed == asks_server(*audio),
{
    (audio.mic && audio.mic_source.is_none()) || (audio.system && audio.system_source.is_none())
}

/// What one source captures.
#[derive(Debug)]
pub struct CapturePlan {
    pub source: Source,
    pub device: String,
    pub label: &'static str,
}

/// The device of a source: the one that is named, else the one that was found.
pub open spec fn device_of(source: Source, audio: AudioConfig, found: Option<Devices>) -> Seq<
    char,
> {
    match source {
        Source::Mic => match audio.mic_source {
            Some(name) => name@,
            None => found->0.mic_source@,
        },
        Source::Sys => match audio.system_source {
            Some(name) => name@,
            None => found->0.system_monitor@,
        },
    }
}

/// The stream label of a source.
pub open spec fn label_of(source: Source) -> Seq<char> {
    match source {
        Source::Mic => "telep-mic"@,
        Source::Sys => "telep-sys"@,
    }
}

/// The sources that are captured, in order.
pub open spec fn sources(audio: AudioConfig) -> Seq<Source> {
    (if audio.mic {
        seq![Source::Mic]
    } else {
        Seq::empty()
    }) + (if audio.system {
        seq![Source::Sys]
    } else {
        Seq::empty()
    })
}

/// What is captured, and from which devices.
pub fn capture_plans(audio: &AudioConfig, found: &Option<Devices>) -> (plans: Vec<CapturePlan>)
    requires
        asks_server(*audio) ==> found is Some,
    ensures
        plans@.len() == sources(*audio).len(),
        forall|i: int|
            0 <= i < plans@.len() ==> {
                let plan = #[trigger] plans@[i];
                let source = sources(*audio)[i];
                &&& plan.source == source
                &&& plan.device@ == device_of(source, *audio, *found)
                &&& plan.label@ == label_of(source)
            },
{
    let mut plans: Vec<CapturePlan> = Vec::new();
    if audio.mic {
        let device = match (&audio.mic_source, found) {
            (Some(name), _) => name.clone(),
            (None, Some(devices)) => devices.mic_source.clone(),
            (None, None) => String::new(),
        };
        plans.push(CapturePlan { source: Source::Mic, device, label: "telep-mic" });
    }
    if audio.system {
        let device = match (&audio.system_source, found) {
            (Some(name), _) => name.clone(),
            (None, Some(devices)) => devices.system_monitor.clone(),
            (None, None) => String::new(),
        };
        plans.push(CapturePlan { source: Source::Sys, device, label: "telep-sys" });
    }
    plans
}

/// Whether `backend` is what a provider's key makes: a client, or the reason why not.
pub open spec fn backend_made(
    backend: Result<Backend, DaemonError>,
    kind: LlmBackendKind,
    key: Seq<char>,
) -> bool {
    if is_blank(key) {
        backend == Err::<Backend, DaemonError>(DaemonError::Llm(LlmError::MissingKey))
    } else {
        backend matches Ok(b) && b.kind() == kind && b.key() == key && b.url() == (match kind {
            LlmBackendKind::Openai => OPENAI_ENDPOINT@,
            LlmBackendKind::Anthropic => ANTHROPIC_ENDPOINT@,
        })
    }
}

/// Make a chat client. The OpenAI key is at hand; the other provider's is asked for only
/// where that provider is chosen.
pub fn build_backend(
    kind: LlmBackendKind,
    openai_key: Option<String>,
    anthropic_value: Option<String>,
) -> (backend: Result<Backend, DaemonError>)
    ensures
        match kind {
            LlmBackendKind::Openai => match openai_key {
                None => backend == Err::<Backend, DaemonError>(
                    DaemonError::Key(KeyError::Missing(OPENAI_API_KEY)),
                ),
                Some(key) => backend_made(backend, kind, key@),
            },
            LlmBackendKind::Anthropic => match anthropic_value {
                None => backend == Err::<Backend, DaemonError>(
                    DaemonError::Key(KeyError::Missing(ANTHROPIC_API_KEY)),
                ),
                Some(key) => if is_blank(key@) {
                    backend == Err::<Backend, DaemonError>(
                        DaemonError::Key(KeyError::Empty(ANTHROPIC_API_KEY)),
                    )
                } else {
                    backend_made(backend, kind, key@)
                },
            },
        },
{
    let key = match kind {
        LlmBackendKind::Openai => match openai_key {
            Some(key) => key,
            None => return Err(DaemonError::Key(KeyError::Missing(OPENAI_API_KEY))),
        },
        LlmBackendKind::Anthropic => match require(ANTHROPIC_API_KEY, anthropic_value) {
            Ok(key) => key,
            Err(e) => return Err(DaemonError::Key(e)),
        },
    };
    match Backend::new(kind, key) {
        Ok(backend) => Ok(backend),
        Err(e) => Err(DaemonError::Llm(e)),
    }
}

/// The labels of the two sides.
pub fn labels(audio: &AudioConfig) -> (labels: Labels)
    ensures
        labels.mic@ == audio.mic_label@,
        labels.system@ == audio.system_label@,
{
    Labels { mic: audio.mic_label.clone(), system: audio.system_label.clone() }
}

/// The uploader of the chunk pipe.
pub fn chunk_transcriber(config: &Config, openai_key: String) -> (made: Result<
    ApiTranscriber,
    DaemonError,
>)
    ensures
        is_blank(openai_key@) ==> made == Err::<ApiTranscriber, DaemonError>(
            DaemonError::Key(KeyError::Missing(OPENAI_API_KEY)),
        ),
        !is_blank(openai_key@) ==> {
            &&& made matches Ok(t)
            &&& t.api_key@ == openai_key@
            &&& t.config.model@ == config.pipe2.stt_model@
            &&& t.config.endpoint@ == "https://api.openai.com/v1/audio/transcriptions"@
            &&& match config.pipe2.stt_language {
                Some(language) => t.config.language matches Some(l) && l@ == language@,
                None => t.config.language is None,
            }
        },
{
    let language = match &config.pipe2.stt_language {
        Some(language) => Some(language.clone()),
        None => None,
    };
    let settings = ApiConfig {
        model: config.pipe2.stt_model.clone(),
        endpoint: ApiConfig::default().endpoint,
        language,
    };
    match ApiTranscriber::new(openai_key, settings) {
        Ok(transcriber) => Ok(transcriber),
        Err(_) => Err(DaemonError::Key(KeyError::Missing(OPENAI_API_KEY))),
    }
}

// ── Live session ──────────────────────────────────────────────────────────────

/// What is asked of the live transcription.
pub open spec fn transcription_json(live: Pipe1Config) -> Json {
    let always = Map::empty().insert("model"@, Json::Str(live.stt_model@)).insert(
        "delay"@,
        Json::Str("high"@),
    );
    match live.stt_language {
        Some(language) => Json::Obj(always.insert("language"@, Json::Str(language@))),
        None => Json::Obj(always),
    }
}

/// The first message of a live session.
pub open spec fn session_update(live: Pipe1Config) -> Json {
    let format = Json::Obj(
        Map::empty().insert("type"@, Json::Str("audio/pcm"@)).insert("rate"@, Json::Int(24_000)),
    );
    let input = Json::Obj(
        Map::empty().insert("format"@, format).insert("transcription"@, transcription_json(live)),
    );
    let audio = Json::Obj(Map::empty().insert("input"@, input));
    let session = Json::Obj(
        Map::empty().insert("type"@, Json::Str("transcription"@)).insert("audio"@, audio),
    );
    Json::Obj(
        Map::empty().insert("type"@, Json::Str("session.update"@)).insert("session"@, session),
    )
}

/// Build the first message of a live session: PCM at 24 kHz, commits by hand.
pub fn build_session_update(live: &Pipe1Config) -> (message: serde_json::Value)
    ensures
        tree(message) == session_update(*live),
{
    let mut transcription = no_members();
    put(&mut transcription, "model".to_owned(), string_value(live.stt_model.clone()));
    put(&mut transcription, "delay".to_owned(), string_value("high".to_owned()));
    match &live.stt_language {
        Some(language) => {
            put(&mut transcription, "language".to_owned(), string_value(language.clone()));
        },
        None => {},
    }
    let mut format = no_members();
    put(&mut format, "type".to_owned(), string_value("audio/pcm".to_owned()));
    put(&mut format, "rate".to_owned(), number_value(24_000));
    let mut input = no_members();
    put(&mut input, "format".to_owned(), object_value(format));
    put(&mut input, "transcription".to_owned(), object_value(transcription));
    let mut audio = no_members();
    put(&mut audio, "input".to_owned(), object_value(input));
    let mut session = no_members();
    put(&mut session, "type".to_owned(), string_value("transcription".to_owned()));
    put(&mut session, "audio".to_owned(), object_value(audio));
    let mut message = no_members();
    put(&mut message, "type".to_owned(), string_value("session.update".to_owned()));
    put(&mut message, "session".to_owned(), object_value(session));
    object_value(message)
}

/// Tells after which chunks the service is asked for a transcript.
#[derive(Debug, Clone, Copy)]
pub struct CommitClock {
    /// Chunks fed so far.
    pub fed: usize,
    /// Chunks between two commits.
    pub every: usize,
}

impl CommitClock {
    /// There is at least one chunk between two commits.
    pub open spec fn wf(self) -> bool {
        self.every >= 1
    }

    /// A clock that ticks every `chunks` chunks, and every chunk where that is 0.
    pub fn new(chunks: usize) -> (clock: CommitClock)
        ensures
            clock.wf(),
            clock.fed == 0,
            clock.every == (if chunks == 0 {
                1
            } else {
                chunks
            }),
    {
        CommitClock {
            fed: 0,
            every: if chunks == 0 {
                1
            } else {
                chunks
            },
        }
    }

    /// Count one chunk; a commit is due after every so many.
    pub fn tick(&mut self) -> (commit: bool)
        requires
            old(self).wf(),
            old(self).fed < usize::MAX,
        ensures
            final(self).wf(),
            final(self).every == old(self).every,
            final(self).fed == old(self).fed + 1,
            commit == (final(self).fed as int % final(self).every as int == 0),
    {
        self.fed = self.fed + 1;
        self.fed % self.every == 0
    }
}

// ── Running ───────────────────────────────────────────────────────────────────

/// A pipe that a trigger runs.
#[derive(Debug, Clone, Copy, PartialEq, Eq, Structural)]
pub enum PipeKind {
    Live,
    Chunk,
}

/// The running daemon.
#[derive(Debug)]
pub struct Daemon<T> {
    pub windows: WindowManager<T>,
    /// While paused, captured audio is dropped.
    pub paused: bool,
    /// Whether the live pipe runs.
    pub live: bool,
    /// Whether the chunk pipe runs.
    pub chunk: bool,
}

/// How a command is answered.
#[derive(Debug)]
pub struct Reaction<T> {
    /// The line that goes back.
    pub ack: String,
    /// What the overlay is told.
    pub event: Option<UiEvent>,
    /// The window to run the pipes on.
    pub window: Option<Window<T>>,
    /// Whether the overlay is told [`UiEvent::Untrash`] after [`TRASH_FLASH_SECS`].
    pub untrash: bool,
    /// Whether the daemon ends.
    pub stop: bool,
}

/// The line that goes back: `paused` is what held before, `n` the number of the window
/// that a trigger freezes.
pub open spec fn ack_of(command: Command, paused: bool, n: nat) -> Seq<char> {
    match command {
        Command::Ping => "pong"@,
        Command::Next => "queued window "@ + decimal(n),
        Command::Trash => "trashed"@,
        Command::Pause => if paused {
            "resumed"@
        } else {
            "paused"@
        },
        Command::Toggle => "toggled"@,
        Command::Forward => "forward"@,
        Command::Backward => "backward"@,
        Command::Stop => "stopping"@,
    }
}

/// What the overlay is told: `paused` is what held before.
pub open spec fn event_of(command: Command, paused: bool) -> Option<UiEvent> {
    match command {
        Command::Trash => Some(UiEvent::Trashed),
        Command::Pause => Some(UiEvent::Recording(paused)),
        Command::Toggle => Some(UiEvent::Toggle),
        Command::Forward => Some(UiEvent::Forward),
        Command::Backward => Some(UiEvent::Backward),
        Command::Ping | Command::Next | Command::Stop => None,
    }
}

/// Whether recording is paused after a command: `paused` is what held before.
pub open spec fn paused_after(command: Command, paused: bool) -> bool {
    if command is Pause {
        !paused
    } else {
        paused
    }
}

/// Whether a daemon that stood as `before` answers a command with `r` and stands as `after`.
pub open spec fn handled<T>(
    before: Daemon<T>,
    command: Command,
    after: Daemon<T>,
    r: Reaction<T>,
) -> bool {
    &&& after.windows.wf()
    &&& after.live == before.live
    &&& after.chunk == before.chunk
    &&& after.windows.max_samples == before.windows.max_samples
    &&& r.ack@ == ack_of(command, before.paused, (before.windows.window_n + 1) as nat)
    &&& r.event == event_of(command, before.paused)
    &&& r.untrash == (command is Trash)
    &&& r.stop == (command is Stop)
    &&& after.paused == paused_after(command, before.paused)
    &&& match command {
        Command::Next => {
            &&& r.window matches Some(w)
            &&& w.n == before.windows.window_n + 1
            &&& w.mic_raw@ == before.windows.mic.raw@
            &&& w.sys_raw@ == before.windows.sys.raw@
            &&& w.mic_text == before.windows.mic.live_text
            &&& w.sys_text == before.windows.sys.live_text
            &&& after.windows.mic.is_empty()
            &&& after.windows.sys.is_empty()
            &&& after.windows.window_n == before.windows.window_n + 1
        },
        Command::Trash => {
            &&& r.window is None
            &&& after.windows.mic.is_empty()
            &&& after.windows.sys.is_empty()
            &&& after.windows.window_n == before.windows.window_n
        },
        _ => r.window is None && after.windows == before.windows,
    }
}

/// The command that a connection carried; none where it was empty or malformed.
pub open spec fn carried(read: Result<Option<Command>, IpcError>) -> Option<Command> {
    match read {
        Ok(command) => command,
        Err(_) => None,
    }
}

// ── The control loop ──────────────────────────────────────────────────────────

/// What the control loop has come to.
#[verifier::ext_equal]
pub struct Serving {
    pub paused: bool,
    /// Windows frozen so far.
    pub windows: nat,
    pub stopped: bool,
    /// The line that went back on each connection, if one went.
    pub acks: Seq<Option<Seq<char>>>,
}

impl Serving {
    /// Before the first connection.
    pub open spec fn start() -> Serving {
        Serving { paused: false, windows: 0, stopped: false, acks: Seq::empty() }
    }

    /// After a connection that carried `command`. Once stopped, none is served.
    pub open spec fn after(self, command: Option<Command>) -> Serving {
        if self.stopped {
            self
        } else {
            match command {
                None => Serving { acks: self.acks.push(None), ..self },
                Some(c) => Serving {
                    paused: paused_after(c, self.paused),
                    windows: if c is Next {
                        self.windows + 1
                    } else {
                        self.windows
                    },
                    stopped: c is Stop,
                    acks: self.acks.push(Some(ack_of(c, self.paused, self.windows + 1))),
                },
            }
        }
    }

    /// After a list of connections.
    pub open spec fn after_all(self, commands: Seq<Option<Command>>) -> Serving
        decreases commands.len(),
    {
        if commands.len() == 0 {
            self
        } else {
            self.after_all(commands.drop_last()).after(commands.last())
        }
    }
}

/// How many triggers a list of connections carried.
pub open spec fn triggers(commands: Seq<Option<Command>>) -> nat
    decreases commands.len(),
{
    if commands.len() == 0 {
        0
    } else if commands.last() == Some(Command::Next) {
        triggers(commands.drop_last()) + 1
    } else {
        triggers(commands.drop_last())
    }
}

fn reaction<T>(ack: &str, event: Option<UiEvent>) -> (r: Reaction<T>)
    ensures
        r.ack@ == ack@,
        r.event == event,
        r.window is None,
        !r.untrash,
        !r.stop,
{
    Reaction { ack: ack.to_owned(), event, window: None, untrash: false, stop: false }
}

impl<T> Daemon<T> {
    /// Whether the daemon stands where the control loop has come to.
    pub open spec fn stands(self, serving: Serving) -> bool {
        self.paused == serving.paused && self.windows.window_n == serving.windows
    }
}

impl<T: Copy> Daemon<T> {
    /// A daemon that has heard nothing.
    pub fn new(config: &Config) -> (daemon: Daemon<T>)
        requires
            config.audio.max_window_secs * SAMPLE_RATE <= usize::MAX,
        ensures
            daemon.windows.wf(),
            daemon.windows.mic.is_empty(),
            daemon.windows.sys.is_empty(),
            daemon.windows.window_n == 0,
            daemon.windows.max_samples == config.audio.max_window_secs * SAMPLE_RATE,
            !daemon.paused,
            daemon.live == config.pipe1.enabled,
            daemon.chunk == config.pipe2.enabled,
            daemon.stands(Serving::start()),
    {
        Daemon {
            windows: WindowManager::new(config.audio.max_window_secs),
            paused: false,
            live: config.pipe1.enabled,
            chunk: config.pipe2.enabled,
        }
    }

    /// Answer a command.
    pub fn handle(&mut self, command: Command) -> (r: Reaction<T>)
        requires
            old(self).windows.wf(),
            command is Next ==> old(self).windows.window_n < u64::MAX,
        ensures
            handled(*old(self), command, *final(self), r),
    {
        match command {
            Command::Ping => reaction("pong", None),
            Command::Next => {
                let window = self.windows.snapshot_and_reset();
                let mut ack = "queued window ".to_owned();
                ack.append(decimal_string(window.n).as_str());
                Reaction { ack, event: None, window: Some(window), untrash: false, stop: false }
            },
            Command::Trash => {
                self.windows.clear();
                let mut r = reaction("trashed", Some(UiEvent::Trashed));
                r.untrash = true;
                r
            },
            Command::Pause => {
                let was_paused: bool = self.paused;
                self.paused = !was_paused;
                let ack = if was_paused {
                    "resumed"
                } else {
                    "paused"
                };
                reaction(ack, Some(UiEvent::Recording(was_paused)))
            },
            Command::Toggle => reaction("toggled", Some(UiEvent::Toggle)),
            Command::Forward => reaction("forward", Some(UiEvent::Forward)),
            Command::Backward => reaction("backward", Some(UiEvent::Backward)),
            Command::Stop => {
                let mut r = reaction("stopping", None);
                r.stop = true;
                r
            },
        }
    }

    /// Serve one connection, `read` being what it carried. One that was empty or malformed
    /// gets no answer and changes nothing.
    pub fn received(&mut self, read: Result<Option<Command>, IpcError>) -> (r: Option<Reaction<T>>)
        requires
            old(self).windows.wf(),
            carried(read) == Some(Command::Next) ==> old(self).windows.window_n < u64::MAX,
        ensures
            final(self).windows.wf(),
            match carried(read) {
                None => r is None && *final(self) == *old(self),
                Some(command) => r matches Some(x) && handled(
                    *old(self),
                    command,
                    *final(self),
                    x,
                ),
            },
            forall|serving: Serving|
                #![trigger serving.after(carried(read))]
                !serving.stopped && old(self).stands(serving) ==> {
                    let next = serving.after(carried(read));
                    &&& final(self).stands(next)
                    &&& next.acks == serving.acks.push(
                        match r {
                            Some(x) => Some(x.ack@),
                            None => None,
                        },
                    )
                    &&& next.stopped == (r matches Some(x) && x.stop)
                },
    {
        match read {
            Ok(Some(command)) => Some(self.handle(command)),
            Ok(None) => None,
            Err(_) => None,
        }
    }

    /// The pipes that a window runs through.
    pub fn pipes(&self) -> (pipes: Vec<PipeKind>)
        ensures
            pipes@ == (if self.live {
                seq![PipeKind::Live]
            } else {
                Seq::empty()
            }) + (if self.chunk {
                seq![PipeKind::Chunk]
            } else {
                Seq::empty()
            }),
    {
        let mut pipes: Vec<PipeKind> = Vec::new();
        if self.live {
            pipes.push(PipeKind::Live);
        }
        if self.chunk {
            pipes.push(PipeKind::Chunk);
        }
        assert(pipes@ =~= (if self.live {
            seq![PipeKind::Live]
        } else {
            Seq::empty()
        }) + (if self.chunk {
            seq![PipeKind::Chunk]
        } else {
            Seq::empty()
        }));
        pipes
    }

    /// Take a captured chunk, unless paused; it goes on to the live session where there is one.
    pub fn captured(&mut self, source: Source, chunk: &[T]) -> (forward: bool)
        requires
            old(self).windows.wf(),
        ensures
            final(self).windows.wf(),
            final(self).paused == old(self).paused,
            final(self).live == old(self).live,
            final(self).chunk == old(self).chunk,
            forward == (!old(self).paused && old(self).live),
            old(self).paused ==> final(self).windows == old(self).windows,
            !old(self).paused ==> {
                &&& final(self).windows.buffer(source).raw@ == capped(
                    old(self).windows.buffer(source).raw@ + chunk@,
                    old(self).windows.max_samples as int,
                )
                &&& final(self).windows.buffer(source).live_text == old(self).windows.buffer(
                    source,
                ).live_text
                &&& final(self).windows.buffer(other(source)) == old(self).windows.buffer(
                    other(source),
                )
                &&& final(self).windows.window_n == old(self).windows.window_n
                &&& final(self).windows.max_samples == old(self).windows.max_samples
            },
    {
        if self.paused {
            return false;
        }
        self.windows.append_raw(source, chunk);
        self.live
    }

    /// Take what the live session gave: a whole utterance joins the window's text. Tells
    /// whether the session goes on.
    pub fn heard(
        &mut self,
        source: Source,
        event: Result<Option<TranscriptEvent>, RealtimeError>,
    ) -> (goes_on: bool)
        requires
            old(self).windows.wf(),
        ensures
            final(self).windows.wf(),
            final(self).paused == old(self).paused,
            final(self).live == old(self).live,
            final(self).chunk == old(self).chunk,
            goes_on == (event is Ok),
            match event {
                Ok(Some(TranscriptEvent::Completed(text))) => {
                    &&& final(self).windows.buffer(source).live_text@ == with_utterance(
                        old(self).windows.buffer(source).live_text@,
                        text@,
                    )
                    &&& final(self).windows.buffer(source).raw == old(self).windows.buffer(
                        source,
                    ).raw
                    &&& final(self).windows.buffer(other(source)) == old(self).windows.buffer(
                        other(source),
                    )
                    &&& final(self).windows.window_n == old(self).windows.window_n
                    &&& final(self).windows.max_samples == old(self).windows.max_samples
                },
                _ => final(self).windows == old(self).windows,
            },
    {
        match event {
            Ok(Some(TranscriptEvent::Completed(text))) => {
                self.windows.append_text(source, text.as_str());
                true
            },
            Ok(_) => true,
            Err(_) => false,
        }
    }
}

/// What the overlay is told when a pipe starts on a window.
pub fn started(kind: PipeKind) -> (event: UiEvent)
    ensures
        event == (UiEvent::Status {
            stage: Some(
                match kind {
                    PipeKind::Live => Stage::Fetching,
                    PipeKind::Chunk => Stage::Transcribing,
                },
            ),
        }),
{
    match kind {
        PipeKind::Live => UiEvent::Status { stage: Some(Stage::Fetching) },
        PipeKind::Chunk => UiEvent::Status { stage: Some(Stage::Transcribing) },
    }
}

/// What the overlay is told when the chunk pipe has its transcript.
pub fn transcribed() -> (event: UiEvent)
    ensures
        event == (UiEvent::Status { stage: Some(Stage::Fetching) }),
{
    UiEvent::Status { stage: Some(Stage::Fetching) }
}

/// What the overlay is told when a pipe is done: the suggestion, or that there is none.
pub open spec fn done_event(outcome: Result<PipeOutcome, PipeError>) -> UiEvent {
    match outcome {
        Ok(o) => UiEvent::Reply { text: o.reply },
        Err(_) => UiEvent::Status { stage: None },
    }
}

/// What the overlay is told when a pipe is done.
pub fn finished(outcome: Result<PipeOutcome, PipeError>) -> (event: UiEvent)
    ensures
        event == done_event(outcome),
{
    match outcome {
        Ok(o) => UiEvent::Reply { text: o.reply },
        Err(_) => UiEvent::Status { stage: None },
    }
}

// ── Laws ──────────────────────────────────────────────────────────────────────

/// Pausing twice is not pausing at all, and each time the overlay is told whether
/// recording goes on.
pub proof fn law_pause_twice_is_nothing(paused: bool)
    ensures
        paused_after(Command::Pause, paused_after(Command::Pause, paused)) == paused,
        event_of(Command::Pause, paused) == Some(
            UiEvent::Recording(!paused_after(Command::Pause, paused)),
        ),
{
}

/// Only pausing changes whether audio is taken.
pub proof fn law_only_pause_pauses(command: Command, paused: bool)
    requires
        command !is Pause,
    ensures
        paused_after(command, paused) == paused,
{
}

/// The control loop serves every connection up to the first stop, and ends there and not
/// before. An empty or malformed connection gets no answer; a ping is answered `pong`, a
/// stop `stopping`, and the k-th trigger `queued window k`.
pub proof fn law_loop_serves_until_stop(commands: Seq<Option<Command>>)
    ensures
        ({
            let end = Serving::start().after_all(commands);
            &&& end.stopped <==> commands.contains(Some(Command::Stop))
            &&& end.acks.len() <= commands.len()
            &&& !end.stopped ==> end.acks.len() == commands.len()
            &&& end.stopped ==> end.acks.len() > 0 && commands[end.acks.len() - 1] == Some(
                Command::Stop,
            )
            &&& forall|i: int|
                0 <= i < end.acks.len() ==> {
                    let ack = #[trigger] end.acks[i];
                    match commands[i] {
                        None => ack is None,
                        Some(Command::Ping) => ack == Some("pong"@),
                        Some(Command::Next) => ack == Some(
                            "queued window "@ + decimal(triggers(commands.take(i + 1))),
                        ),
                        Some(Command::Stop) => ack == Some("stopping"@) && i == end.acks.len() - 1,
                        Some(_) => ack is Some,
                    }
                }
        }),
    decreases commands.len(),
{
    let end = Serving::start().after_all(commands);
    if commands.len() > 0 {
        let most = commands.drop_last();
        let last = commands.last();
        let before = Serving::start().after_all(most);
        law_loop_serves_until_stop(most);
        lemma_windows_are_triggers(most);
        if before.stopped {
            let j = choose|j: int| 0 <= j < most.len() && most[j] == Some(Command::Stop);
            assert(commands[j] == Some(Command::Stop));
        } else {
            if last == Some(Command::Stop) {
                assert(commands[most.len() as int] == Some(Command::Stop));
            }
            if commands.contains(Some(Command::Stop)) && last != Some(Command::Stop) {
                let j = choose|j: int| 0 <= j < commands.len() && commands[j] == Some(Command::Stop);
                assert(most[j] == Some(Command::Stop));
            }
        }
        assert forall|i: int| 0 <= i < end.acks.len() implies {
            let ack = #[trigger] end.acks[i];
            match commands[i] {
                None => ack is None,
                Some(Command::Ping) => ack == Some("pong"@),
                Some(Command::Next) => ack == Some(
                    "queued window "@ + decimal(triggers(commands.take(i + 1))),
                ),
                Some(Command::Stop) => ack == Some("stopping"@) && i == end.acks.len() - 1,
                Some(_) => ack is Some,
            }
        } by {
            if i < before.acks.len() {
                assert(end.acks[i] == before.acks[i]);
                assert(most[i] == commands[i]);
                assert(most.take(i + 1) =~= commands.take(i + 1));
                if commands[i] == Some(Command::Stop) && !before.stopped {
                    assert(most.contains(Some(Command::Stop)));
                }
            } else {
                assert(commands.take(i + 1) =~= commands);
            }
        }
    }
}

proof fn lemma_windows_are_triggers(commands: Seq<Option<Command>>)
    ensures
        ({
            let end = Serving::start().after_all(commands);
            !end.stopped ==> end.windows == triggers(commands)
        }),
    decreases commands.len(),
{
    if commands.len() > 0 {
        lemma_windows_are_triggers(commands.drop_last());
    }
}

/// When a pipe is done, the overlay shows no stage any more: after a reply the reply and
/// the header of before, after a failure the suggestion of before.
pub proof fn law_done_pipe_clears_stage(
    overlay: Overlay,
    outcome: Result<PipeOutcome, PipeError>,
)
    requires
        overlay.in_range(),
    ensures
        ({
            let after = overlay.after(as_message(done_event(outcome)));
            &&& after.stage is None
            &&& !overlay.trashed ==> after.title() == (if overlay.recording {
                "Listening…"@
            } else {
                "Paused"@
            })
            &&& match outcome {
                Ok(o) => after.shown() == runs(o.reply@),
                Err(_) => after.shown() == overlay.shown(),
            }
        }),
{
}

/// Among so many chunks in a row exactly one is followed by a commit.
pub proof fn law_one_commit_per_round(fed: int, every: int)
    requires
        fed >= 0,
        every >= 1,
    ensures
        exists|k: int| 1 <= k <= every && #[trigger] commits_at(fed + k, every),
        forall|j: int, k: int|
            1 <= j <= every && 1 <= k <= every && #[trigger] commits_at(fed + j, every)
                && #[trigger] commits_at(fed + k, every) ==> j == k,
{
    let r = fed % every;
    let k = every - r;
    vstd::arithmetic::div_mod::lemma_fundamental_div_mod(fed, every);
    vstd::arithmetic::div_mod::lemma_mod_bound(fed, every);
    let q = fed / every;
    assert(fed + k == every * (q + 1)) by (nonlinear_arith)
        requires
            fed == every * q + r,
            k == every - r,
    ;
    vstd::arithmetic::div_mod::lemma_mod_multiples_basic(q + 1, every);
    assert(commits_at(fed + k, every)) by (nonlinear_arith)
        requires
            fed + k == every * (q + 1),
            ((q + 1) * every) % every == 0,
    ;
    assert forall|i: int, j: int|
        1 <= i <= every && 1 <= j <= every && #[trigger] commits_at(fed + i, every)
            && #[trigger] commits_at(fed + j, every) implies i == j by {
        if i < j {
            lemma_no_two_multiples(fed + i, fed + j, every);
        }
        if j < i {
            lemma_no_two_multiples(fed + j, fed + i, every);
        }
    }
}

/// Whether the chunk with this number is followed by a commit.
pub open spec fn commits_at(fed: int, every: int) -> bool {
    fed % every == 0
}

proof fn lemma_no_two_multiples(a: int, b: int, d: int)
    requires
        d >= 1,
        a % d == 0,
        b % d == 0,
        a < b,
    ensures
        b - a >= d,
{
    vstd::arithmetic::div_mod::lemma_fundamental_div_mod(a, d);
    vstd::arithmetic::div_mod::lemma_fundamental_div_mod(b, d);
    let p = a / d;
    let q = b / d;
    assert(q - p >= 1) by (nonlinear_arith)
        requires
            a == d * p,
            b == d * q,
            a < b,
            d >= 1,
    ;
    assert(b - a >= d) by (nonlinear_arith)
        requires
            a == d * p,
            b == d * q,
            q - p >= 1,
            d >= 1,
    ;
}

/// Every command is answered by its own line; that of pausing tells what holds afterwards.
pub proof fn law_commands_have_their_answers(command: Command, paused: bool, n: nat)
    ensures
        command is Ping ==> ack_of(command, paused, n) == "pong"@,
        command is Next ==> ack_of(command, paused, n) == "queued window "@ + decimal(n),
        command is Trash ==> ack_of(command, paused, n) == "trashed"@,
        command is Pause && paused_after(command, paused) ==> ack_of(command, paused, n)
            == "paused"@,
        command is Pause && !paused_after(command, paused) ==> ack_of(command, paused, n)
            == "resumed"@,
        command is Toggle ==> ack_of(command, paused, n) == "toggled"@,
        command is Forward ==> ack_of(command, paused, n) == "forward"@,
        command is Backward ==> ack_of(command, paused, n) == "backward"@,
        command is Stop ==> ack_of(command, paused, n) == "stopping"@,
{
}

/// What a command does to the overlay: forgetting flashes, toggling shows or hides, stepping
/// steps, pausing keeps it in step with the recording. The other commands tell it nothing.
pub proof fn law_commands_reach_the_overlay(overlay: Overlay, command: Command, paused: bool)
    requires
        overlay.in_range(),
        overlay.recording == !paused,
    ensures
        ({
            let told = event_of(command, paused);
            let after = overlay.after(as_message(told->0));
            &&& told is None <==> command is Ping || command is Next || command is Stop
            &&& command is Trash ==> after == (Overlay { trashed: true, ..overlay })
            &&& command is Pause ==> after == (Overlay { recording: paused, ..overlay })
            &&& command is Toggle ==> after == (Overlay { visible: !overlay.visible, ..overlay })
            &&& command is Forward ==> after == (Overlay {
                idx: if overlay.idx < overlay.history.len() - 1 {
                    overlay.idx + 1
                } else {
                    overlay.idx
                },
                ..overlay
            })
            &&& command is Backward ==> after == (Overlay {
                idx: if overlay.idx > 0 {
                    overlay.idx - 1
                } else {
                    overlay.idx
                },
                ..overlay
            })
            &&& told is Some ==> after.recording == !paused_after(command, paused)
        }),
{
}

/// What a command does to the windows. A trigger hands out all that was gathered, under the
/// next number, and starts over; forgetting starts over and hands out nothing; no other
/// command touches anything that was gathered.
pub proof fn law_commands_and_windows<T>(
    before: Daemon<T>,
    command: Command,
    after: Daemon<T>,
    r: Reaction<T>,
)
    requires
        handled(before, command, after, r),
    ensures
        r.window is Some <==> command is Next,
        command is Next ==> {
            let w = r.window->0;
            &&& w.n == before.windows.window_n + 1
            &&& w.mic_raw@ == before.windows.mic.raw@ && w.sys_raw@ == before.windows.sys.raw@
            &&& w.mic_text@ == before.windows.mic.live_text@
            &&& w.sys_text@ == before.windows.sys.live_text@
        },
        command is Next || command is Trash ==> {
            &&& after.windows.mic.raw@.len() == 0 && after.windows.mic.live_text@.len() == 0
            &&& after.windows.sys.raw@.len() == 0 && after.windows.sys.live_text@.len() == 0
        },
        !(command is Next || command is Trash) ==> after.windows == before.windows,
        after.windows.window_n == before.windows.window_n + (if command is Next {
            1int
        } else {
            0
        }),
        after.windows.max_samples == before.windows.max_samples,
{
}

/// What else a command does: it is answered, the overlay is told, and only its own command
/// ends the daemon, flashes, or pauses and resumes.
pub proof fn law_commands_do_nothing_else<T>(
    before: Daemon<T>,
    command: Command,
    after: Daemon<T>,
    r: Reaction<T>,
)
    requires
        handled(before, command, after, r),
    ensures
        r.ack@ == ack_of(command, before.paused, (before.windows.window_n + 1) as nat),
        r.event == event_of(command, before.paused),
        r.stop <==> command is Stop,
        r.untrash <==> command is Trash,
        after.paused <==> before.paused != (command is Pause),
        after.live == before.live && after.chunk == before.chunk,
{
}

/// Only a connection that carried a command has one.
pub proof fn law_carried_commands(read: Result<Option<Command>, IpcError>, command: Command)
    ensures
        carried(read) == Some(command) <==> (read matches Ok(Some(c)) && c == command),
{
}

/// Triggers are counted one by one.
pub proof fn law_triggers_are_counted(commands: Seq<Option<Command>>)
    ensures
        triggers(commands) == commands.filter(|c: Option<Command>| c == Some(Command::Next)).len(),
    decreases commands.len(),
{
    reveal(Seq::filter);
    if commands.len() > 0 {
        law_triggers_are_counted(commands.drop_last());
    }
}

/// After any connections up to a stop, recording is paused exactly if it was paused and resumed
/// an odd number of times.
pub proof fn law_pauses_alternate(commands: Seq<Option<Command>>)
    requires
        !commands.contains(Some(Command::Stop)),
    ensures
        ({
            let end = Serving::start().after_all(commands);
            let pauses = commands.filter(|c: Option<Command>| c == Some(Command::Pause)).len();
            &&& !end.stopped
            &&& end.paused <==> pauses % 2 == 1
            &&& end.windows == triggers(commands)
        }),
    decreases commands.len(),
{
    reveal(Seq::filter);
    if commands.len() > 0 {
        let most = commands.drop_last();
        assert(!most.contains(Some(Command::Stop))) by {
            if most.contains(Some(Command::Stop)) {
                let j = choose|j: int| 0 <= j < most.len() && most[j] == Some(Command::Stop);
                assert(commands[j] == Some(Command::Stop));
            }
        }
        assert(commands[most.len() as int] != Some(Command::Stop));
        law_pauses_alternate(most);
    }
}

/// The sources that are captured are those that are switched on, the microphone first, each
/// from the device that is named for it, else from the one that was found. The server is
/// asked exactly if some captured source has no device named.
pub proof fn law_sources_and_devices(audio: AudioConfig, found: Devices)
    ensures
        sources(audio).contains(Source::Mic) <==> audio.mic,
        sources(audio).contains(Source::Sys) <==> audio.system,
        sources(audio).len() == (if audio.mic && audio.system {
            2int
        } else if audio.mic || audio.system {
            1
        } else {
            0
        }),
        audio.mic ==> sources(audio)[0] == Source::Mic,
        audio.mic_source is Some ==> device_of(Source::Mic, audio, Some(found))
            == audio.mic_source->0@,
        audio.mic_source is None ==> device_of(Source::Mic, audio, Some(found))
            == found.mic_source@,
        audio.system_source is Some ==> device_of(Source::Sys, audio, Some(found))
            == audio.system_source->0@,
        audio.system_source is None ==> device_of(Source::Sys, audio, Some(found))
            == found.system_monitor@,
        audio.mic_source is Some ==> device_of(Source::Mic, audio, None) == audio.mic_source->0@,
        audio.system_source is Some ==> device_of(Source::Sys, audio, None)
            == audio.system_source->0@,
        asks_server(audio) <==> {
            ||| sources(audio).contains(Source::Mic) && audio.mic_source is None
            ||| sources(audio).contains(Source::Sys) && audio.system_source is None
        },
        label_of(Source::Mic) == "telep-mic"@,
        label_of(Source::Sys) == "telep-sys"@,
{
    let all = sources(audio);
    if audio.mic {
        assert(all[0] == Source::Mic);
    }
    if audio.system {
        assert(all[all.len() - 1] == Source::Sys);
    }
}

/// A key that is not blank makes a client of its provider, at the provider's URL; a blank one
/// makes none.
pub proof fn law_keys_make_backends(
    backend: Result<Backend, DaemonError>,
    kind: LlmBackendKind,
    key: Seq<char>,
)
    requires
        backend_made(backend, kind, key),
    ensures
        is_blank(key) ==> backend == Err::<Backend, DaemonError>(
            DaemonError::Llm(LlmError::MissingKey),
        ),
        !is_blank(key) && kind is Openai ==> (backend matches Ok(Backend::OpenAi(c)) && c.api_key@
            == key && c.endpoint@ == "https://api.openai.com/v1/chat/completions"@),
        !is_blank(key) && kind is Anthropic ==> (backend matches Ok(Backend::Anthropic(c))
            && c.api_key@ == key && c.endpoint@ == "https://api.anthropic.com/v1/messages"@),
{
}

/// A live session is opened for transcription of PCM at 24 kHz by the configured model, in the
/// configured language if there is one.
pub proof fn law_session_is_opened_as_configured(live: Pipe1Config)
    ensures
        ({
            let message = session_update(live);
            let session = field(message, "session"@);
            let audio = field(session->0, "audio"@);
            let input = field(audio->0, "input"@);
            let format = field(input->0, "format"@);
            let asked = field(input->0, "transcription"@);
            &&& field(message, "type"@) == Some(Json::Str("session.update"@))
            &&& session is Some && audio is Some && input is Some
            &&& field(session->0, "type"@) == Some(Json::Str("transcription"@))
            &&& format is Some && asked is Some
            &&& field(format->0, "type"@) == Some(Json::Str("audio/pcm"@))
            &&& field(format->0, "rate"@) == Some(Json::Int(24_000))
            &&& field(asked->0, "model"@) == Some(Json::Str(live.stt_model@))
            &&& field(asked->0, "delay"@) == Some(Json::Str("high"@))
            &&& live.stt_language is Some ==> field(asked->0, "language"@) == Some(
                Json::Str(live.stt_language->0@),
            )
            &&& live.stt_language is None ==> field(asked->0, "language"@) is None
        }),
{
    reveal_strlit("type");
    reveal_strlit("session");
    reveal_strlit("audio");
    reveal_strlit("input");
    reveal_strlit("format");
    reveal_strlit("transcription");
    reveal_strlit("rate");
    reveal_strlit("model");
    reveal_strlit("delay");
    reveal_strlit("language");
    assert("type"@.len() == 4 && "session"@.len() == 7 && "audio"@.len() == 5);
    assert("format"@.len() == 6 && "transcription"@.len() == 13 && "language"@.len() == 8);
    assert("type"@[0] != "rate"@[0]);
    assert("model"@.len() == 5 && "model"@[0] != "delay"@[0]);
}

/// The first message of a live session holds nothing but what it has to.
pub proof fn law_session_message_holds_nothing_else(live: Pipe1Config)
    ensures
        ({
            let message = session_update(live);
            let session = field(message, "session"@)->0;
            let audio = field(session, "audio"@)->0;
            let input = field(audio, "input"@)->0;
            let format = field(input, "format"@)->0;
            let asked = field(input, "transcription"@)->0;
            &&& message matches Json::Obj(m) && m.dom() =~= set!["type"@, "session"@]
            &&& session matches Json::Obj(m) && m.dom() =~= set!["type"@, "audio"@]
            &&& audio matches Json::Obj(m) && m.dom() =~= set!["input"@]
            &&& input matches Json::Obj(m) && m.dom() =~= set!["format"@, "transcription"@]
            &&& format matches Json::Obj(m) && m.dom() =~= set!["type"@, "rate"@]
            &&& asked matches Json::Obj(m) && m.dom() =~= (if live.stt_language is Some {
                set!["model"@, "delay"@, "language"@]
            } else {
                set!["model"@, "delay"@]
            })
        }),
{
    law_session_is_opened_as_configured(live);
    reveal_strlit("format");
    reveal_strlit("transcription");
    assert("format"@.len() == 6 && "transcription"@.len() == 13);
}

/// Where the live session is opened, how long forgetting is shown, and the names of the keys.
pub proof fn law_fixed_settings()
    ensures
        REALTIME_ENDPOINT@ == "wss://api.openai.com/v1/realtime?intent=transcription"@,
        TRASH_FLASH_SECS == 3,
        OPENAI_API_KEY@ == "OPENAI_API_KEY"@,
        ANTHROPIC_API_KEY@ == "ANTHROPIC_API_KEY"@,
        SAMPLE_RATE == 16_000,
{
}

} // verus!
