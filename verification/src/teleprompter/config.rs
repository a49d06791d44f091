//! Configuration of the teleprompter, and what makes one invalid.

use vstd::prelude::*;
use vstd::utf8::encode_utf8;

use super::llm::backend::LlmBackendKind;
use crate::paths::{under, FilePath};
use crate::single::{law_whole_numbers, lemma_default_sizes, one, Meaning, Single};
use crate::text::{
    blank, is_blank, is_white, law_trimming_the_back_finds_the_core, trim_end_of, trimmed_end,
    CharClass,
};

verus! {

/// A configuration that cannot be used.
#[derive(Debug, Clone)]
pub enum ConfigError {
    /// A file could not be read.
    Read { path: FilePath, source: String },
    /// The file has not the right form.
    Parse { path: FilePath, source: String },
    /// The values make no sense.
    Invalid(String),
}

/// How output files are written.
#[derive(Debug, Clone, Copy, PartialEq, Eq, Structural)]
pub enum OutputMode {
    /// Every block behind the others.
    Append,
    /// Only the latest block.
    Overwrite,
}

/// Where and how output files are written.
#[derive(Debug, Clone)]
pub struct OutputConfig {
    pub dir: FilePath,
    pub mode: OutputMode,
}

/// The files that the system prompt is made of.
#[derive(Debug, Clone)]
pub struct PromptsConfig {
    /// How to respond.
    pub prompt: FilePath,
    /// What to know.
    pub context: FilePath,
}

/// What is captured.
#[derive(Debug, Clone)]
pub struct AudioConfig {
    pub mic: bool,
    pub system: bool,
    /// Name of the operator's side in the transcript.
    pub mic_label: String,
    /// Name of the other side in the transcript.
    pub system_label: String,
    /// Longest window kept, in seconds.
    pub max_window_secs: u64,
    /// Device of the microphone; the default one where none is named.
    pub mic_source: Option<String>,
    /// Device of the system monitor; the default one where none is named.
    pub system_source: Option<String>,
}

/// Pipe 1: live transcript to the model.
#[derive(Debug, Clone)]
pub struct Pipe1Config {
    pub enabled: bool,
    pub stt_model: String,
    pub stt_language: Option<String>,
    /// Chunks between two commits of the audio buffer.
    pub commit_every_chunks: usize,
    pub llm_backend: LlmBackendKind,
    pub llm_model: String,
    pub font_size: Single,
    pub opacity: Single,
    pub bg_opacity: Option<Single>,
    pub text_opacity: Option<Single>,
    pub width: Single,
    pub height: Single,
    pub pos_x: Single,
    pub pos_y: Single,
}

/// Pipe 2: the window transcribed anew, then to the model.
#[derive(Debug, Clone)]
pub struct Pipe2Config {
    pub enabled: bool,
    pub stt_model: String,
    pub stt_language: Option<String>,
    pub llm_backend: LlmBackendKind,
    pub llm_model: String,
    pub font_size: Single,
    pub opacity: Single,
    pub bg_opacity: Option<Single>,
    pub text_opacity: Option<Single>,
    pub width: Single,
    pub height: Single,
    pub pos_x: Single,
    pub pos_y: Single,
}

/// Pipe 3: the audio itself to the model.
#[derive(Debug, Clone)]
pub struct Pipe3Config {
    pub enabled: bool,
    pub llm_backend: LlmBackendKind,
    pub llm_model: String,
}

/// The whole configuration.
#[derive(Debug, Clone)]
pub struct Config {
    pub output: OutputConfig,
    pub prompts: PromptsConfig,
    pub audio: AudioConfig,
    pub pipe1: Pipe1Config,
    pub pipe2: Pipe2Config,
    pub pipe3: Pipe3Config,
}

// ── Defaults ──────────────────────────────────────────────────────────────────

/// The bits of 19.
pub const BITS_19: u32 = 0x4198_0000;

/// The bits of 1.
pub const BITS_1: u32 = 0x3f80_0000;

/// The bits of 600.
pub const BITS_600: u32 = 0x4416_0000;

/// The bits of 400.
pub const BITS_400: u32 = 0x43c8_0000;

/// The bits of 40.
pub const BITS_40: u32 = 0x4220_0000;

/// The bits of 460.
pub const BITS_460: u32 = 0x43e6_0000;

impl Default for OutputMode {
    fn default() -> (mode: Self)
        ensures
            mode == OutputMode::Append,
    {
        OutputMode::Append
    }
}

impl Default for OutputConfig {
    fn default() -> (config: Self)
        ensures
            config.dir@ == encode_utf8("out"@),
            config.mode == OutputMode::Append,
    {
        OutputConfig { dir: FilePath::of("out"), mode: OutputMode::Append }
    }
}

impl Default for PromptsConfig {
    fn default() -> (config: Self)
        ensures
            config.prompt@ == encode_utf8("prompt.md"@),
            config.context@ == encode_utf8("context.md"@),
    {
        PromptsConfig { prompt: FilePath::of("prompt.md"), context: FilePath::of("context.md") }
    }
}

impl Default for AudioConfig {
    fn default() -> (config: Self)
        ensures
            config.mic,
            config.system,
            config.mic_label@ == "Me"@,
            config.system_label@ == "Them"@,
            config.max_window_secs == 300,
            config.mic_source is None,
            config.system_source is None,
    {
        AudioConfig {
            mic: true,
            system: true,
            mic_label: "Me".to_owned(),
            system_label: "Them".to_owned(),
            max_window_secs: 300,
            mic_source: None,
            system_source: None,
        }
    }
}

impl Default for Pipe1Config {
    fn default() -> (config: Self)
        ensures
            config.enabled,
            config.stt_model@ == "gpt-realtime-whisper"@,
            config.stt_language matches Some(l) && l@ == "en"@,
            config.commit_every_chunks == 8,
            config.llm_backend == LlmBackendKind::Openai,
            config.llm_model@ == "gpt-4o"@,
            config.font_size == (Single { bits: BITS_19 }),
            config.opacity == (Single { bits: BITS_1 }),
            config.bg_opacity is None,
            config.text_opacity is None,
            config.width == (Single { bits: BITS_600 }),
            config.height == (Single { bits: BITS_400 }),
            config.pos_x == (Single { bits: BITS_40 }),
            config.pos_y == (Single { bits: BITS_40 }),
    {
        Pipe1Config {
            enabled: true,
            stt_model: "gpt-realtime-whisper".to_owned(),
            stt_language: Some("en".to_owned()),
            commit_every_chunks: 8,
            llm_backend: LlmBackendKind::Openai,
            llm_model: "gpt-4o".to_owned(),
            font_size: Single { bits: BITS_19 },
            opacity: Single { bits: BITS_1 },
            bg_opacity: None,
            text_opacity: None,
            width: Single { bits: BITS_600 },
            height: Single { bits: BITS_400 },
            pos_x: Single { bits: BITS_40 },
            pos_y: Single { bits: BITS_40 },
        }
    }
}

impl Default for Pipe2Config {
    fn default() -> (config: Self)
        ensures
            config.enabled,
            config.stt_model@ == "gpt-4o-transcribe"@,
            config.stt_language matches Some(l) && l@ == "en"@,
            config.llm_backend == LlmBackendKind::Openai,
            config.llm_model@ == "gpt-4o"@,
            config.font_size == (Single { bits: BITS_19 }),
            config.opacity == (Single { bits: BITS_1 }),
            config.bg_opacity is None,
            config.text_opacity is None,
            config.width == (Single { bits: BITS_600 }),
            config.height == (Single { bits: BITS_400 }),
            config.pos_x == (Single { bits: BITS_40 }),
            config.pos_y == (Single { bits: BITS_460 }),
    {
        Pipe2Config {
            enabled: true,
            stt_model: "gpt-4o-transcribe".to_owned(),
            stt_language: Some("en".to_owned()),
            llm_backend: LlmBackendKind::Openai,
            llm_model: "gpt-4o".to_owned(),
            font_size: Single { bits: BITS_19 },
            opacity: Single { bits: BITS_1 },
            bg_opacity: None,
            text_opacity: None,
            width: Single { bits: BITS_600 },
            height: Single { bits: BITS_400 },
            pos_x: Single { bits: BITS_40 },
            pos_y: Single { bits: BITS_460 },
        }
    }
}

impl Default for Pipe3Config {
    fn default() -> (config: Self)
        ensures
            config.enabled,
            config.llm_backend == LlmBackendKind::Openai,
            config.llm_model@ == "gpt-4o-audio-preview"@,
    {
        Pipe3Config {
            enabled: true,
            llm_backend: LlmBackendKind::Openai,
            llm_model: "gpt-4o-audio-preview".to_owned(),
        }
    }
}

impl Default for Config {
    /// A configuration with every default, which is a valid one.
    fn default() -> (config: Self)
        ensures
            config.output.dir@ == encode_utf8("out"@),
            config.output.mode == OutputMode::Append,
            config.prompts.prompt@ == encode_utf8("prompt.md"@),
            config.prompts.context@ == encode_utf8("context.md"@),
            config.audio.mic,
            config.audio.system,
            config.audio.mic_label@ == "Me"@,
            config.audio.system_label@ == "Them"@,
            config.audio.max_window_secs == 300,
            config.audio.mic_source is None,
            config.audio.system_source is None,
            config.pipe1.enabled,
            config.pipe1.stt_model@ == "gpt-realtime-whisper"@,
            config.pipe1.stt_language matches Some(l) && l@ == "en"@,
            config.pipe1.commit_every_chunks == 8,
            config.pipe1.llm_backend == LlmBackendKind::Openai,
            config.pipe1.llm_model@ == "gpt-4o"@,
            config.pipe1.font_size == (Single { bits: BITS_19 }),
            config.pipe1.opacity == (Single { bits: BITS_1 }),
            config.pipe1.bg_opacity is None,
            config.pipe1.text_opacity is None,
            config.pipe1.width == (Single { bits: BITS_600 }),
            config.pipe1.height == (Single { bits: BITS_400 }),
            config.pipe1.pos_x == (Single { bits: BITS_40 }),
            config.pipe1.pos_y == (Single { bits: BITS_40 }),
            config.pipe2.enabled,
            config.pipe2.stt_model@ == "gpt-4o-transcribe"@,
            config.pipe2.stt_language matches Some(l) && l@ == "en"@,
            config.pipe2.llm_backend == LlmBackendKind::Openai,
            config.pipe2.llm_model@ == "gpt-4o"@,
            config.pipe2.font_size == (Single { bits: BITS_19 }),
            config.pipe2.opacity == (Single { bits: BITS_1 }),
            config.pipe2.bg_opacity is None,
            config.pipe2.text_opacity is None,
            config.pipe2.width == (Single { bits: BITS_600 }),
            config.pipe2.height == (Single { bits: BITS_400 }),
            config.pipe2.pos_x == (Single { bits: BITS_40 }),
            config.pipe2.pos_y == (Single { bits: BITS_460 }),
            config.pipe3.enabled,
            config.pipe3.llm_backend == LlmBackendKind::Openai,
            config.pipe3.llm_model@ == "gpt-4o-audio-preview"@,
            problem(config) is None,
    {
        let config = Config {
            output: OutputConfig::default(),
            prompts: PromptsConfig::default(),
            audio: AudioConfig::default(),
            pipe1: Pipe1Config::default(),
            pipe2: Pipe2Config::default(),
            pipe3: Pipe3Config::default(),
        };
        proof {
            reveal_strlit("gpt-realtime-whisper");
            reveal_strlit("gpt-4o");
            reveal_strlit("gpt-4o-transcribe");
            reveal_strlit("gpt-4o-audio-preview");
            assert(!is_white("gpt-4o"@[0]));
            assert(!is_blank("gpt-4o"@));
            assert(!is_white("gpt-realtime-whisper"@[0]));
            assert(!is_blank("gpt-realtime-whisper"@));
            assert(!is_white("gpt-4o-transcribe"@[0]));
            assert(!is_blank("gpt-4o-transcribe"@));
            assert(!is_white("gpt-4o-audio-preview"@[0]));
            assert(!is_blank("gpt-4o-audio-preview"@));
            lemma_default_sizes();
        }
        config
    }
}

// ── Validation ────────────────────────────────────────────────────────────────

/// What is wrong with a model name, if anything.
pub open spec fn model_problem(field: Seq<char>, value: Seq<char>) -> Option<Seq<char>> {
    if is_blank(value) {
        Some(field + " must not be blank"@)
    } else {
        None
    }
}

/// What is wrong with an opacity, if anything.
pub open spec fn unit_problem(field: Seq<char>, value: Option<Single>) -> Option<Seq<char>> {
    match value {
        Some(v) => if v.in_unit() {
            None
        } else {
            Some(field + " must be between 0.0 and 1.0"@)
        },
        None => None,
    }
}

/// The first of two problems.
pub open spec fn either(first: Option<Seq<char>>, second: Option<Seq<char>>) -> Option<Seq<char>> {
    if first is Some {
        first
    } else {
        second
    }
}

/// What is wrong with a size, if anything.
pub open spec fn size_problem(field: Seq<char>, value: Single) -> Option<Seq<char>> {
    if value.at_most_zero() {
        Some(field + " must be greater than 0"@)
    } else {
        None
    }
}

/// The first thing that is wrong with the looks of a card, if anything.
pub open spec fn style_problem(
    prefix: Seq<char>,
    font_size: Single,
    width: Single,
    height: Single,
    opacity: Single,
    bg_opacity: Option<Single>,
    text_opacity: Option<Single>,
) -> Option<Seq<char>> {
    either(
        size_problem(prefix + ".font_size"@, font_size),
        either(
            size_problem(prefix + ".width"@, width),
            either(
                size_problem(prefix + ".height"@, height),
                either(
                    unit_problem(prefix + ".opacity"@, Some(opacity)),
                    either(
                        unit_problem(prefix + ".bg_opacity"@, bg_opacity),
                        unit_problem(prefix + ".text_opacity"@, text_opacity),
                    ),
                ),
            ),
        ),
    )
}

/// The first thing that is wrong with the capture, if anything.
pub open spec fn audio_problem(audio: AudioConfig) -> Option<Seq<char>> {
    if audio.max_window_secs == 0 {
        Some("audio.max_window_secs must be greater than 0"@)
    } else if !audio.mic && !audio.system {
        Some("at least one of audio.mic / audio.system must be enabled"@)
    } else {
        None
    }
}

/// The first thing that is wrong with pipe 1, if anything. A disabled pipe is never wrong.
pub open spec fn pipe1_problem(pipe: Pipe1Config) -> Option<Seq<char>> {
    if !pipe.enabled {
        None
    } else {
        either(
            model_problem("pipe1.stt_model"@, pipe.stt_model@),
            either(
                model_problem("pipe1.llm_model"@, pipe.llm_model@),
                if pipe.commit_every_chunks == 0 {
                    Some("pipe1.commit_every_chunks must be greater than 0"@)
                } else {
                    style_problem(
                        "pipe1"@,
                        pipe.font_size,
                        pipe.width,
                        pipe.height,
                        pipe.opacity,
                        pipe.bg_opacity,
                        pipe.text_opacity,
                    )
                },
            ),
        )
    }
}

/// The first thing that is wrong with pipe 2, if anything. A disabled pipe is never wrong.
pub open spec fn pipe2_problem(pipe: Pipe2Config) -> Option<Seq<char>> {
    if !pipe.enabled {
        None
    } else {
        either(
            model_problem("pipe2.stt_model"@, pipe.stt_model@),
            either(
                model_problem("pipe2.llm_model"@, pipe.llm_model@),
                style_problem(
                    "pipe2"@,
                    pipe.font_size,
                    pipe.width,
                    pipe.height,
                    pipe.opacity,
                    pipe.bg_opacity,
                    pipe.text_opacity,
                ),
            ),
        )
    }
}

/// The first thing that is wrong with pipe 3, if anything. A disabled pipe is never wrong.
pub open spec fn pipe3_problem(pipe: Pipe3Config) -> Option<Seq<char>> {
    if !pipe.enabled {
        None
    } else {
        either(
            model_problem("pipe3.llm_model"@, pipe.llm_model@),
            if pipe.llm_backend != LlmBackendKind::Openai {
                Some("pipe3 (audio-direct) supports only llm_backend = \"openai\""@)
            } else {
                None
            },
        )
    }
}

/// The first thing that is wrong with a configuration, if anything.
pub open spec fn problem(config: Config) -> Option<Seq<char>> {
    either(
        audio_problem(config.audio),
        either(
            pipe1_problem(config.pipe1),
            either(pipe2_problem(config.pipe2), pipe3_problem(config.pipe3)),
        ),
    )
}

/// Whether a check came to `problem`.
pub open spec fn finds(checked: Result<(), ConfigError>, problem: Option<Seq<char>>) -> bool {
    match problem {
        None => checked is Ok,
        Some(message) => checked matches Err(ConfigError::Invalid(m)) && m@ == message,
    }
}

fn invalid(message: &str) -> (e: Result<(), ConfigError>)
    ensures
        finds(e, Some(message@)),
{
    Err(ConfigError::Invalid(message.to_owned()))
}

fn about(field: &str, complaint: &str) -> (e: Result<(), ConfigError>)
    ensures
        finds(e, Some(field@ + complaint@)),
{
    let mut message = field.to_owned();
    message.append(complaint);
    Err(ConfigError::Invalid(message))
}

fn key(prefix: &str, name: &str) -> (field: String)
    ensures
        field@ == prefix@ + name@,
{
    let mut field = prefix.to_owned();
    field.append(name);
    field
}

fn require_nonblank(field: &str, value: &str) -> (checked: Result<(), ConfigError>)
    ensures
        finds(checked, model_problem(field@, value@)),
{
    if blank(value) {
        about(field, " must not be blank")
    } else {
        Ok(())
    }
}

fn require_positive(field: &str, value: Single) -> (checked: Result<(), ConfigError>)
    ensures
        finds(checked, size_problem(field@, value)),
{
    if value.is_at_most_zero() {
        about(field, " must be greater than 0")
    } else {
        Ok(())
    }
}

fn require_unit(field: &str, value: Option<Single>) -> (checked: Result<(), ConfigError>)
    ensures
        finds(checked, unit_problem(field@, value)),
{
    match value {
        Some(v) => if v.is_in_unit() {
            Ok(())
        } else {
            about(field, " must be between 0.0 and 1.0")
        },
        None => Ok(()),
    }
}

fn require_card_style(
    prefix: &str,
    font_size: Single,
    width: Single,
    height: Single,
    opacity: Single,
    bg_opacity: Option<Single>,
    text_opacity: Option<Single>,
) -> (checked: Result<(), ConfigError>)
    ensures
        finds(
            checked,
            style_problem(
                prefix@,
                font_size,
                width,
                height,
                opacity,
                bg_opacity,
                text_opacity,
            ),
        ),
{
    let checked = require_positive(key(prefix, ".font_size").as_str(), font_size);
    if checked.is_err() {
        return checked;
    }
    let checked = require_positive(key(prefix, ".width").as_str(), width);
    if checked.is_err() {
        return checked;
    }
    let checked = require_positive(key(prefix, ".height").as_str(), height);
    if checked.is_err() {
        return checked;
    }
    let checked = require_unit(key(prefix, ".opacity").as_str(), Some(opacity));
    if checked.is_err() {
        return checked;
    }
    let checked = require_unit(key(prefix, ".bg_opacity").as_str(), bg_opacity);
    if checked.is_err() {
        return checked;
    }
    require_unit(key(prefix, ".text_opacity").as_str(), text_opacity)
}

fn check_pipe1(pipe: &Pipe1Config) -> (checked: Result<(), ConfigError>)
    ensures
        finds(checked, pipe1_problem(*pipe)),
{
    if !pipe.enabled {
        return Ok(());
    }
    let checked = require_nonblank("pipe1.stt_model", pipe.stt_model.as_str());
    if checked.is_err() {
        return checked;
    }
    let checked = require_nonblank("pipe1.llm_model", pipe.llm_model.as_str());
    if checked.is_err() {
        return checked;
    }
    if pipe.commit_every_chunks == 0 {
        return invalid("pipe1.commit_every_chunks must be greater than 0");
    }
    require_card_style(
        "pipe1",
        pipe.font_size,
        pipe.width,
        pipe.height,
        pipe.opacity,
        pipe.bg_opacity,
        pipe.text_opacity,
    )
}

fn check_pipe2(pipe: &Pipe2Config) -> (checked: Result<(), ConfigError>)
    ensures
        finds(checked, pipe2_problem(*pipe)),
{
    if !pipe.enabled {
        return Ok(());
    }
    let checked = require_nonblank("pipe2.stt_model", pipe.stt_model.as_str());
    if checked.is_err() {
        return checked;
    }
    let checked = require_nonblank("pipe2.llm_model", pipe.llm_model.as_str());
    if checked.is_err() {
        return checked;
    }
    require_card_style(
        "pipe2",
        pipe.font_size,
        pipe.width,
        pipe.height,
        pipe.opacity,
        pipe.bg_opacity,
        pipe.text_opacity,
    )
}

fn check_pipe3(pipe: &Pipe3Config) -> (checked: Result<(), ConfigError>)
    ensures
        finds(checked, pipe3_problem(*pipe)),
{
    if !pipe.enabled {
        return Ok(());
    }
    let checked = require_nonblank("pipe3.llm_model", pipe.llm_model.as_str());
    if checked.is_err() {
        return checked;
    }
    if pipe.llm_backend != LlmBackendKind::Openai {
        return invalid("pipe3 (audio-direct) supports only llm_backend = \"openai\"");
    }
    Ok(())
}

/// What reading the configuration file came to.
#[derive(Debug)]
pub enum ConfigFile {
    /// The file could not be read.
    Unreadable(String),
    /// The file has not the right form.
    Malformed(String),
    /// What the file holds.
    Parsed(Config),
}

impl Config {
    /// Find the first thing that makes the configuration invalid.
    pub fn validate(&self) -> (checked: Result<(), ConfigError>)
        ensures
            finds(checked, problem(*self)),
    {
        if self.audio.max_window_secs == 0 {
            return invalid("audio.max_window_secs must be greater than 0");
        }
        if !self.audio.mic && !self.audio.system {
            return invalid("at least one of audio.mic / audio.system must be enabled");
        }
        let checked = check_pipe1(&self.pipe1);
        if checked.is_err() {
            return checked;
        }
        let checked = check_pipe2(&self.pipe2);
        if checked.is_err() {
            return checked;
        }
        check_pipe3(&self.pipe3)
    }

    /// The configuration at `path`, `file` being what reading it came to.
    pub fn load(path: FilePath, file: ConfigFile) -> (config: Result<Config, ConfigError>)
        ensures
            match file {
                ConfigFile::Unreadable(source) => config == Err::<Config, ConfigError>(
                    (ConfigError::Read { path, source }),
                ),
                ConfigFile::Malformed(source) => config == Err::<Config, ConfigError>(
                    (ConfigError::Parse { path, source }),
                ),
                ConfigFile::Parsed(parsed) => match problem(parsed) {
                    None => config == Ok::<Config, ConfigError>(parsed),
                    Some(message) => config matches Err(ConfigError::Invalid(m)) && m@ == message,
                },
            },
    {
        match file {
            ConfigFile::Unreadable(source) => Err(ConfigError::Read { path, source }),
            ConfigFile::Malformed(source) => Err(ConfigError::Parse { path, source }),
            ConfigFile::Parsed(parsed) => match parsed.validate() {
                Ok(()) => Ok(parsed),
                Err(e) => Err(e),
            },
        }
    }

    /// The system prompt that two files make: the instructions, a blank line, the context.
    pub fn load_system_prompt(prompt: &str, context: &str) -> (system: String)
        ensures
            system@ == system_prompt(prompt@, context@),
    {
        let mut system = trim_end_of(prompt, CharClass::White).to_owned();
        system.append("\n\n");
        system.append(trim_end_of(context, CharClass::White));
        system
    }
}

/// The instructions, a blank line, the context; without white space at either's end.
pub open spec fn system_prompt(prompt: Seq<char>, context: Seq<char>) -> Seq<char> {
    trimmed_end(prompt, CharClass::White) + "\n\n"@ + trimmed_end(context, CharClass::White)
}

/// Where a file that the configuration names lies: a relative path counts from the
/// directory of the configuration.
pub fn relative_to(base: &FilePath, path: &FilePath) -> (resolved: FilePath)
    ensures
        resolved@ == under(base@, path@),
{
    base.join_path(path)
}

// ── Laws ──────────────────────────────────────────────────────────────────────

/// A disabled pipe cannot make a configuration invalid.
pub proof fn law_disabled_pipes_are_not_checked(config: Config)
    requires
        !config.pipe1.enabled,
        !config.pipe2.enabled,
        !config.pipe3.enabled,
    ensures
        problem(config) == audio_problem(config.audio),
{
}

/// A valid configuration has a window, a source, and for every enabled pipe its models.
pub proof fn law_valid_config(config: Config)
    requires
        problem(config) is None,
    ensures
        config.audio.max_window_secs > 0,
        config.audio.mic || config.audio.system,
        config.pipe1.enabled ==> !is_blank(config.pipe1.stt_model@) && !is_blank(
            config.pipe1.llm_model@,
        ) && config.pipe1.commit_every_chunks > 0 && config.pipe1.opacity.in_unit(),
        config.pipe2.enabled ==> !is_blank(config.pipe2.stt_model@) && !is_blank(
            config.pipe2.llm_model@,
        ) && config.pipe2.opacity.in_unit(),
        config.pipe3.enabled ==> !is_blank(config.pipe3.llm_model@) && config.pipe3.llm_backend
            == LlmBackendKind::Openai,
{
}

/// A configuration is valid exactly if it has a window, a source, and for every enabled pipe
/// its models and valid looks; the live pipe also commits now and then, and the audio goes
/// to the one provider that takes it.
pub proof fn law_valid_exactly(config: Config)
    ensures
        problem(config) is None <==> {
            &&& config.audio.max_window_secs > 0
            &&& config.audio.mic || config.audio.system
            &&& config.pipe1.enabled ==> {
                let p = config.pipe1;
                &&& !is_blank(p.stt_model@) && !is_blank(p.llm_model@) && p.commit_every_chunks > 0
                &&& !p.font_size.at_most_zero() && !p.width.at_most_zero()
                &&& !p.height.at_most_zero() && p.opacity.in_unit()
                &&& p.bg_opacity is Some ==> p.bg_opacity->0.in_unit()
                &&& p.text_opacity is Some ==> p.text_opacity->0.in_unit()
            }
            &&& config.pipe2.enabled ==> {
                let p = config.pipe2;
                &&& !is_blank(p.stt_model@) && !is_blank(p.llm_model@)
                &&& !p.font_size.at_most_zero() && !p.width.at_most_zero()
                &&& !p.height.at_most_zero() && p.opacity.in_unit()
                &&& p.bg_opacity is Some ==> p.bg_opacity->0.in_unit()
                &&& p.text_opacity is Some ==> p.text_opacity->0.in_unit()
            }
            &&& config.pipe3.enabled ==> !is_blank(config.pipe3.llm_model@)
                && config.pipe3.llm_backend == LlmBackendKind::Openai
        },
{
}

/// What is complained of is the first thing that is wrong: the capture before the pipes, and
/// the pipes in order.
pub proof fn law_first_problem_is_told(config: Config)
    ensures
        ({
            let told = problem(config);
            let window = config.audio.max_window_secs > 0;
            let source = config.audio.mic || config.audio.system;
            let fine1 = pipe1_problem(config.pipe1) is None;
            let fine2 = pipe2_problem(config.pipe2) is None;
            &&& !window ==> told == Some("audio.max_window_secs must be greater than 0"@)
            &&& window && !source ==> told == Some(
                "at least one of audio.mic / audio.system must be enabled"@,
            )
            &&& window && source && !fine1 ==> told == pipe1_problem(config.pipe1)
            &&& window && source && fine1 && !fine2 ==> told == pipe2_problem(config.pipe2)
            &&& window && source && fine1 && fine2 ==> told == pipe3_problem(config.pipe3)
        }),
{
}

/// What is said of a pipe that is enabled: its models come first, in the order in which they
/// are used, and each message names the setting.
pub proof fn law_pipe_problems_name_the_setting(
    one: Pipe1Config,
    two: Pipe2Config,
    three: Pipe3Config,
)
    requires
        one.enabled,
        two.enabled,
        three.enabled,
    ensures
        is_blank(one.stt_model@) ==> pipe1_problem(one) == Some(
            "pipe1.stt_model"@ + " must not be blank"@,
        ),
        !is_blank(one.stt_model@) && is_blank(one.llm_model@) ==> pipe1_problem(one) == Some(
            "pipe1.llm_model"@ + " must not be blank"@,
        ),
        !is_blank(one.stt_model@) && !is_blank(one.llm_model@) ==> pipe1_problem(one) == (
        if one.commit_every_chunks == 0 {
            Some("pipe1.commit_every_chunks must be greater than 0"@)
        } else {
            style_problem(
                "pipe1"@,
                one.font_size,
                one.width,
                one.height,
                one.opacity,
                one.bg_opacity,
                one.text_opacity,
            )
        }),
        is_blank(two.stt_model@) ==> pipe2_problem(two) == Some(
            "pipe2.stt_model"@ + " must not be blank"@,
        ),
        !is_blank(two.stt_model@) && is_blank(two.llm_model@) ==> pipe2_problem(two) == Some(
            "pipe2.llm_model"@ + " must not be blank"@,
        ),
        !is_blank(two.stt_model@) && !is_blank(two.llm_model@) ==> pipe2_problem(two)
            == style_problem(
            "pipe2"@,
            two.font_size,
            two.width,
            two.height,
            two.opacity,
            two.bg_opacity,
            two.text_opacity,
        ),
        is_blank(three.llm_model@) ==> pipe3_problem(three) == Some(
            "pipe3.llm_model"@ + " must not be blank"@,
        ),
        !is_blank(three.llm_model@) && three.llm_backend is Anthropic ==> pipe3_problem(three)
            == Some("pipe3 (audio-direct) supports only llm_backend = \"openai\""@),
{
}

/// What is said of a card's looks: sizes before opacities, and each message names the setting
/// and what it must be.
pub proof fn law_style_problems_name_the_setting(
    prefix: Seq<char>,
    font_size: Single,
    width: Single,
    height: Single,
    opacity: Single,
    bg_opacity: Option<Single>,
    text_opacity: Option<Single>,
)
    ensures
        ({
            let told = style_problem(
                prefix,
                font_size,
                width,
                height,
                opacity,
                bg_opacity,
                text_opacity,
            );
            let font = !font_size.at_most_zero();
            let wide = !width.at_most_zero();
            let high = !height.at_most_zero();
            let seen = opacity.in_unit();
            let back = bg_opacity is Some ==> bg_opacity->0.in_unit();
            let text = text_opacity is Some ==> text_opacity->0.in_unit();
            &&& !font ==> told == Some(prefix + ".font_size"@ + " must be greater than 0"@)
            &&& font && !wide ==> told == Some(prefix + ".width"@ + " must be greater than 0"@)
            &&& font && wide && !high ==> told == Some(
                prefix + ".height"@ + " must be greater than 0"@,
            )
            &&& font && wide && high && !seen ==> told == Some(
                prefix + ".opacity"@ + " must be between 0.0 and 1.0"@,
            )
            &&& font && wide && high && seen && !back ==> told == Some(
                prefix + ".bg_opacity"@ + " must be between 0.0 and 1.0"@,
            )
            &&& font && wide && high && seen && back && !text ==> told == Some(
                prefix + ".text_opacity"@ + " must be between 0.0 and 1.0"@,
            )
        }),
{
}

/// A check that finds a problem tells it, and one that finds none succeeds.
pub proof fn law_checks_tell_what_they_find(
    checked: Result<(), ConfigError>,
    found: Option<Seq<char>>,
)
    requires
        finds(checked, found),
    ensures
        checked is Ok <==> found is None,
        checked matches Err(e) ==> (e matches ConfigError::Invalid(m) && found == Some(m@)),
{
}

/// The system prompt is the instructions, a blank line and the context, whatever white space
/// the two files end with.
pub proof fn law_system_prompt_joins_the_files(
    prompt: Seq<char>,
    context: Seq<char>,
    after_prompt: Seq<char>,
    after_context: Seq<char>,
)
    requires
        is_blank(after_prompt),
        is_blank(after_context),
        prompt.len() > 0 ==> !is_white(prompt.last()),
        context.len() > 0 ==> !is_white(context.last()),
    ensures
        system_prompt(prompt + after_prompt, context + after_context) == prompt + seq!['\n', '\n']
            + context,
{
    reveal_strlit("\n\n");
    assert("\n\n"@ =~= seq!['\n', '\n']);
    let white = CharClass::White;
    law_trimming_the_back_finds_the_core(prompt, after_prompt, white);
    law_trimming_the_back_finds_the_core(context, after_context, white);
}

/// The bits of the defaults stand for the numbers that they are named after.
pub proof fn law_default_bits_are_their_numbers()
    ensures
        (Single { bits: BITS_1 }).value() == Meaning::Finite(one()),
        (Single { bits: BITS_19 }).value() == Meaning::Finite(19 * one()),
        (Single { bits: BITS_40 }).value() == Meaning::Finite(40 * one()),
        (Single { bits: BITS_400 }).value() == Meaning::Finite(400 * one()),
        (Single { bits: BITS_460 }).value() == Meaning::Finite(460 * one()),
        (Single { bits: BITS_600 }).value() == Meaning::Finite(600 * one()),
{
    vstd::arithmetic::power2::lemma2_to64();
    law_whole_numbers(1, 23, BITS_1);
    law_whole_numbers(19, 19, BITS_19);
    law_whole_numbers(40, 18, BITS_40);
    law_whole_numbers(400, 15, BITS_400);
    law_whole_numbers(460, 15, BITS_460);
    law_whole_numbers(600, 14, BITS_600);
}

} // verus!
