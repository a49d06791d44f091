//! Transcription by upload: one WAV file up, one text back.

use vstd::prelude::*;

use crate::bytes::pcm16;
use crate::listener::capture::record::{length_field, wav_bytes, wav_header, RATE_16K};
use crate::text::{blank, is_blank};

verus! {

/// A failed upload.
#[derive(Debug, Clone)]
pub enum ApiError {
    /// The key is blank.
    MissingKey,
    /// There are no samples.
    EmptyAudio,
    /// The request could not be made, or its reply not be read.
    Request(String),
    /// The service refused.
    Status { status: u16, body: String },
}

/// Tunables of an upload.
#[derive(Debug, Clone)]
pub struct ApiConfig {
    /// Transcription model.
    pub model: String,
    /// Full URL of the service.
    pub endpoint: String,
    /// Language hint.
    pub language: Option<String>,
}

impl Default for ApiConfig {
    fn default() -> (config: Self)
        ensures
            config.model@ == "gpt-4o-transcribe"@,
            config.endpoint@ == "https://api.openai.com/v1/audio/transcriptions"@,
            config.language is None,
    {
        ApiConfig {
            model: "gpt-4o-transcribe".to_owned(),
            endpoint: "https://api.openai.com/v1/audio/transcriptions".to_owned(),
            language: None,
        }
    }
}

/// Client of the upload service.
#[derive(Debug)]
pub struct ApiTranscriber {
    pub api_key: String,
    pub config: ApiConfig,
}

/// A form to post.
#[derive(Debug)]
pub struct Upload {
    pub url: String,
    pub bearer: String,
    /// Content of the part `file`.
    pub file: Vec<u8>,
    pub file_name: &'static str,
    pub mime: &'static str,
    /// Text fields in order.
    pub fields: Vec<(&'static str, String)>,
}

/// Whether a status tells success.
pub open spec fn is_success(status: u16) -> bool {
    200 <= status < 300
}

/// Whether a status tells success.
pub fn success(status: u16) -> (yes: bool)
    ensures
        yes == is_success(status),
{
    200 <= status && status < 300
}

/// The text fields that are posted beside the file.
pub open spec fn upload_fields(config: ApiConfig) -> Seq<(Seq<char>, Seq<char>)> {
    let always = seq![("model"@, config.model@), ("response_format"@, "json"@)];
    match config.language {
        Some(language) => always.push(("language"@, language@)),
        None => always,
    }
}

/// The names and values of a list of form fields.
pub open spec fn field_texts(fields: Seq<(&'static str, String)>) -> Seq<(Seq<char>, Seq<char>)> {
    fields.map_values(|f: (&'static str, String)| (f.0@, f.1@))
}

impl ApiTranscriber {
    /// A client with the given key, which must not be blank.
    pub fn new(api_key: String, config: ApiConfig) -> (client: Result<Self, ApiError>)
        ensures
            is_blank(api_key@) ==> client == Err::<Self, ApiError>(ApiError::MissingKey),
            !is_blank(api_key@) ==> client == Ok::<Self, ApiError>(
                (ApiTranscriber { api_key, config }),
            ),
    {
        if blank(api_key.as_str()) {
            return Err(ApiError::MissingKey);
        }
        Ok(ApiTranscriber { api_key, config })
    }

    /// The upload that transcribes `samples`, 16-bit mono at 16 kHz.
    pub fn transcribe(&self, samples: &[i16]) -> (upload: Result<Upload, ApiError>)
        requires
            samples@.len() * 2 <= usize::MAX,
            36 + length_field(samples@.len() as int * 2) <= u32::MAX,
        ensures
            samples@.len() == 0 ==> upload == Err::<Upload, ApiError>(ApiError::EmptyAudio),
            samples@.len() > 0 ==> {
                &&& upload matches Ok(u)
                &&& u.url@ == self.config.endpoint@
                &&& u.bearer@ == self.api_key@
                &&& u.file@ == wav_header(
                    length_field(samples@.len() as int * 2),
                    1,
                    RATE_16K as int,
                ) + pcm16(samples@)
                &&& u.file_name@ == "audio.wav"@
                &&& u.mime@ == "audio/wav"@
                &&& field_texts(u.fields@) == upload_fields(self.config)
            },
    {
        if samples.len() == 0 {
            return Err(ApiError::EmptyAudio);
        }
        let mut fields: Vec<(&'static str, String)> = Vec::new();
        fields.push(("model", self.config.model.clone()));
        fields.push(("response_format", "json".to_owned()));
        match &self.config.language {
            Some(language) => {
                fields.push(("language", language.clone()));
            },
            None => {},
        }
        assert(field_texts(fields@) =~= upload_fields(self.config));
        Ok(
            Upload {
                url: self.config.endpoint.clone(),
                bearer: self.api_key.clone(),
                file: wav_bytes(samples),
                file_name: "audio.wav",
                mime: "audio/wav",
                fields,
            },
        )
    }
}

/// The error of a reply that does not tell success, if it does not.
pub fn refusal(status: u16, body: String) -> (error: Option<ApiError>)
    ensures
        error == (if is_success(status) {
            None
        } else {
            Some((ApiError::Status { status, body }))
        }),
{
    if success(status) {
        None
    } else {
        Some(ApiError::Status { status, body })
    }
}

// ── Laws ──────────────────────────────────────────────────────────────────────

/// The statuses of success are those of the 200s.
pub proof fn law_success_is_in_the_200s(status: u16)
    ensures
        is_success(status) <==> status / 100 == 2,
{
}

/// The form names the model and asks for JSON, and names the language exactly where one is
/// configured.
pub proof fn law_upload_fields(config: ApiConfig)
    ensures
        ({
            let fields = upload_fields(config);
            &&& fields.len() == (if config.language is Some {
                3int
            } else {
                2
            })
            &&& fields[0] == ("model"@, config.model@)
            &&& fields[1] == ("response_format"@, "json"@)
            &&& config.language is Some ==> fields[2] == ("language"@, config.language->0@)
        }),
{
}

/// There are as many names and values as form fields, each at its field's place.
pub proof fn law_fields_keep_their_places(fields: Seq<(&'static str, String)>)
    ensures
        field_texts(fields).len() == fields.len(),
        forall|i: int|
            0 <= i < fields.len() ==> #[trigger] field_texts(fields)[i] == (
                fields[i].0@,
                fields[i].1@,
            ),
{
}

} // verus!
