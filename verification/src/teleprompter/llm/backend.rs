//! One chat backend, whichever provider it is.

use vstd::prelude::*;

use super::anthropic::{
    key_headers, messages_body, messages_reply, read_messages_response, AnthropicClient,
    ANTHROPIC_ENDPOINT, NO_TEXT_BLOCK,
};
use super::openai::{
    audio_body, chat_body, chat_reply, read_chat_response, OpenAiClient, NO_CHOICE, NO_JSON,
    OPENAI_ENDPOINT,
};
use super::turn::{AudioPart, LlmError, Post, Turn};
use crate::base64_text::encodable;
use crate::json::{parsed, tree, Json};
use crate::listener::transcribe::api::openai::field_texts;
use crate::text::is_blank;

verus! {

/// A provider.
#[derive(Debug, Clone, Copy, PartialEq, Eq, Structural)]
pub enum LlmBackendKind {
    Openai,
    Anthropic,
}

/// A chat client of some provider.
#[derive(Debug)]
pub enum Backend {
    OpenAi(OpenAiClient),
    Anthropic(AnthropicClient),
}

impl Backend {
    /// The client's provider.
    pub open spec fn kind(self) -> LlmBackendKind {
        match self {
            Backend::OpenAi(_) => LlmBackendKind::Openai,
            Backend::Anthropic(_) => LlmBackendKind::Anthropic,
        }
    }

    /// The client's key.
    pub open spec fn key(self) -> Seq<char> {
        match self {
            Backend::OpenAi(c) => c.api_key@,
            Backend::Anthropic(c) => c.api_key@,
        }
    }

    /// The client's URL.
    pub open spec fn url(self) -> Seq<char> {
        match self {
            Backend::OpenAi(c) => c.endpoint@,
            Backend::Anthropic(c) => c.endpoint@,
        }
    }

    /// A client of the given provider; the key must not be blank.
    pub fn new(kind: LlmBackendKind, api_key: String) -> (backend: Result<Self, LlmError>)
        ensures
            is_blank(api_key@) ==> backend == Err::<Self, LlmError>(LlmError::MissingKey),
            !is_blank(api_key@) ==> {
                &&& backend matches Ok(b)
                &&& b.kind() == kind
                &&& b.key() == api_key@
                &&& b.url() == (match kind {
                    LlmBackendKind::Openai => OPENAI_ENDPOINT@,
                    LlmBackendKind::Anthropic => ANTHROPIC_ENDPOINT@,
                })
            },
    {
        match kind {
            LlmBackendKind::Openai => match OpenAiClient::new(api_key) {
                Ok(client) => Ok(Backend::OpenAi(client)),
                Err(e) => Err(e),
            },
            LlmBackendKind::Anthropic => match AnthropicClient::new(api_key) {
                Ok(client) => Ok(Backend::Anthropic(client)),
                Err(e) => Err(e),
            },
        }
    }

    /// Name of the provider.
    pub fn name(&self) -> (name: &'static str)
        ensures
            name@ == (match self.kind() {
                LlmBackendKind::Openai => "openai"@,
                LlmBackendKind::Anthropic => "anthropic"@,
            }),
    {
        match self {
            Backend::OpenAi(_) => "openai",
            Backend::Anthropic(_) => "anthropic",
        }
    }

    /// Whether `post` is the request of a text chat.
    pub open spec fn asks_chat(
        self,
        post: Post,
        model: Seq<char>,
        system: Seq<char>,
        turns: Seq<Turn>,
    ) -> bool {
        &&& post.url@ == self.url()
        &&& match self.kind() {
            LlmBackendKind::Openai => {
                &&& post.bearer matches Some(b) && b@ == self.key()
                &&& post.headers@.len() == 0
                &&& tree(post.body) == chat_body(model, system, turns)
            },
            LlmBackendKind::Anthropic => {
                &&& post.bearer is None
                &&& field_texts(post.headers@) == key_headers(self.key())
                &&& tree(post.body) == messages_body(model, system, turns)
            },
        }
    }

    /// The request of a text chat.
    pub fn chat(&self, model: &str, system: &str, turns: &[Turn]) -> (post: Post)
        ensures
            self.asks_chat(post, model@, system@, turns@),
    {
        match self {
            Backend::OpenAi(client) => client.chat(model, system, turns),
            Backend::Anthropic(client) => client.chat(model, system, turns),
        }
    }

    /// The request of an audio chat; only one of the providers takes audio.
    pub fn chat_audio(
        &self,
        model: &str,
        system: &str,
        prompt: &str,
        parts: &[AudioPart],
    ) -> (post: Result<Post, LlmError>)
        requires
            forall|i: int|
                0 <= i < parts@.len() ==> encodable((#[trigger] parts@[i]).wav@.len() as int),
        ensures
            match self.kind() {
                LlmBackendKind::Openai => {
                    &&& post matches Ok(p)
                    &&& p.url@ == self.url()
                    &&& p.bearer matches Some(b) && b@ == self.key()
                    &&& p.headers@.len() == 0
                    &&& tree(p.body) == audio_body(model@, system@, prompt@, parts@)
                },
                LlmBackendKind::Anthropic => post matches Err(LlmError::Unsupported { backend })
                    && backend@ == "anthropic"@,
            },
    {
        match self {
            Backend::OpenAi(client) => Ok(client.chat_audio(model, system, prompt, parts)),
            Backend::Anthropic(_) => Err(LlmError::Unsupported { backend: "anthropic" }),
        }
    }

    /// The text that the provider's replies carry.
    pub open spec fn reply_text(self, reply: Json) -> Option<Seq<char>> {
        match self.kind() {
            LlmBackendKind::Openai => chat_reply(reply),
            LlmBackendKind::Anthropic => messages_reply(reply),
        }
    }

    /// The text of a successful reply, from its raw bytes.
    pub fn read_reply(&self, bytes: &[u8]) -> (reply: Result<String, LlmError>)
        ensures
            match parsed(bytes@) {
                None => reply matches Err(LlmError::Request(m)) && m@ == NO_JSON@,
                Some(json) => match self.reply_text(json) {
                    Some(text) => reply matches Ok(t) && t@ == text,
                    None => reply matches Err(LlmError::Malformed(m)) && m@ == (match self.kind() {
                        LlmBackendKind::Openai => NO_CHOICE@,
                        LlmBackendKind::Anthropic => NO_TEXT_BLOCK@,
                    }),
                },
            },
    {
        match self {
            Backend::OpenAi(_) => read_chat_response(bytes),
            Backend::Anthropic(_) => read_messages_response(bytes),
        }
    }
}

// ── Laws ──────────────────────────────────────────────────────────────────────

/// A backend is what its client is: it asks at the client's URL with the client's key, in the
/// form that the provider takes.
pub proof fn law_backends_ask_as_their_clients(
    backend: Backend,
    post: Post,
    model: Seq<char>,
    system: Seq<char>,
    turns: Seq<Turn>,
)
    ensures
        backend matches Backend::OpenAi(c) ==> {
            &&& backend.kind() is Openai
            &&& backend.key() == c.api_key@
            &&& backend.url() == c.endpoint@
            &&& backend.asks_chat(post, model, system, turns) ==> {
                &&& post.url@ == c.endpoint@
                &&& post.bearer is Some && post.bearer->0@ == c.api_key@
                &&& post.headers@.len() == 0
                &&& tree(post.body) == chat_body(model, system, turns)
            }
        },
        backend matches Backend::Anthropic(c) ==> {
            &&& backend.kind() is Anthropic
            &&& backend.key() == c.api_key@
            &&& backend.url() == c.endpoint@
            &&& backend.asks_chat(post, model, system, turns) ==> {
                &&& post.url@ == c.endpoint@
                &&& post.bearer is None
                &&& post.headers@.len() == 2
                &&& post.headers@[0].0@ == "x-api-key"@ && post.headers@[0].1@ == c.api_key@
                &&& post.headers@[1].0@ == "anthropic-version"@ && post.headers@[1].1@
                    == "2023-06-01"@
                &&& tree(post.body) == messages_body(model, system, turns)
            }
        },
{
    if backend is Anthropic && backend.asks_chat(post, model, system, turns) {
        let sent = field_texts(post.headers@);
        assert(sent.len() == 2);
        assert(sent[0] == (post.headers@[0].0@, post.headers@[0].1@));
        assert(sent[1] == (post.headers@[1].0@, post.headers@[1].1@));
    }
}

/// A reply is read as the provider writes it.
pub proof fn law_replies_are_read_as_written(backend: Backend, reply: Json)
    ensures
        backend is OpenAi ==> backend.reply_text(reply) == chat_reply(reply),
        backend is Anthropic ==> backend.reply_text(reply) == messages_reply(reply),
{
}

} // verus!
