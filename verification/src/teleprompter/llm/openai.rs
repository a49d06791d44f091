//! OpenAI Chat Completions.

use vstd::prelude::*;

use super::turn::{
    law_message_holds_role_and_content, message, message_value, messages, push_turns, AudioPart,
    LlmError, Post, Turn,
};
use crate::base64_text::{base64_of, base64_text, encodable};
use crate::json::{
    array_value, as_text, field, from_bytes, item, member, no_members, nth, object_value, parsed,
    put, string_value, text_in, tree, trees, Json,
};
use crate::text::{blank, is_blank, trim, trimmed};

verus! {

/// Default URL.
pub const OPENAI_ENDPOINT: &'static str = "https://api.openai.com/v1/chat/completions";

/// OpenAI chat client.
#[derive(Debug)]
pub struct OpenAiClient {
    pub api_key: String,
    pub endpoint: String,
}

// ── Bodies ────────────────────────────────────────────────────────────────────

/// Body of a text chat: the system prompt first, then the turns.
pub open spec fn chat_body(model: Seq<char>, system: Seq<char>, turns: Seq<Turn>) -> Json {
    Json::Obj(
        Map::empty().insert("model"@, Json::Str(model)).insert(
            "messages"@,
            Json::Arr(seq![message("system"@, Json::Str(system))] + messages(turns)),
        ),
    )
}

/// A piece of text in a message.
pub open spec fn text_piece(text: Seq<char>) -> Json {
    Json::Obj(
        Map::empty().insert("type"@, Json::Str("text"@)).insert("text"@, Json::Str(text)),
    )
}

/// A clip of audio in a message.
pub open spec fn audio_piece(wav: Seq<u8>) -> Json {
    Json::Obj(
        Map::empty().insert("type"@, Json::Str("input_audio"@)).insert(
            "input_audio"@,
            Json::Obj(
                Map::empty().insert("data"@, Json::Str(base64_of(wav))).insert(
                    "format"@,
                    Json::Str("wav"@),
                ),
            ),
        ),
    )
}

/// The pieces of a list of clips: each label in brackets, then its audio.
pub open spec fn clip_pieces(parts: Seq<AudioPart>) -> Seq<Json>
    decreases parts.len(),
{
    if parts.len() == 0 {
        Seq::empty()
    } else {
        clip_pieces(parts.drop_last()).push(
            text_piece(seq!['['] + parts.last().label@ + seq![']']),
        ).push(audio_piece(parts.last().wav@))
    }
}

/// Body of an audio chat: the prompt first, then the clips, all in one message.
pub open spec fn audio_body(
    model: Seq<char>,
    system: Seq<char>,
    prompt: Seq<char>,
    parts: Seq<AudioPart>,
) -> Json {
    Json::Obj(
        Map::empty().insert("model"@, Json::Str(model)).insert(
            "modalities"@,
            Json::Arr(seq![Json::Str("text"@)]),
        ).insert(
            "messages"@,
            Json::Arr(
                seq![
                    message("system"@, Json::Str(system)),
                    message("user"@, Json::Arr(seq![text_piece(prompt)] + clip_pieces(parts))),
                ],
            ),
        ),
    )
}

/// Build the body of a text chat.
pub fn build_chat_body(model: &str, system: &str, turns: &[Turn]) -> (body: serde_json::Value)
    ensures
        tree(body) == chat_body(model@, system@, turns@),
{
    let mut list: Vec<serde_json::Value> = Vec::new();
    let first = message_value("system", string_value(system.to_owned()));
    let ghost head = tree(first);
    list.push(first);
    assert(trees(list@) =~= seq![head]);
    push_turns(&mut list, turns);
    let mut table = no_members();
    put(&mut table, "model".to_owned(), string_value(model.to_owned()));
    put(&mut table, "messages".to_owned(), array_value(list));
    object_value(table)
}

fn text_value(text: String) -> (value: serde_json::Value)
    ensures
        tree(value) == text_piece(text@),
{
    let mut table = no_members();
    put(&mut table, "type".to_owned(), string_value("text".to_owned()));
    put(&mut table, "text".to_owned(), string_value(text));
    object_value(table)
}

fn audio_value(wav: &[u8]) -> (value: serde_json::Value)
    requires
        encodable(wav@.len() as int),
    ensures
        tree(value) == audio_piece(wav@),
{
    let mut inner = no_members();
    put(&mut inner, "data".to_owned(), string_value(base64_text(wav)));
    put(&mut inner, "format".to_owned(), string_value("wav".to_owned()));
    let mut table = no_members();
    put(&mut table, "type".to_owned(), string_value("input_audio".to_owned()));
    put(&mut table, "input_audio".to_owned(), object_value(inner));
    object_value(table)
}

/// Build the body of an audio chat.
pub fn build_audio_body(
    model: &str,
    system: &str,
    prompt: &str,
    parts: &[AudioPart],
) -> (body: serde_json::Value)
    requires
        forall|i: int|
            0 <= i < parts@.len() ==> encodable((#[trigger] parts@[i]).wav@.len() as int),
    ensures
        tree(body) == audio_body(model@, system@, prompt@, parts@),
{
    let mut content: Vec<serde_json::Value> = Vec::new();
    let lead = text_value(prompt.to_owned());
    content.push(lead);
    let ghost start = seq![text_piece(prompt@)];
    assert(trees(content@) =~= start + clip_pieces(parts@.take(0)));
    let mut i: usize = 0;
    while i < parts.len()
        invariant
            i <= parts@.len(),
            trees(content@) =~= start + clip_pieces(parts@.take(i as int)),
            forall|k: int|
                0 <= k < parts@.len() ==> encodable((#[trigger] parts@[k]).wav@.len() as int),
        decreases parts@.len() - i,
    {
        let ghost before = content@;
        assert(parts@.take(i + 1).drop_last() =~= parts@.take(i as int));
        let mut label = String::new();
        label.push('[');
        label.append(parts[i].label.as_str());
        label.push(']');
        assert(label@ =~= seq!['['] + parts@[i as int].label@ + seq![']']);
        let name = text_value(label);
        let clip = audio_value(parts[i].wav.as_slice());
        let ghost added = (tree(name), tree(clip));
        content.push(name);
        content.push(clip);
        assert(trees(content@) =~= trees(before).push(added.0).push(added.1));
        i = i + 1;
    }
    assert(parts@.take(i as int) =~= parts@);
    let mut modalities: Vec<serde_json::Value> = Vec::new();
    modalities.push(string_value("text".to_owned()));
    assert(trees(modalities@) =~= seq![Json::Str("text"@)]);
    let mut list: Vec<serde_json::Value> = Vec::new();
    list.push(message_value("system", string_value(system.to_owned())));
    list.push(message_value("user", array_value(content)));
    assert(trees(list@) =~= seq![
        message("system"@, Json::Str(system@)),
        message("user"@, Json::Arr(start + clip_pieces(parts@))),
    ]);
    let mut table = no_members();
    put(&mut table, "model".to_owned(), string_value(model.to_owned()));
    put(&mut table, "modalities".to_owned(), array_value(modalities));
    put(&mut table, "messages".to_owned(), array_value(list));
    object_value(table)
}

// ── Replies ───────────────────────────────────────────────────────────────────

/// The text that a reply carries at `choices[0].message.content`, trimmed.
pub open spec fn chat_reply(reply: Json) -> Option<Seq<char>> {
    match field(reply, "choices"@) {
        None => None,
        Some(choices) => match nth(choices, 0) {
            None => None,
            Some(choice) => match field(choice, "message"@) {
                None => None,
                Some(m) => match field(m, "content"@) {
                    None => None,
                    Some(content) => match text_in(content) {
                        None => None,
                        Some(text) => Some(trimmed(text)),
                    },
                },
            },
        },
    }
}

/// What is said of a reply without that text.
pub const NO_CHOICE: &'static str = "missing choices[0].message.content";

fn find_choice<'a>(json: &'a serde_json::Value) -> (found: Option<&'a str>)
    ensures
        match found {
            Some(text) => chat_reply(tree(*json)) == Some(trimmed(text@)),
            None => chat_reply(tree(*json)) is None,
        },
{
    let choices = match member(json, "choices") {
        Some(v) => v,
        None => return None,
    };
    let choice = match item(choices, 0) {
        Some(v) => v,
        None => return None,
    };
    let m = match member(choice, "message") {
        Some(v) => v,
        None => return None,
    };
    let content = match member(m, "content") {
        Some(v) => v,
        None => return None,
    };
    as_text(content)
}

/// The text of a reply.
pub fn parse_chat_response(json: &serde_json::Value) -> (reply: Result<String, LlmError>)
    ensures
        match chat_reply(tree(*json)) {
            Some(text) => reply matches Ok(t) && t@ == text,
            None => reply matches Err(LlmError::Malformed(m)) && m@ == NO_CHOICE@,
        },
{
    match find_choice(json) {
        Some(text) => Ok(trim(text).to_owned()),
        None => Err(LlmError::Malformed(NO_CHOICE.to_owned())),
    }
}

/// What is said of a reply that is no JSON.
pub const NO_JSON: &'static str = "reply is not JSON";

/// The text of a reply, from its raw bytes.
pub fn read_chat_response(bytes: &[u8]) -> (reply: Result<String, LlmError>)
    ensures
        match parsed(bytes@) {
            None => reply matches Err(LlmError::Request(m)) && m@ == NO_JSON@,
            Some(json) => match chat_reply(json) {
                Some(text) => reply matches Ok(t) && t@ == text,
                None => reply matches Err(LlmError::Malformed(m)) && m@ == NO_CHOICE@,
            },
        },
{
    match from_bytes(bytes) {
        Ok(json) => parse_chat_response(&json),
        Err(_) => Err(LlmError::Request(NO_JSON.to_owned())),
    }
}

// ── Client ────────────────────────────────────────────────────────────────────

impl OpenAiClient {
    /// A client with the given key, which must not be blank.
    pub fn new(api_key: String) -> (client: Result<Self, LlmError>)
        ensures
            is_blank(api_key@) ==> client == Err::<Self, LlmError>(LlmError::MissingKey),
            !is_blank(api_key@) ==> (client matches Ok(c) && c.api_key@ == api_key@ && c.endpoint@
                == OPENAI_ENDPOINT@),
    {
        if blank(api_key.as_str()) {
            return Err(LlmError::MissingKey);
        }
        Ok(OpenAiClient { api_key, endpoint: OPENAI_ENDPOINT.to_owned() })
    }

    /// The same client for another URL.
    pub fn with_endpoint(self, endpoint: String) -> (client: Self)
        ensures
            client.api_key == self.api_key,
            client.endpoint == endpoint,
    {
        OpenAiClient { api_key: self.api_key, endpoint }
    }

    fn post(&self, body: serde_json::Value) -> (post: Post)
        ensures
            post.url@ == self.endpoint@,
            post.bearer matches Some(b) && b@ == self.api_key@,
            post.headers@.len() == 0,
            post.body == body,
    {
        Post {
            url: self.endpoint.clone(),
            bearer: Some(self.api_key.clone()),
            headers: Vec::new(),
            body,
        }
    }

    /// The request of a text chat.
    pub fn chat(&self, model: &str, system: &str, turns: &[Turn]) -> (post: Post)
        ensures
            post.url@ == self.endpoint@,
            post.bearer matches Some(b) && b@ == self.api_key@,
            post.headers@.len() == 0,
            tree(post.body) == chat_body(model@, system@, turns@),
    {
        self.post(build_chat_body(model, system, turns))
    }

    /// The request of an audio chat.
    pub fn chat_audio(
        &self,
        model: &str,
        system: &str,
        prompt: &str,
        parts: &[AudioPart],
    ) -> (post: Post)
        requires
            forall|i: int|
                0 <= i < parts@.len() ==> encodable((#[trigger] parts@[i]).wav@.len() as int),
        ensures
            post.url@ == self.endpoint@,
            post.bearer matches Some(b) && b@ == self.api_key@,
            post.headers@.len() == 0,
            tree(post.body) == audio_body(model@, system@, prompt@, parts@),
    {
        self.post(build_audio_body(model, system, prompt, parts))
    }
}

// ── Laws ──────────────────────────────────────────────────────────────────────

/// A chat names its model and sends the system prompt, then every turn in order, and nothing
/// else.
pub proof fn law_chat_sends_prompt_and_turns(
    model: Seq<char>,
    system: Seq<char>,
    turns: Seq<Turn>,
)
    ensures
        ({
            let body = chat_body(model, system, turns);
            &&& field(body, "model"@) == Some(Json::Str(model))
            &&& field(body, "messages"@) matches Some(Json::Arr(list)) && {
                &&& list.len() == turns.len() + 1
                &&& field(list[0], "role"@) == Some(Json::Str("system"@))
                &&& field(list[0], "content"@) == Some(Json::Str(system))
                &&& list.skip(1) == messages(turns)
            }
            &&& body matches Json::Obj(m) && m.dom() =~= set!["model"@, "messages"@]
        }),
{
    reveal_strlit("model");
    reveal_strlit("messages");
    assert("model"@.len() != "messages"@.len());
    law_message_holds_role_and_content("system"@, Json::Str(system));
    let list = seq![message("system"@, Json::Str(system))] + messages(turns);
    assert(list.skip(1) =~= messages(turns));
}

/// A piece of text says so and holds the text; a clip says so and holds its bytes in base64
/// and their format.
pub proof fn law_pieces_say_what_they_are(text: Seq<char>, wav: Seq<u8>)
    ensures
        field(text_piece(text), "type"@) == Some(Json::Str("text"@)),
        field(text_piece(text), "text"@) == Some(Json::Str(text)),
        text_piece(text) matches Json::Obj(m) && m.dom() =~= set!["type"@, "text"@],
        field(audio_piece(wav), "type"@) == Some(Json::Str("input_audio"@)),
        field(audio_piece(wav), "input_audio"@) matches Some(inner) && {
            &&& field(inner, "data"@) == Some(Json::Str(base64_of(wav)))
            &&& field(inner, "format"@) == Some(Json::Str("wav"@))
            &&& inner matches Json::Obj(m) && m.dom() =~= set!["data"@, "format"@]
        },
        audio_piece(wav) matches Json::Obj(m) && m.dom() =~= set!["type"@, "input_audio"@],
{
    reveal_strlit("type");
    reveal_strlit("text");
    reveal_strlit("input_audio");
    reveal_strlit("data");
    reveal_strlit("format");
    assert("type"@[1] != "text"@[1]);
    assert("type"@.len() != "input_audio"@.len());
    assert("data"@.len() != "format"@.len());
}

/// Every clip is sent, in order: its label in brackets, and right behind it its audio.
pub proof fn law_every_clip_is_sent(parts: Seq<AudioPart>)
    ensures
        clip_pieces(parts).len() == 2 * parts.len(),
        forall|i: int|
            0 <= i < parts.len() ==> clip_pieces(parts)[2 * i] == text_piece(
                seq!['['] + (#[trigger] parts[i]).label@ + seq![']'],
            ) && clip_pieces(parts)[2 * i + 1] == audio_piece(parts[i].wav@),
    decreases parts.len(),
{
    if parts.len() > 0 {
        let most = parts.drop_last();
        law_every_clip_is_sent(most);
        assert forall|i: int| 0 <= i < parts.len() implies clip_pieces(parts)[2 * i] == text_piece(
            seq!['['] + (#[trigger] parts[i]).label@ + seq![']'],
        ) && clip_pieces(parts)[2 * i + 1] == audio_piece(parts[i].wav@) by {
            if i < most.len() {
                assert(most[i] == parts[i]);
                assert(clip_pieces(parts)[2 * i] == clip_pieces(most)[2 * i]);
                assert(clip_pieces(parts)[2 * i + 1] == clip_pieces(most)[2 * i + 1]);
            }
        }
    }
}

/// An audio chat names its model, asks for text, and sends the system prompt and then one
/// message of the operator's side: the prompt, and behind it the clips.
pub proof fn law_audio_chat_sends_prompt_and_clips(
    model: Seq<char>,
    system: Seq<char>,
    prompt: Seq<char>,
    parts: Seq<AudioPart>,
)
    ensures
        ({
            let body = audio_body(model, system, prompt, parts);
            &&& field(body, "model"@) == Some(Json::Str(model))
            &&& field(body, "modalities"@) == Some(Json::Arr(seq![Json::Str("text"@)]))
            &&& field(body, "messages"@) matches Some(Json::Arr(list)) && {
                &&& list.len() == 2
                &&& field(list[0], "role"@) == Some(Json::Str("system"@))
                &&& field(list[0], "content"@) == Some(Json::Str(system))
                &&& field(list[1], "role"@) == Some(Json::Str("user"@))
                &&& field(list[1], "content"@) matches Some(Json::Arr(content)) && content[0]
                    == text_piece(prompt) && content.skip(1) == clip_pieces(parts)
            }
            &&& body matches Json::Obj(m) && m.dom() =~= set![
                "model"@,
                "modalities"@,
                "messages"@,
            ]
        }),
{
    reveal_strlit("model");
    reveal_strlit("modalities");
    reveal_strlit("messages");
    assert("model"@.len() == 5 && "modalities"@.len() == 10 && "messages"@.len() == 8);
    let content = seq![text_piece(prompt)] + clip_pieces(parts);
    assert(content.skip(1) =~= clip_pieces(parts));
    law_message_holds_role_and_content("system"@, Json::Str(system));
    law_message_holds_role_and_content("user"@, Json::Arr(content));
}

/// A reply has a text exactly if its first choice has a message with a string for its content,
/// and the text is that string without the white space around it.
pub proof fn law_reply_is_the_first_choice(reply: Json)
    ensures
        ({
            let choices = field(reply, "choices"@);
            let choice = nth(choices->0, 0);
            let m = field(choice->0, "message"@);
            let content = field(m->0, "content"@);
            let there = choices is Some && choice is Some && m is Some && content is Some
                && content->0 is Str;
            &&& chat_reply(reply) is Some <==> there
            &&& there ==> chat_reply(reply) == Some(trimmed(content->0->Str_0))
        }),
{
}

/// What is asked where, and what is said where a reply cannot be read.
pub proof fn law_endpoint_and_messages()
    ensures
        OPENAI_ENDPOINT@ == "https://api.openai.com/v1/chat/completions"@,
        NO_CHOICE@ == "missing choices[0].message.content"@,
        NO_JSON@ == "reply is not JSON"@,
{
}

} // verus!
