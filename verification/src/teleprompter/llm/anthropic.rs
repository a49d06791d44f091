//! Anthropic Messages.

use vstd::prelude::*;

use super::openai::NO_JSON;
use super::turn::{messages, push_turns, LlmError, Post, Turn};
use crate::json::{
    array_value, as_items, as_text, field, from_bytes, member, no_members, number_value,
    object_value, parsed, put, string_value, text_in, tree, trees, Json,
};
use crate::listener::transcribe::api::openai::field_texts;
use crate::text::{blank, is_blank, trim, trimmed};

verus! {

/// Default URL.
pub const ANTHROPIC_ENDPOINT: &'static str = "https://api.anthropic.com/v1/messages";

/// Version header that the provider asks for.
pub const API_VERSION: &'static str = "2023-06-01";

/// Longest reply, in tokens.
pub const MAX_TOKENS: u32 = 1_024;

/// Anthropic chat client.
#[derive(Debug)]
pub struct AnthropicClient {
    pub api_key: String,
    pub endpoint: String,
}

/// Body of a text chat: the system prompt beside the turns.
pub open spec fn messages_body(model: Seq<char>, system: Seq<char>, turns: Seq<Turn>) -> Json {
    Json::Obj(
        Map::empty().insert("model"@, Json::Str(model)).insert(
            "max_tokens"@,
            Json::Int(MAX_TOKENS as int),
        ).insert("system"@, Json::Str(system)).insert("messages"@, Json::Arr(messages(turns))),
    )
}

/// Build the body of a text chat.
pub fn build_messages_body(model: &str, system: &str, turns: &[Turn]) -> (body: serde_json::Value)
    ensures
        tree(body) == messages_body(model@, system@, turns@),
{
    let mut list: Vec<serde_json::Value> = Vec::new();
    push_turns(&mut list, turns);
    assert(trees(list@) =~= messages(turns@));
    let mut table = no_members();
    put(&mut table, "model".to_owned(), string_value(model.to_owned()));
    put(&mut table, "max_tokens".to_owned(), number_value(MAX_TOKENS));
    put(&mut table, "system".to_owned(), string_value(system.to_owned()));
    put(&mut table, "messages".to_owned(), array_value(list));
    object_value(table)
}

/// The text of a content block, if it has one.
pub open spec fn block_text(block: Json) -> Option<Seq<char>> {
    match field(block, "text"@) {
        Some(value) => text_in(value),
        None => None,
    }
}

/// The first text among the blocks from `start` on.
pub open spec fn first_text(blocks: Seq<Json>, start: int) -> Option<Seq<char>>
    decreases blocks.len() - start,
{
    if start < 0 || start >= blocks.len() {
        None
    } else if block_text(blocks[start]) is Some {
        block_text(blocks[start])
    } else {
        first_text(blocks, start + 1)
    }
}

/// The first text block of a reply, trimmed.
pub open spec fn messages_reply(reply: Json) -> Option<Seq<char>> {
    match field(reply, "content"@) {
        Some(Json::Arr(blocks)) => match first_text(blocks, 0) {
            Some(text) => Some(trimmed(text)),
            None => None,
        },
        _ => None,
    }
}

/// What is said of a reply without a text block.
pub const NO_TEXT_BLOCK: &'static str = "no text block in content[]";

fn find_block<'a>(json: &'a serde_json::Value) -> (found: Option<&'a str>)
    ensures
        match found {
            Some(text) => messages_reply(tree(*json)) == Some(trimmed(text@)),
            None => messages_reply(tree(*json)) is None,
        },
{
    let content = match member(json, "content") {
        Some(v) => v,
        None => return None,
    };
    let blocks = match as_items(content) {
        Some(list) => list,
        None => return None,
    };
    let ghost all = trees(blocks@);
    let mut i: usize = 0;
    while i < blocks.len()
        invariant
            i <= blocks@.len(),
            all == trees(blocks@),
            first_text(all, 0) == first_text(all, i as int),
            field(tree(*json), "content"@) == Some(Json::Arr(all)),
        decreases blocks@.len() - i,
    {
        assert(all[i as int] == tree(blocks@[i as int]));
        match member(&blocks[i], "text") {
            Some(value) => match as_text(value) {
                Some(text) => return Some(text),
                None => {},
            },
            None => {},
        }
        i = i + 1;
    }
    None
}

/// The text of a reply.
pub fn parse_messages_response(json: &serde_json::Value) -> (reply: Result<String, LlmError>)
    ensures
        match messages_reply(tree(*json)) {
            Some(text) => reply matches Ok(t) && t@ == text,
            None => reply matches Err(LlmError::Malformed(m)) && m@ == NO_TEXT_BLOCK@,
        },
{
    match find_block(json) {
        Some(text) => Ok(trim(text).to_owned()),
        None => Err(LlmError::Malformed(NO_TEXT_BLOCK.to_owned())),
    }
}

/// The text of a reply, from its raw bytes.
pub fn read_messages_response(bytes: &[u8]) -> (reply: Result<String, LlmError>)
    ensures
        match parsed(bytes@) {
            None => reply matches Err(LlmError::Request(m)) && m@ == NO_JSON@,
            Some(json) => match messages_reply(json) {
                Some(text) => reply matches Ok(t) && t@ == text,
                None => reply matches Err(LlmError::Malformed(m)) && m@ == NO_TEXT_BLOCK@,
            },
        },
{
    match from_bytes(bytes) {
        Ok(json) => parse_messages_response(&json),
        Err(_) => Err(LlmError::Request(NO_JSON.to_owned())),
    }
}

/// The headers of a request.
pub open spec fn key_headers(key: Seq<char>) -> Seq<(Seq<char>, Seq<char>)> {
    seq![("x-api-key"@, key), ("anthropic-version"@, API_VERSION@)]
}

impl AnthropicClient {
    /// A client with the given key, which must not be blank.
    pub fn new(api_key: String) -> (client: Result<Self, LlmError>)
        ensures
            is_blank(api_key@) ==> client == Err::<Self, LlmError>(LlmError::MissingKey),
            !is_blank(api_key@) ==> (client matches Ok(c) && c.api_key@ == api_key@ && c.endpoint@
                == ANTHROPIC_ENDPOINT@),
    {
        if blank(api_key.as_str()) {
            return Err(LlmError::MissingKey);
        }
        Ok(AnthropicClient { api_key, endpoint: ANTHROPIC_ENDPOINT.to_owned() })
    }

    /// The same client for another URL.
    pub fn with_endpoint(self, endpoint: String) -> (client: Self)
        ensures
            client.api_key == self.api_key,
            client.endpoint == endpoint,
    {
        AnthropicClient { api_key: self.api_key, endpoint }
    }

    /// The request of a text chat.
    pub fn chat(&self, model: &str, system: &str, turns: &[Turn]) -> (post: Post)
        ensures
            post.url@ == self.endpoint@,
            post.bearer is None,
            field_texts(post.headers@) == key_headers(
                self.api_key@,
            ),
            tree(post.body) == messages_body(model@, system@, turns@),
    {
        let mut headers: Vec<(&'static str, String)> = Vec::new();
        headers.push(("x-api-key", self.api_key.clone()));
        headers.push(("anthropic-version", API_VERSION.to_owned()));
        assert(field_texts(headers@) =~= key_headers(
            self.api_key@,
        ));
        Post {
            url: self.endpoint.clone(),
            bearer: None,
            headers,
            body: build_messages_body(model, system, turns),
        }
    }
}

// ── Laws ──────────────────────────────────────────────────────────────────────

/// A chat names its model and the longest reply, and sends the system prompt beside every
/// turn, in order, and nothing else.
pub proof fn law_chat_sends_prompt_beside_turns(
    model: Seq<char>,
    system: Seq<char>,
    turns: Seq<Turn>,
)
    ensures
        ({
            let body = messages_body(model, system, turns);
            &&& field(body, "model"@) == Some(Json::Str(model))
            &&& field(body, "max_tokens"@) == Some(Json::Int(1_024))
            &&& field(body, "system"@) == Some(Json::Str(system))
            &&& field(body, "messages"@) == Some(Json::Arr(messages(turns)))
            &&& body matches Json::Obj(m) && m.dom() =~= set![
                "model"@,
                "max_tokens"@,
                "system"@,
                "messages"@,
            ]
        }),
{
    reveal_strlit("model");
    reveal_strlit("max_tokens");
    reveal_strlit("system");
    reveal_strlit("messages");
    assert("model"@.len() == 5 && "max_tokens"@.len() == 10 && "system"@.len() == 6
        && "messages"@.len() == 8);
}

/// The text among some blocks is that of the first one that has a string for its text; there
/// is none exactly if no block has one.
pub proof fn law_first_text_is_taken(blocks: Seq<Json>, start: int)
    requires
        0 <= start,
    ensures
        match first_text(blocks, start) {
            Some(text) => exists|k: int|
                {
                    &&& start <= k < blocks.len()
                    &&& field(#[trigger] blocks[k], "text"@) == Some(Json::Str(text))
                    &&& forall|j: int|
                        start <= j < k ==> !(field(#[trigger] blocks[j], "text"@) matches Some(
                            Json::Str(_),
                        ))
                },
            None => forall|j: int|
                start <= j < blocks.len() ==> !(field(#[trigger] blocks[j], "text"@) matches Some(
                    Json::Str(_),
                )),
        },
    decreases blocks.len() - start,
{
    if start < blocks.len() && block_text(blocks[start]) is None {
        law_first_text_is_taken(blocks, start + 1);
    }
}

/// A reply has a text exactly if its content is a list with some text in it, and the text is
/// the first one without the white space around it.
pub proof fn law_reply_is_the_first_text(reply: Json)
    ensures
        match field(reply, "content"@) {
            Some(Json::Arr(blocks)) => {
                &&& messages_reply(reply) is Some <==> first_text(blocks, 0) is Some
                &&& first_text(blocks, 0) is Some ==> messages_reply(reply) == Some(
                    trimmed(first_text(blocks, 0)->0),
                )
            },
            _ => messages_reply(reply) is None,
        },
{
}

/// The key goes in a header, and beside it the version of the interface.
pub proof fn law_headers_carry_key_and_version(key: Seq<char>)
    ensures
        key_headers(key).len() == 2,
        key_headers(key)[0].0 == "x-api-key"@ && key_headers(key)[0].1 == key,
        key_headers(key)[1].0 == "anthropic-version"@ && key_headers(key)[1].1 == "2023-06-01"@,
        ANTHROPIC_ENDPOINT@ == "https://api.anthropic.com/v1/messages"@,
        NO_TEXT_BLOCK@ == "no text block in content[]"@,
{
}

} // verus!
