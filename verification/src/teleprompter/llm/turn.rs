//! Turns of a conversation, and what can go wrong in one.

use vstd::prelude::*;

use crate::json::{field, no_members, object_value, put, string_value, tree, trees, Json};
use crate::listener::transcribe::api::openai::{is_success, success};

verus! {

/// Who speaks in a turn.
#[derive(Debug, Clone, Copy, PartialEq, Eq, Structural)]
pub enum Role {
    /// The operator's side.
    User,
    /// An earlier suggestion.
    Assistant,
}

impl Role {
    /// Name of the role on the wire.
    pub open spec fn name(self) -> Seq<char> {
        match self {
            Role::User => "user"@,
            Role::Assistant => "assistant"@,
        }
    }

    /// Name of the role on the wire.
    pub fn as_str(self) -> (name: &'static str)
        ensures
            name@ == self.name(),
    {
        match self {
            Role::User => "user",
            Role::Assistant => "assistant",
        }
    }
}

/// One turn of a conversation.
#[derive(Debug, PartialEq, Eq)]
pub struct Turn {
    pub role: Role,
    pub content: String,
}

impl Turn {
    /// A turn of the operator's side.
    pub fn user(content: String) -> (turn: Self)
        ensures
            turn == (Turn { role: Role::User, content }),
    {
        Turn { role: Role::User, content }
    }

    /// A turn of the model.
    pub fn assistant(content: String) -> (turn: Self)
        ensures
            turn == (Turn { role: Role::Assistant, content }),
    {
        Turn { role: Role::Assistant, content }
    }

    /// Another turn with the same content.
    pub fn copy(&self) -> (turn: Self)
        ensures
            turn == *self,
    {
        Turn { role: self.role, content: self.content.clone() }
    }
}

/// A labelled audio clip.
#[derive(Debug, Clone)]
pub struct AudioPart {
    /// Who speaks in it.
    pub label: String,
    /// Bytes of a WAV file.
    pub wav: Vec<u8>,
}

/// A failed chat call.
#[derive(Debug, Clone)]
pub enum LlmError {
    /// The key is blank.
    MissingKey,
    /// The request could not be made, or its reply not be read.
    Request(String),
    /// The provider refused.
    Status { status: u16, body: String },
    /// The reply has not the expected shape.
    Malformed(String),
    /// The provider takes no audio.
    Unsupported { backend: &'static str },
}

/// A request to post as JSON.
#[derive(Debug)]
pub struct Post {
    pub url: String,
    /// Bearer token, where the provider asks for one.
    pub bearer: Option<String>,
    /// Further headers in order.
    pub headers: Vec<(&'static str, String)>,
    pub body: serde_json::Value,
}

/// The error of a reply that does not tell success, if it does not.
pub fn refusal(status: u16, body: String) -> (error: Option<LlmError>)
    ensures
        error == (if is_success(status) {
            None
        } else {
            Some((LlmError::Status { status, body }))
        }),
{
    if success(status) {
        None
    } else {
        Some(LlmError::Status { status, body })
    }
}

/// One message of a conversation.
pub open spec fn message(role: Seq<char>, content: Json) -> Json {
    Json::Obj(Map::empty().insert("role"@, Json::Str(role)).insert("content"@, content))
}

/// The messages of a list of turns.
pub open spec fn messages(turns: Seq<Turn>) -> Seq<Json> {
    turns.map_values(|t: Turn| message(t.role.name(), Json::Str(t.content@)))
}

pub(crate) fn message_value(role: &str, content: serde_json::Value) -> (value: serde_json::Value)
    ensures
        tree(value) == message(role@, tree(content)),
{
    let mut table = no_members();
    put(&mut table, "role".to_owned(), string_value(role.to_owned()));
    put(&mut table, "content".to_owned(), content);
    object_value(table)
}

pub(crate) fn push_turns(list: &mut Vec<serde_json::Value>, turns: &[Turn])
    ensures
        trees(final(list)@) == trees(old(list)@) + messages(turns@),
{
    let ghost before = list@;
    let mut i: usize = 0;
    while i < turns.len()
        invariant
            i <= turns@.len(),
            trees(list@) =~= trees(before) + messages(turns@).take(i as int),
        decreases turns@.len() - i,
    {
        let ghost so_far = list@;
        let content = string_value(turns[i].content.clone());
        let value = message_value(turns[i].role.as_str(), content);
        let ghost added = tree(value);
        list.push(value);
        assert(trees(list@) =~= trees(so_far).push(added));
        assert(messages(turns@)[i as int] == added);
        i = i + 1;
    }
    assert(messages(turns@).take(i as int) =~= messages(turns@));
}

// ── Laws ──────────────────────────────────────────────────────────────────────

/// Every turn is sent: there is one message for each, at its place, with the name of its
/// role and its text, and nothing else in it.
pub proof fn law_every_turn_is_sent(turns: Seq<Turn>)
    ensures
        messages(turns).len() == turns.len(),
        forall|i: int|
            0 <= i < turns.len() ==> {
                let m = #[trigger] messages(turns)[i];
                &&& field(m, "role"@) == Some(
                    Json::Str(
                        match turns[i].role {
                            Role::User => "user"@,
                            Role::Assistant => "assistant"@,
                        },
                    ),
                )
                &&& field(m, "content"@) == Some(Json::Str(turns[i].content@))
                &&& m matches Json::Obj(members) && forall|key: Seq<char>|
                    members.dom().contains(key) ==> key == "role"@ || key == "content"@
            },
{
    reveal_strlit("role");
    reveal_strlit("content");
    assert("role"@.len() != "content"@.len());
}

/// The messages of a conversation that goes on are those of before and then the new ones.
pub proof fn law_messages_grow_with_turns(a: Seq<Turn>, b: Seq<Turn>)
    ensures
        messages(a + b) == messages(a) + messages(b),
{
    assert(messages(a + b) =~= messages(a) + messages(b));
}

/// A message holds its role and its content and nothing else.
pub proof fn law_message_holds_role_and_content(role: Seq<char>, content: Json)
    ensures
        field(message(role, content), "role"@) == Some(Json::Str(role)),
        field(message(role, content), "content"@) == Some(content),
        message(role, content) matches Json::Obj(members) && forall|key: Seq<char>|
            members.dom().contains(key) ==> key == "role"@ || key == "content"@,
{
    reveal_strlit("role");
    reveal_strlit("content");
    assert("role"@.len() != "content"@.len());
}

} // verus!
