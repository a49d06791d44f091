//! From a frozen window to a suggestion.
//!
//! A pipe labels the transcript, sends it with its history, and takes the reply. Only
//! a reply changes the history: a failed call leaves it as it was.

use vstd::prelude::*;

use super::llm::backend::Backend;
use super::llm::turn::{LlmError, Post, Role, Turn};
use super::window::Window;
use crate::listener::transcribe::api::openai::ApiError;
use crate::text::{trim, trimmed};

verus! {

/// How the two sides are named in the transcript.
#[derive(Debug, Clone)]
pub struct Labels {
    pub mic: String,
    pub system: String,
}

/// What a pipe made of a window.
#[derive(Debug, Clone)]
pub struct PipeOutcome {
    pub mic_text: String,
    pub sys_text: String,
    pub reply: String,
}

/// A failed run of a pipe.
#[derive(Debug, Clone)]
pub enum PipeError {
    /// The chat call failed.
    Llm(LlmError),
    /// The transcription failed.
    Transcribe(ApiError),
}

/// What the runs of a pipe share.
#[derive(Debug)]
pub struct PipeContext<'a> {
    pub backend: &'a Backend,
    pub system_prompt: &'a str,
    pub labels: &'a Labels,
}

/// What a pipe sends for a window.
#[derive(Debug)]
pub struct PipeRequest {
    pub mic_text: String,
    pub sys_text: String,
    /// The labelled transcript.
    pub content: String,
    /// The chat request: the history with that transcript behind it.
    pub post: Post,
}

// ── Transcript ────────────────────────────────────────────────────────────────

/// What is sent for a window without speech.
pub const NO_SPEECH: &'static str = "(no speech detected in this window)";

/// One side of the transcript.
pub open spec fn side(label: Seq<char>, text: Seq<char>) -> Seq<char> {
    label + ": "@ + text
}

/// The labelled transcript, the other party first; an empty side is left out.
pub open spec fn transcript(mic: Seq<char>, sys: Seq<char>, labels: Labels) -> Seq<char> {
    if sys.len() > 0 && mic.len() > 0 {
        side(labels.system@, sys) + seq!['\n'] + side(labels.mic@, mic)
    } else if sys.len() > 0 {
        side(labels.system@, sys)
    } else if mic.len() > 0 {
        side(labels.mic@, mic)
    } else {
        NO_SPEECH@
    }
}

fn append_side(out: &mut String, label: &str, text: &str)
    ensures
        final(out)@ == old(out)@ + side(label@, text@),
{
    out.append(label);
    out.append(": ");
    out.append(text);
    assert(out@ =~= old(out)@ + side(label@, text@));
}

/// The labelled transcript of a window.
pub fn label_transcript(mic: &str, sys: &str, labels: &Labels) -> (content: String)
    ensures
        content@ == transcript(mic@, sys@, *labels),
{
    let mut content = String::new();
    if !sys.is_empty() {
        append_side(&mut content, labels.system.as_str(), sys);
        assert(content@ =~= side(labels.system@, sys@));
    }
    if !mic.is_empty() {
        if !sys.is_empty() {
            content.push('\n');
        }
        append_side(&mut content, labels.mic.as_str(), mic);
    }
    if sys.is_empty() && mic.is_empty() {
        content = NO_SPEECH.to_owned();
    }
    assert(content@ =~= transcript(mic@, sys@, *labels));
    content
}

// ── History ───────────────────────────────────────────────────────────────────

/// The history with one turn of the operator's side behind it.
pub open spec fn asked(history: Seq<Turn>, content: String) -> Seq<Turn> {
    history.push(Turn { role: Role::User, content })
}

/// The history after a call: a reply adds the question and itself, a failure nothing.
pub open spec fn committed(
    history: Seq<Turn>,
    content: String,
    outcome: Result<String, LlmError>,
) -> Seq<Turn> {
    match outcome {
        Ok(reply) => asked(history, content).push(Turn { role: Role::Assistant, content: reply }),
        Err(_) => history,
    }
}

/// The turns to send: the history and the new question. The history itself stays.
pub fn request_turns(history: &Vec<Turn>, content: &String) -> (turns: Vec<Turn>)
    ensures
        turns@ == asked(history@, *content),
{
    let mut turns: Vec<Turn> = Vec::new();
    let mut i: usize = 0;
    while i < history.len()
        invariant
            i <= history@.len(),
            turns@ =~= history@.take(i as int),
        decreases history@.len() - i,
    {
        turns.push(history[i].copy());
        i = i + 1;
    }
    turns.push(Turn::user(content.clone()));
    assert(turns@ =~= asked(history@, *content));
    turns
}

/// Take what a chat call came to.
pub fn chat_and_commit(
    history: &mut Vec<Turn>,
    content: String,
    outcome: Result<String, LlmError>,
) -> (reply: Result<String, PipeError>)
    ensures
        final(history)@ == committed(old(history)@, content, outcome),
        reply == (match outcome {
            Ok(text) => Ok::<String, PipeError>(text),
            Err(e) => Err::<String, PipeError>(PipeError::Llm(e)),
        }),
{
    match outcome {
        Ok(reply) => {
            history.push(Turn::user(content));
            history.push(Turn::assistant(reply.clone()));
            Ok(reply)
        },
        Err(e) => Err(PipeError::Llm(e)),
    }
}

// ── Pipes ─────────────────────────────────────────────────────────────────────

impl PipeRequest {
    /// Whether this is what is sent for the two texts on top of a history.
    pub open spec fn is_for(
        self,
        mic: Seq<char>,
        sys: Seq<char>,
        history: Seq<Turn>,
        model: Seq<char>,
        ctx: PipeContext,
    ) -> bool {
        &&& self.mic_text@ == trimmed(mic)
        &&& self.sys_text@ == trimmed(sys)
        &&& self.content@ == transcript(trimmed(mic), trimmed(sys), *ctx.labels)
        &&& ctx.backend.asks_chat(
            self.post,
            model,
            ctx.system_prompt@,
            asked(history, self.content),
        )
    }

    fn of(mic: &str, sys: &str, history: &Vec<Turn>, model: &str, ctx: &PipeContext) -> (request:
        PipeRequest)
        ensures
            request.is_for(mic@, sys@, history@, model@, *ctx),
    {
        let mic_text = trim(mic).to_owned();
        let sys_text = trim(sys).to_owned();
        let content = label_transcript(mic_text.as_str(), sys_text.as_str(), ctx.labels);
        let turns = request_turns(history, &content);
        let post = ctx.backend.chat(model, ctx.system_prompt, turns.as_slice());
        PipeRequest { mic_text, sys_text, content, post }
    }

    /// Take what the chat call came to, and report the window's outcome.
    pub fn finish(self, history: &mut Vec<Turn>, outcome: Result<String, LlmError>) -> (done:
        Result<PipeOutcome, PipeError>)
        ensures
            final(history)@ == committed(old(history)@, self.content, outcome),
            match outcome {
                Ok(reply) => done == Ok::<PipeOutcome, PipeError>(
                    (PipeOutcome { mic_text: self.mic_text, sys_text: self.sys_text, reply }),
                ),
                Err(e) => done == Err::<PipeOutcome, PipeError>(PipeError::Llm(e)),
            },
    {
        match chat_and_commit(history, self.content, outcome) {
            Ok(reply) => Ok(
                PipeOutcome { mic_text: self.mic_text, sys_text: self.sys_text, reply },
            ),
            Err(e) => Err(e),
        }
    }
}

/// What the live pipe sends for a window: the transcript that came in while it ran.
pub fn run_live<T>(
    window: &Window<T>,
    history: &Vec<Turn>,
    model: &str,
    ctx: &PipeContext,
) -> (request: PipeRequest)
    ensures
        request.is_for(window.mic_text@, window.sys_text@, history@, model@, *ctx),
{
    PipeRequest::of(
        window.mic_text.as_str(),
        window.sys_text.as_str(),
        history,
        model,
        ctx,
    )
}

/// The text of a side that needs no transcription: one without audio is empty.
pub fn transcribe_side<T>(samples: &[T]) -> (text: Option<String>)
    ensures
        match text {
            Some(t) => samples@.len() == 0 && t@.len() == 0,
            None => samples@.len() > 0,
        },
{
    if samples.len() == 0 {
        Some(String::new())
    } else {
        None
    }
}

/// What the chunk pipe sends for a window, given what the transcription of its two sides
/// came to. A side that failed fails the run, the operator's side before the other.
pub fn run_chunk(
    mic: Result<String, ApiError>,
    sys: Result<String, ApiError>,
    history: &Vec<Turn>,
    model: &str,
    ctx: &PipeContext,
) -> (request: Result<PipeRequest, PipeError>)
    ensures
        match (mic, sys) {
            (Ok(m), Ok(s)) => request matches Ok(r) && r.is_for(
                m@,
                s@,
                history@,
                model@,
                *ctx,
            ),
            (Err(e), _) => request == Err::<PipeRequest, PipeError>(PipeError::Transcribe(e)),
            (_, Err(e)) => request == Err::<PipeRequest, PipeError>(PipeError::Transcribe(e)),
        },
{
    match (mic, sys) {
        (Ok(m), Ok(s)) => Ok(PipeRequest::of(m.as_str(), s.as_str(), history, model, ctx)),
        (Err(e), _) => Err(PipeError::Transcribe(e)),
        (_, Err(e)) => Err(PipeError::Transcribe(e)),
    }
}

// ── Laws ──────────────────────────────────────────────────────────────────────

/// A failed call leaves the history untouched.
pub proof fn law_failure_keeps_history(history: Seq<Turn>, content: String, e: LlmError)
    ensures
        committed(history, content, Err(e)) == history,
{
}

/// A reply adds exactly the question and the answer, behind everything that was there.
pub proof fn law_reply_extends_history(history: Seq<Turn>, content: String, reply: String)
    ensures
        ({
            let after = committed(history, content, Ok(reply));
            &&& after.len() == history.len() + 2
            &&& after.take(history.len() as int) == history
            &&& after[history.len() as int] == (Turn { role: Role::User, content })
            &&& after[history.len() as int + 1] == (Turn { role: Role::Assistant, content: reply })
        }),
{
    let after = committed(history, content, Ok(reply));
    assert(after.take(history.len() as int) =~= history);
}

/// Over any number of calls the history keeps alternating, the operator's side first.
pub proof fn law_history_alternates(
    history: Seq<Turn>,
    content: String,
    outcome: Result<String, LlmError>,
)
    requires
        alternates(history),
    ensures
        alternates(committed(history, content, outcome)),
{
}

/// What is sent of a window: a line for each side that spoke, the other party's before the
/// operator's, each with its label; and where nobody spoke, that nobody did.
pub proof fn law_transcript_labels_both_sides(mic: Seq<char>, sys: Seq<char>, labels: Labels)
    ensures
        ({
            let sent = transcript(mic, sys, labels);
            &&& sys.len() > 0 && mic.len() > 0 ==> sent == labels.system@ + seq![':', ' '] + sys
                + seq!['\n'] + labels.mic@ + seq![':', ' '] + mic
            &&& sys.len() > 0 && mic.len() == 0 ==> sent == labels.system@ + seq![':', ' '] + sys
            &&& sys.len() == 0 && mic.len() > 0 ==> sent == labels.mic@ + seq![':', ' '] + mic
            &&& sys.len() == 0 && mic.len() == 0 ==> sent == "(no speech detected in this window)"@
        }),
{
    reveal_strlit(": ");
    assert(": "@ =~= seq![':', ' ']);
    let sent = transcript(mic, sys, labels);
    if sys.len() > 0 && mic.len() > 0 {
        assert(sent =~= labels.system@ + seq![':', ' '] + sys + seq!['\n'] + labels.mic@ + seq![
            ':',
            ' ',
        ] + mic);
    }
}

/// A question goes out behind everything that was said before.
pub proof fn law_question_follows_the_history(history: Seq<Turn>, content: String)
    ensures
        asked(history, content).len() == history.len() + 1,
        asked(history, content).take(history.len() as int) == history,
        asked(history, content).last() == (Turn { role: Role::User, content }),
{
    assert(asked(history, content).take(history.len() as int) =~= history);
}

/// What a request holds: the two texts without white space around them, the transcript of
/// these, and a chat that asks with it on top of the history.
pub proof fn law_request_asks_with_the_transcript(
    request: PipeRequest,
    mic: Seq<char>,
    sys: Seq<char>,
    history: Seq<Turn>,
    model: Seq<char>,
    ctx: PipeContext,
)
    requires
        request.is_for(mic, sys, history, model, ctx),
    ensures
        request.mic_text@ == trimmed(mic),
        request.sys_text@ == trimmed(sys),
        request.content@ == transcript(trimmed(mic), trimmed(sys), *ctx.labels),
        ctx.backend.asks_chat(
            request.post,
            model,
            ctx.system_prompt@,
            history.push(Turn { role: Role::User, content: request.content }),
        ),
{
}

/// Whether questions and answers alternate, and every question has its answer.
pub open spec fn alternates(history: Seq<Turn>) -> bool {
    &&& history.len() % 2 == 0
    &&& forall|i: int|
        0 <= i < history.len() ==> (#[trigger] history[i]).role == (if i % 2 == 0 {
            Role::User
        } else {
            Role::Assistant
        })
}

} // verus!
