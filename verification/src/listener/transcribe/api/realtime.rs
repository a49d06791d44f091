//! Live transcription over a WebSocket: the messages of a session.
//!
//! Audio goes up as base64 in JSON messages; transcript events come down as JSON
//! frames. The service takes 24 kHz, the capture gives 16 kHz.

use vstd::prelude::*;
use vstd::utf8::encode_utf8;

use crate::base64_text::{base64_of, base64_text, encodable};
use crate::bytes::{pcm16, push_pcm16};
use crate::json::{
    field, is_flat, no_members, object_value, parsed, put, string_value, to_text, tree, written, Json,
};
use crate::text::{blank, is_blank, same, trim, trimmed};

verus! {

/// A transcript event of the service.
#[derive(Debug, Clone)]
pub enum TranscriptEvent {
    /// A piece of an utterance that goes on.
    Delta(String),
    /// A whole utterance.
    Completed(String),
}

/// A failed live session.
#[derive(Debug, Clone)]
pub enum RealtimeError {
    /// The key is blank.
    MissingKey,
    /// The upgrade request could not be built.
    Request(String),
    /// The connection failed.
    WebSocket(String),
    /// The service reported an error.
    Protocol { code: String, message: String },
    /// The connection ended.
    Closed,
    /// A message could not be written or read as JSON.
    Json(String),
}

/// The `error` member of a frame.
#[derive(Debug, Clone)]
pub struct ServerError {
    pub code: String,
    pub message: String,
}

/// What is read of a frame.
#[derive(Debug, Clone)]
pub struct Frame {
    /// The member `type`.
    pub event_type: String,
    pub delta: Option<String>,
    pub transcript: Option<String>,
    pub error: Option<ServerError>,
}

/// What came over the connection.
#[derive(Debug)]
pub enum Incoming {
    /// The stream has ended.
    Ended,
    /// Reading failed.
    Failed(String),
    /// A close frame.
    Close,
    /// A text frame, as it was read.
    Text(Result<Frame, String>),
    /// A frame of another kind: ping, pong, binary.
    Other,
}

/// What a frame means to the reader of events.
#[derive(Debug)]
pub enum Received {
    /// Nothing; read on.
    Ignore,
    /// An event, or none where the frame only tells of the session's life.
    Event(Option<TranscriptEvent>),
}

// ── Connecting ────────────────────────────────────────────────────────────────

/// The `Authorization` header of a session.
pub fn authorization(api_key: &str) -> (header: Result<String, RealtimeError>)
    ensures
        is_blank(api_key@) ==> header == Err::<String, RealtimeError>(RealtimeError::MissingKey),
        !is_blank(api_key@) ==> (header matches Ok(h) && h@ == "Bearer "@ + trimmed(api_key@)),
{
    if blank(api_key) {
        return Err(RealtimeError::MissingKey);
    }
    let mut header = "Bearer ".to_owned();
    header.append(trim(api_key));
    Ok(header)
}

/// A message as the text that is sent.
pub fn message_text(message: &serde_json::Value) -> (text: Result<String, RealtimeError>)
    ensures
        text matches Ok(s) && s@ == written(tree(*message)),
        text matches Ok(s) ==> (is_flat(tree(*message)) ==> parsed(encode_utf8(s@)) == Some(
            tree(*message),
        )),
{
    match to_text(message) {
        Ok(text) => Ok(text),
        Err(_) => Err(RealtimeError::Json("message could not be serialised".to_owned())),
    }
}

// ── Audio up ──────────────────────────────────────────────────────────────────

/// One sample at the service's rate: a captured one, or one that lies between two of
/// them, a third of the way from the nearer to the farther.
#[derive(Debug, Clone, Copy)]
pub enum Tap<T> {
    Whole(T),
    Blend { near: T, far: T },
}

/// 16 kHz audio at 24 kHz: three samples for two, and an odd last one as it is.
pub open spec fn resampled<T>(samples: Seq<T>) -> Seq<Tap<T>> {
    Seq::new(
        samples.len() / 2 * 3 + samples.len() % 2,
        |k: int|
            {
                let first = samples[k / 3 * 2];
                let second = samples[k / 3 * 2 + 1];
                if k % 3 == 0 {
                    Tap::Whole(first)
                } else if k % 3 == 1 {
                    Tap::Blend { near: first, far: second }
                } else {
                    Tap::Blend { near: second, far: first }
                }
            },
    )
}

/// 16 kHz audio at 24 kHz.
pub fn resample_16k_to_24k<T: Copy>(samples: &[T]) -> (taps: Vec<Tap<T>>)
    requires
        samples@.len() / 2 * 3 + samples@.len() % 2 <= usize::MAX,
    ensures
        taps@ == resampled(samples@),
{
    let mut taps: Vec<Tap<T>> = Vec::new();
    let len: usize = samples.len();
    let pairs: usize = len / 2;
    let mut i: usize = 0;
    while i < pairs
        invariant
            i <= pairs,
            pairs == len / 2,
            len == samples@.len(),
            taps@.len() == 3 * i,
            taps@ =~= resampled(samples@).take(3 * i),
        decreases pairs - i,
    {
        let a = samples[i * 2];
        let b = samples[i * 2 + 1];
        taps.push(Tap::Whole(a));
        taps.push(Tap::Blend { near: a, far: b });
        taps.push(Tap::Blend { near: b, far: a });
        proof {
            let all = resampled(samples@);
            assert((3 * i) / 3 == i && (3 * i) % 3 == 0);
            assert((3 * i + 1) / 3 == i && (3 * i + 1) % 3 == 1);
            assert((3 * i + 2) / 3 == i && (3 * i + 2) % 3 == 2);
            assert(taps@ =~= all.take(3 * i).push(all[3 * i]).push(all[3 * i + 1]).push(
                all[3 * i + 2],
            ));
        }
        i = i + 1;
    }
    if len % 2 == 1 {
        taps.push(Tap::Whole(samples[len - 1]));
        assert((3 * pairs) / 3 == pairs && (3 * pairs) % 3 == 0);
    }
    assert(taps@ =~= resampled(samples@));
    taps
}

/// The message that appends audio to the service's buffer.
pub open spec fn append_message(words: Seq<i16>) -> Json {
    Json::Obj(
        Map::empty().insert("type"@, Json::Str("input_audio_buffer.append"@)).insert(
            "audio"@,
            Json::Str(base64_of(pcm16(words))),
        ),
    )
}

/// The message that asks for a transcript of the service's buffer.
pub open spec fn commit_message() -> Json {
    Json::Obj(Map::empty().insert("type"@, Json::Str("input_audio_buffer.commit"@)))
}

/// The text that appends 24 kHz audio, or nothing where there is no audio.
pub fn feed_message(words: &[i16]) -> (text: Result<Option<String>, RealtimeError>)
    requires
        words@.len() * 2 <= usize::MAX,
        encodable(words@.len() as int * 2),
    ensures
        words@.len() == 0 ==> text == Ok::<Option<String>, RealtimeError>(None),
        words@.len() > 0 ==> (text matches Ok(Some(s)) && s@ == written(append_message(words@))
            && parsed(encode_utf8(s@)) == Some(append_message(words@))),
{
    if words.len() == 0 {
        return Ok(None);
    }
    let mut bytes: Vec<u8> = Vec::new();
    push_pcm16(&mut bytes, words);
    assert(bytes@ =~= pcm16(words@));
    let mut table = no_members();
    put(&mut table, "type".to_owned(), string_value("input_audio_buffer.append".to_owned()));
    put(&mut table, "audio".to_owned(), string_value(base64_text(bytes.as_slice())));
    let message = object_value(table);
    match message_text(&message) {
        Ok(text) => Ok(Some(text)),
        Err(e) => Err(e),
    }
}

/// The text that asks for a transcript of what has been fed.
pub fn commit_text() -> (text: Result<String, RealtimeError>)
    ensures
        text matches Ok(s) && s@ == written(commit_message()) && parsed(encode_utf8(s@)) == Some(
            commit_message(),
        ),
{
    let mut table = no_members();
    put(&mut table, "type".to_owned(), string_value("input_audio_buffer.commit".to_owned()));
    let message = object_value(table);
    message_text(&message)
}

// ── Events down ───────────────────────────────────────────────────────────────

/// Whether frames of this type carry a piece of an utterance.
pub open spec fn is_delta(event_type: Seq<char>) -> bool {
    ||| event_type == "conversation.item.input_audio_transcription.delta"@
    ||| event_type == "response.audio_transcript.delta"@
}

/// Whether frames of this type carry a whole utterance.
pub open spec fn is_completed(event_type: Seq<char>) -> bool {
    ||| event_type == "conversation.item.input_audio_transcription.completed"@
    ||| event_type == "response.audio_transcript.done"@
}

/// The text of an optional member: empty where it is absent.
pub open spec fn text_or_empty(text: Option<String>) -> Seq<char> {
    match text {
        Some(t) => t@,
        None => Seq::empty(),
    }
}

fn or_empty(text: Option<String>) -> (s: String)
    ensures
        s@ == text_or_empty(text),
{
    match text {
        Some(t) => t,
        None => String::new(),
    }
}

/// The code that stands for one that the service left out.
pub fn unknown_code() -> (code: String)
    ensures
        code@ == "unknown"@,
{
    "unknown".to_owned()
}

/// What an `error` frame reports.
pub open spec fn reported(error: Option<ServerError>) -> (Seq<char>, Seq<char>) {
    match error {
        Some(e) => (e.code@, e.message@),
        None => ("unknown"@, "unknown server error"@),
    }
}

/// The event of a frame: transcript text, an error, or nothing for the frames that only
/// tell of the session's life.
pub fn parse_server_event(frame: Frame) -> (event: Result<Option<TranscriptEvent>, RealtimeError>)
    ensures
        if is_delta(frame.event_type@) {
            event matches Ok(Some(TranscriptEvent::Delta(t))) && t@ == text_or_empty(frame.delta)
        } else if is_completed(frame.event_type@) {
            event matches Ok(Some(TranscriptEvent::Completed(t))) && t@ == text_or_empty(
                frame.transcript,
            )
        } else if frame.event_type@ == "error"@ {
            event matches Err(RealtimeError::Protocol { code, message }) && (code@, message@)
                == reported(frame.error)
        } else {
            event == Ok::<Option<TranscriptEvent>, RealtimeError>(None)
        },
{
    let kind = frame.event_type.as_str();
    if same(kind, "conversation.item.input_audio_transcription.delta") || same(
        kind,
        "response.audio_transcript.delta",
    ) {
        return Ok(Some(TranscriptEvent::Delta(or_empty(frame.delta))));
    }
    if same(kind, "conversation.item.input_audio_transcription.completed") || same(
        kind,
        "response.audio_transcript.done",
    ) {
        return Ok(Some(TranscriptEvent::Completed(or_empty(frame.transcript))));
    }
    if same(kind, "error") {
        return match frame.error {
            Some(e) => Err(RealtimeError::Protocol { code: e.code, message: e.message }),
            None => Err(
                RealtimeError::Protocol {
                    code: unknown_code(),
                    message: "unknown server error".to_owned(),
                },
            ),
        };
    }
    Ok(None)
}

/// What something that came over the connection means.
pub fn next_event(incoming: Incoming) -> (received: Result<Received, RealtimeError>)
    ensures
        match incoming {
            Incoming::Ended | Incoming::Close => received == Err::<Received, RealtimeError>(
                RealtimeError::Closed,
            ),
            Incoming::Failed(why) => received == Err::<Received, RealtimeError>(
                RealtimeError::WebSocket(why),
            ),
            Incoming::Text(Err(why)) => received == Err::<Received, RealtimeError>(
                RealtimeError::Json(why),
            ),
            Incoming::Other => received matches Ok(Received::Ignore),
            Incoming::Text(Ok(frame)) => {
                if is_delta(frame.event_type@) {
                    received matches Ok(Received::Event(Some(TranscriptEvent::Delta(t)))) && t@
                        == text_or_empty(frame.delta)
                } else if is_completed(frame.event_type@) {
                    received matches Ok(Received::Event(Some(TranscriptEvent::Completed(t)))) && t@
                        == text_or_empty(frame.transcript)
                } else if frame.event_type@ == "error"@ {
                    received matches Err(RealtimeError::Protocol { code, message }) && (
                        code@,
                        message@,
                    ) == reported(frame.error)
                } else {
                    received matches Ok(Received::Event(None))
                }
            },
        },
{
    match incoming {
        Incoming::Ended => Err(RealtimeError::Closed),
        Incoming::Close => Err(RealtimeError::Closed),
        Incoming::Failed(why) => Err(RealtimeError::WebSocket(why)),
        Incoming::Text(Err(why)) => Err(RealtimeError::Json(why)),
        Incoming::Other => Ok(Received::Ignore),
        Incoming::Text(Ok(frame)) => match parse_server_event(frame) {
            Ok(event) => Ok(Received::Event(event)),
            Err(e) => Err(e),
        },
    }
}

// ── Laws ──────────────────────────────────────────────────────────────────────

/// Resampling an even number of samples and then the rest gives the same as resampling
/// all of them: chunks of even length can go up one by one.
pub proof fn law_resample_in_parts<T>(a: Seq<T>, b: Seq<T>)
    requires
        a.len() % 2 == 0,
    ensures
        resampled(a + b) == resampled(a) + resampled(b),
{
    let whole = resampled(a + b);
    let parts = resampled(a) + resampled(b);
    let n = resampled(a).len() as int;
    assert(n == a.len() / 2 * 3);
    assert(whole.len() == parts.len());
    assert forall|k: int| 0 <= k < whole.len() implies whole[k] == parts[k] by {
        if k < n {
            assert(k / 3 * 2 + 1 < a.len());
        } else {
            assert((k - n) / 3 == k / 3 - a.len() / 2);
            assert((k - n) % 3 == k % 3);
            if k % 3 != 0 {
                assert((k - n) / 3 * 2 + 1 < b.len());
            }
        }
    }
    assert(whole =~= parts);
}

/// Every two samples become three: the first as it is, one nearer to it, and one nearer to the
/// second. An odd last one is kept as it is.
pub proof fn law_two_samples_become_three<T>(samples: Seq<T>)
    ensures
        samples.len() % 2 == 0 ==> 2 * resampled(samples).len() == 3 * samples.len(),
        samples.len() % 2 == 1 ==> 2 * resampled(samples).len() == 3 * samples.len() - 1
            && resampled(samples).last() == Tap::Whole(samples.last()),
        forall|i: int|
            0 <= i && 2 * i + 1 < samples.len() ==> {
                &&& #[trigger] resampled(samples)[3 * i] == Tap::Whole(samples[2 * i])
                &&& resampled(samples)[3 * i + 1] == (Tap::Blend {
                    near: samples[2 * i],
                    far: samples[2 * i + 1],
                })
                &&& resampled(samples)[3 * i + 2] == (Tap::Blend {
                    near: samples[2 * i + 1],
                    far: samples[2 * i],
                })
            },
{
    assert forall|i: int| 0 <= i && 2 * i + 1 < samples.len() implies {
        &&& #[trigger] resampled(samples)[3 * i] == Tap::Whole(samples[2 * i])
        &&& resampled(samples)[3 * i + 1] == (Tap::Blend {
            near: samples[2 * i],
            far: samples[2 * i + 1],
        })
        &&& resampled(samples)[3 * i + 2] == (Tap::Blend {
            near: samples[2 * i + 1],
            far: samples[2 * i],
        })
    } by {
        assert((3 * i) / 3 == i && (3 * i) % 3 == 0);
        assert((3 * i + 1) / 3 == i && (3 * i + 1) % 3 == 1);
        assert((3 * i + 2) / 3 == i && (3 * i + 2) % 3 == 2);
    }
    if samples.len() % 2 == 1 {
        let pairs = samples.len() / 2;
        assert((3 * pairs) / 3 == pairs && (3 * pairs) % 3 == 0);
    }
}

/// The message that appends audio names its type and holds the samples' bytes in base64; the
/// one that asks for a transcript names its type. Neither holds anything else.
pub proof fn law_session_messages(words: Seq<i16>)
    ensures
        field(append_message(words), "type"@) == Some(Json::Str("input_audio_buffer.append"@)),
        field(append_message(words), "audio"@) == Some(Json::Str(base64_of(pcm16(words)))),
        append_message(words) matches Json::Obj(m) && m.dom() =~= set!["type"@, "audio"@],
        field(commit_message(), "type"@) == Some(Json::Str("input_audio_buffer.commit"@)),
        commit_message() matches Json::Obj(m) && m.dom() =~= set!["type"@],
{
    reveal_strlit("type");
    reveal_strlit("audio");
    assert("type"@.len() != "audio"@.len());
}

/// No frame is both a piece and a whole utterance, nor is an error either; the service has two
/// names for each of the two.
pub proof fn law_frames_are_told_apart(event_type: Seq<char>)
    ensures
        !(is_delta(event_type) && is_completed(event_type)),
        event_type == "error"@ ==> !is_delta(event_type) && !is_completed(event_type),
        is_delta(event_type) <==> {
            ||| event_type == "conversation.item.input_audio_transcription.delta"@
            ||| event_type == "response.audio_transcript.delta"@
        },
        is_completed(event_type) <==> {
            ||| event_type == "conversation.item.input_audio_transcription.completed"@
            ||| event_type == "response.audio_transcript.done"@
        },
{
    reveal_strlit("error");
    reveal_strlit("conversation.item.input_audio_transcription.delta");
    reveal_strlit("response.audio_transcript.delta");
    reveal_strlit("conversation.item.input_audio_transcription.completed");
    reveal_strlit("response.audio_transcript.done");
    assert("error"@.len() == 5);
    assert("conversation.item.input_audio_transcription.delta"@.len() == 49);
    assert("response.audio_transcript.delta"@.len() == 31);
    assert("conversation.item.input_audio_transcription.completed"@.len() == 53);
    assert("response.audio_transcript.done"@.len() == 30);
}

/// An error is reported as the service put it; where it said nothing, as an unknown one. A
/// text that a frame leaves out is empty.
pub proof fn law_what_frames_leave_out(error: Option<ServerError>, text: Option<String>)
    ensures
        error is Some ==> reported(error).0 == error->0.code@ && reported(error).1
            == error->0.message@,
        error is None ==> reported(error).0 == "unknown"@ && reported(error).1
            == "unknown server error"@,
        text is Some ==> text_or_empty(text) == text->0@,
        text is None ==> text_or_empty(text).len() == 0,
{
}

} // verus!
