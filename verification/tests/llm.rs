use kitetsu::listener::transcribe::api::openai::ApiError;
use kitetsu::teleprompter::llm::anthropic::{
    build_messages_body, parse_messages_response, read_messages_response,
};
use kitetsu::teleprompter::llm::openai::{
    build_audio_body, build_chat_body, parse_chat_response, read_chat_response,
};
use kitetsu::teleprompter::llm::turn::refusal;
use kitetsu::teleprompter::llm::{
    AnthropicClient, AudioPart, Backend, LlmBackendKind, LlmError, OpenAiClient, Role, Turn,
};
use kitetsu::teleprompter::pipes::{
    chat_and_commit, label_transcript, request_turns, run_chunk, run_live, transcribe_side, Labels,
    PipeContext, PipeError,
};
use kitetsu::teleprompter::window::Window;

fn user(text: &str) -> Turn {
    Turn::user(text.to_owned())
}

fn assistant(text: &str) -> Turn {
    Turn::assistant(text.to_owned())
}

fn json(text: &str) -> serde_json::Value {
    serde_json::from_str(text).unwrap()
}

// ── OpenAI ────────────────────────────────────────────────────────────────────

#[test]
fn openai_empty_key_is_rejected() {
    assert!(matches!(
        OpenAiClient::new("  ".to_owned()),
        Err(LlmError::MissingKey)
    ));
}

#[test]
fn chat_body_has_system_first_then_turns() {
    let turns = [user("Them: hi"), assistant("Hello!")];
    let body = build_chat_body("gpt-4o", "be brief", &turns);
    let msgs = body["messages"].as_array().unwrap();
    assert_eq!(msgs.len(), 3);
    assert_eq!(msgs[0]["role"], "system");
    assert_eq!(msgs[0]["content"], "be brief");
    assert_eq!(msgs[1]["role"], "user");
    assert_eq!(msgs[1]["content"], "Them: hi");
    assert_eq!(msgs[2]["role"], "assistant");
    assert_eq!(body["model"], "gpt-4o");
}

#[test]
fn audio_body_carries_text_then_input_audio_parts() {
    let parts = [
        AudioPart { label: "Me".into(), wav: vec![1, 2, 3] },
        AudioPart { label: "Them".into(), wav: vec![4, 5] },
    ];
    let body = build_audio_body("gpt-4o-audio-preview", "sys", "what to say?", &parts);
    assert_eq!(body["modalities"][0], "text");
    let content = body["messages"][1]["content"].as_array().unwrap();
    assert_eq!(content.len(), 5);
    assert_eq!(content[0]["type"], "text");
    assert_eq!(content[0]["text"], "what to say?");
    assert_eq!(content[1]["text"], "[Me]");
    assert_eq!(content[2]["type"], "input_audio");
    assert_eq!(content[2]["input_audio"]["format"], "wav");
    assert_eq!(content[2]["input_audio"]["data"], "AQID");
    assert_eq!(content[4]["input_audio"]["data"], "BAU=");
}

#[test]
fn parses_choice_content() {
    let reply = json(
        r#"{ "choices": [ { "message": { "role": "assistant", "content": "  hi there  " } } ] }"#,
    );
    assert_eq!(parse_chat_response(&reply).unwrap(), "hi there");
}

#[test]
fn openai_malformed_response_is_rejected() {
    let reply = json(r#"{ "choices": [] }"#);
    assert!(matches!(
        parse_chat_response(&reply),
        Err(LlmError::Malformed(_))
    ));
}

#[test]
fn openai_reply_needs_every_step_of_the_path() {
    for text in [
        "[]",
        "{}",
        r#"{"choices":{"0":1}}"#,
        r#"{"choices":[1]}"#,
        r#"{"choices":[{"message":[]}]}"#,
        r#"{"choices":[{"message":{"content":7}}]}"#,
        r#"{"choices":[{"message":{"content":null}}]}"#,
    ] {
        match parse_chat_response(&json(text)) {
            Err(LlmError::Malformed(m)) => assert_eq!(m, "missing choices[0].message.content"),
            _ => panic!("expected a malformed reply: {text}"),
        }
    }
}

#[test]
fn openai_reply_is_read_from_bytes() {
    let reply = br#"{"choices":[{"message":{"content":" ok "}}]}"#;
    assert_eq!(read_chat_response(reply).unwrap(), "ok");
    assert!(matches!(read_chat_response(b"<html>"), Err(LlmError::Request(_))));
    assert!(matches!(read_chat_response(b"{}"), Err(LlmError::Malformed(_))));
}

// ── Anthropic ─────────────────────────────────────────────────────────────────

#[test]
fn anthropic_empty_key_is_rejected() {
    assert!(matches!(
        AnthropicClient::new(String::new()),
        Err(LlmError::MissingKey)
    ));
}

#[test]
fn body_has_top_level_system_and_turns() {
    let turns = [user("Them: hello")];
    let body = build_messages_body("opus-4-8", "be brief", &turns);
    assert_eq!(body["model"], "opus-4-8");
    assert_eq!(body["system"], "be brief");
    assert!(body["max_tokens"].is_number());
    let msgs = body["messages"].as_array().unwrap();
    assert_eq!(msgs.len(), 1);
    assert_eq!(msgs[0]["role"], "user");
    assert_eq!(msgs[0]["content"], "Them: hello");
    assert_eq!(body["max_tokens"].as_u64(), Some(1024));
}

#[test]
fn parses_first_text_block() {
    let reply = json(r#"{ "content": [ { "type": "text", "text": "  say hi  " } ] }"#);
    assert_eq!(parse_messages_response(&reply).unwrap(), "say hi");
}

#[test]
fn anthropic_malformed_response_is_rejected() {
    let reply = json(r#"{ "content": [] }"#);
    assert!(matches!(
        parse_messages_response(&reply),
        Err(LlmError::Malformed(_))
    ));
}

#[test]
fn anthropic_reply_skips_blocks_without_text() {
    let reply = json(r#"{"content":[{"type":"thinking"},{"text":3},{"text":"b"},{"text":"c"}]}"#);
    assert_eq!(parse_messages_response(&reply).unwrap(), "b");
    match parse_messages_response(&json(r#"{"content":{"text":"x"}}"#)) {
        Err(LlmError::Malformed(m)) => assert_eq!(m, "no text block in content[]"),
        _ => panic!("expected a malformed reply"),
    }
    assert_eq!(read_messages_response(br#"{"content":[{"text":"z"}]}"#).unwrap(), "z");
    assert!(matches!(read_messages_response(b""), Err(LlmError::Request(_))));
}

// ── Either ────────────────────────────────────────────────────────────────────

#[test]
fn roles_have_wire_names() {
    assert_eq!(Role::User.as_str(), "user");
    assert_eq!(Role::Assistant.as_str(), "assistant");
}

#[test]
fn backends_make_their_requests() {
    let openai = Backend::new(LlmBackendKind::Openai, "k".to_owned()).unwrap();
    let post = openai.chat("m", "s", &[user("q")]);
    assert_eq!(openai.name(), "openai");
    assert_eq!(post.url, "https://api.openai.com/v1/chat/completions");
    assert_eq!(post.bearer.as_deref(), Some("k"));
    assert!(post.headers.is_empty());
    assert_eq!(post.body["messages"][1]["content"], "q");

    let anthropic = Backend::new(LlmBackendKind::Anthropic, "k2".to_owned()).unwrap();
    let post = anthropic.chat("m", "s", &[]);
    assert_eq!(anthropic.name(), "anthropic");
    assert_eq!(post.url, "https://api.anthropic.com/v1/messages");
    assert!(post.bearer.is_none());
    let headers: Vec<(&str, &str)> = post.headers.iter().map(|h| (h.0, h.1.as_str())).collect();
    assert_eq!(
        headers,
        vec![("x-api-key", "k2"), ("anthropic-version", "2023-06-01")]
    );
    assert_eq!(post.body["system"], "s");

    assert!(matches!(
        Backend::new(LlmBackendKind::Openai, "\n".to_owned()),
        Err(LlmError::MissingKey)
    ));
}

#[test]
fn only_one_provider_takes_audio() {
    let parts = [AudioPart { label: "Me".into(), wav: vec![] }];
    let openai = Backend::new(LlmBackendKind::Openai, "k".to_owned()).unwrap();
    let post = openai.chat_audio("m", "s", "p", &parts).unwrap();
    assert_eq!(post.body["messages"][1]["content"][2]["input_audio"]["data"], "");
    let anthropic = Backend::new(LlmBackendKind::Anthropic, "k".to_owned()).unwrap();
    assert!(matches!(
        anthropic.chat_audio("m", "s", "p", &parts),
        Err(LlmError::Unsupported { backend: "anthropic" })
    ));
}

#[test]
fn backends_read_their_own_replies() {
    let openai = Backend::new(LlmBackendKind::Openai, "k".to_owned()).unwrap();
    let anthropic = Backend::new(LlmBackendKind::Anthropic, "k".to_owned()).unwrap();
    let chat = br#"{"choices":[{"message":{"content":"c"}}]}"#;
    let message = br#"{"content":[{"text":"m"}]}"#;
    assert_eq!(openai.read_reply(chat).unwrap(), "c");
    assert_eq!(anthropic.read_reply(message).unwrap(), "m");
    assert!(matches!(openai.read_reply(message), Err(LlmError::Malformed(_))));
    assert!(matches!(anthropic.read_reply(chat), Err(LlmError::Malformed(_))));
}

#[test]
fn endpoints_can_be_replaced() {
    let client = OpenAiClient::new("k".to_owned()).unwrap().with_endpoint("http://x".to_owned());
    assert_eq!(client.chat("m", "s", &[]).url, "http://x");
    let client = AnthropicClient::new("k".to_owned()).unwrap().with_endpoint("http://y".to_owned());
    assert_eq!(client.chat("m", "s", &[]).url, "http://y");
}

#[test]
fn refused_chats_keep_status_and_body() {
    assert!(refusal(204, String::new()).is_none());
    assert!(matches!(
        refusal(500, "oops".to_owned()),
        Some(LlmError::Status { status: 500, body }) if body == "oops"
    ));
}

// ── Pipes ─────────────────────────────────────────────────────────────────────

fn labels() -> Labels {
    Labels {
        mic: "Me".into(),
        system: "Them".into(),
    }
}

#[test]
fn transcript_puts_system_first_then_mic() {
    let c = label_transcript("I'm well", "How are you?", &labels());
    assert_eq!(c, "Them: How are you?\nMe: I'm well");
}

#[test]
fn transcript_skips_blank_sides() {
    let c = label_transcript("", "Hello", &labels());
    assert_eq!(c, "Them: Hello");
}

#[test]
fn empty_window_yields_no_speech_note() {
    let c = label_transcript("", "", &labels());
    assert_eq!(c, "(no speech detected in this window)");
}

#[test]
fn transcript_of_the_mic_alone() {
    assert_eq!(label_transcript("hi", "", &labels()), "Me: hi");
}

#[test]
fn failed_call_leaves_history_untouched() {
    let mut history = vec![user("a"), assistant("b")];
    let failed = chat_and_commit(&mut history, "c".to_owned(), Err(LlmError::MissingKey));
    assert!(matches!(failed, Err(PipeError::Llm(LlmError::MissingKey))));
    assert_eq!(history, vec![user("a"), assistant("b")]);
    let reply = chat_and_commit(&mut history, "c".to_owned(), Ok("d".to_owned()));
    assert_eq!(reply.unwrap(), "d");
    assert_eq!(
        history,
        vec![user("a"), assistant("b"), user("c"), assistant("d")]
    );
}

#[test]
fn request_sends_history_and_question() {
    let history = vec![user("a"), assistant("b")];
    let turns = request_turns(&history, &"c".to_owned());
    assert_eq!(turns, vec![user("a"), assistant("b"), user("c")]);
    assert_eq!(history.len(), 2);
}

#[test]
fn live_pipe_sends_the_running_transcript() {
    let window: Window<f32> = Window {
        n: 1,
        mic_raw: vec![],
        sys_raw: vec![],
        mic_text: " fine ".to_owned(),
        sys_text: "how?".to_owned(),
    };
    let backend = Backend::new(LlmBackendKind::Openai, "k".to_owned()).unwrap();
    let ctx = PipeContext {
        backend: &backend,
        system_prompt: "be brief",
        labels: &labels(),
    };
    let mut history = vec![user("a"), assistant("b")];
    let request = run_live(&window, &history, "gpt-4o", &ctx);
    assert_eq!(request.content, "Them: how?\nMe: fine");
    assert_eq!(request.post.body["model"], "gpt-4o");
    let messages = request.post.body["messages"].as_array().unwrap();
    assert_eq!(messages.len(), 4);
    assert_eq!(messages[0]["content"], "be brief");
    assert_eq!(messages[2]["content"], "b");
    assert_eq!(messages[3]["content"], "Them: how?\nMe: fine");
    let done = request.finish(&mut history, Ok("say so".to_owned())).unwrap();
    assert_eq!(
        (done.mic_text.as_str(), done.sys_text.as_str(), done.reply.as_str()),
        ("fine", "how?", "say so")
    );
    assert_eq!(history.len(), 4);
    assert_eq!(history[3], assistant("say so"));
}

#[test]
fn chunk_pipe_fails_with_either_side() {
    let history = vec![];
    let backend = Backend::new(LlmBackendKind::Anthropic, "k".to_owned()).unwrap();
    let ctx = PipeContext {
        backend: &backend,
        system_prompt: "s",
        labels: &labels(),
    };
    let ok = run_chunk(Ok(" m ".to_owned()), Ok(String::new()), &history, "x", &ctx).unwrap();
    assert_eq!(ok.content, "Me: m");
    assert_eq!(ok.post.body["system"], "s");
    let both = run_chunk(
        Err(ApiError::EmptyAudio),
        Err(ApiError::MissingKey),
        &history,
        "x",
        &ctx,
    );
    assert!(matches!(both, Err(PipeError::Transcribe(ApiError::EmptyAudio))));
    let sys = run_chunk(
        Ok("m".to_owned()),
        Err(ApiError::MissingKey),
        &history,
        "x",
        &ctx,
    );
    assert!(matches!(sys, Err(PipeError::Transcribe(ApiError::MissingKey))));
    let mut history = vec![user("a"), assistant("b")];
    let failed = ok.finish(&mut history, Err(LlmError::Request("dns".to_owned())));
    assert!(matches!(failed, Err(PipeError::Llm(LlmError::Request(_)))));
    assert_eq!(history.len(), 2);
}

#[test]
fn side_without_audio_is_empty_text() {
    let none: [f32; 0] = [];
    assert_eq!(transcribe_side(&none).as_deref(), Some(""));
    assert!(transcribe_side(&[0.0f32]).is_none());
}
