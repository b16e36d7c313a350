use solana_ai_agent::mimo::{
    backoff_after, next_step, reply_from_response, status_is_server_error, status_is_success,
    ChatMessage, ChatOutcome, ChatRequest, ChatResponse, ChatStep, Choice, MimoClient, MimoError,
    ResponseMessage, Usage, MAX_ATTEMPTS,
};

fn usage() -> Usage {
    Usage { prompt_tokens: 10, completion_tokens: 5, total_tokens: 15 }
}

fn response(contents: Vec<(Option<&str>, Option<&str>)>) -> ChatResponse {
    ChatResponse {
        choices: contents
            .into_iter()
            .map(|(c, r)| Choice {
                message: ResponseMessage {
                    content: c.map(|s| s.to_string()),
                    reasoning_content: r.map(|s| s.to_string()),
                },
            })
            .collect(),
        usage: usage(),
    }
}

#[test]
fn chat_url_strips_trailing_slashes() {
    let c = MimoClient::new("key", "https://token-plan-sgp.xiaomimimo.com/v1");
    assert_eq!(c.chat_url(), "https://token-plan-sgp.xiaomimimo.com/v1/chat/completions");
    let c = MimoClient::new("key", "https://h/v1/");
    assert_eq!(c.chat_url(), "https://h/v1/chat/completions");
    let c = MimoClient::new("key", "https://h/v1///");
    assert_eq!(c.chat_url(), "https://h/v1/chat/completions");
    let c = MimoClient::new("key", "");
    assert_eq!(c.chat_url(), "/chat/completions");
    let c = MimoClient::new("key", "//");
    assert_eq!(c.chat_url(), "/chat/completions");
    assert_eq!(c.api_key(), "key");
    assert_eq!(c.base_url(), "//");
}

#[test]
fn request_json_mode() {
    let msgs = vec![ChatMessage { role: "user", content: "Reply with exactly one word: pong" }];
    let r = ChatRequest::new("mimo-v2.5", msgs.clone(), 32, false);
    assert_eq!(r.model, "mimo-v2.5");
    assert_eq!(r.max_tokens, 32);
    assert!(r.response_format.is_none());
    assert_eq!(r.messages.len(), 1);
    let r = ChatRequest::new("m", msgs, 1024, true);
    assert_eq!(r.response_format, Some("json_object"));
}

#[test]
fn status_classes() {
    assert!(status_is_success(200));
    assert!(status_is_success(299));
    assert!(!status_is_success(300));
    assert!(!status_is_success(199));
    assert!(status_is_server_error(500));
    assert!(status_is_server_error(503));
    assert!(status_is_server_error(599));
    assert!(!status_is_server_error(429));
    assert!(!status_is_server_error(600));
}

#[test]
fn backoff_doubles_from_one_second() {
    assert_eq!(backoff_after(0), 500);
    assert_eq!(backoff_after(1), 1000);
    assert_eq!(backoff_after(2), 2000);
    assert_eq!(backoff_after(3), 4000);
}

#[test]
fn reply_takes_first_choice() {
    let r = reply_from_response(response(vec![(Some("pong"), Some("think")), (Some("no"), None)])).unwrap();
    assert_eq!(r.content, "pong");
    assert_eq!(r.reasoning, "think");
    assert_eq!(r.usage.total_tokens, 15);
    let r = reply_from_response(response(vec![(None, None)])).unwrap();
    assert_eq!(r.content, "");
    assert_eq!(r.reasoning, "");
}

#[test]
fn reply_without_choices_fails() {
    assert!(matches!(reply_from_response(response(vec![])), Err(MimoError::NoChoices)));
}

#[test]
fn success_finishes_at_once() {
    match next_step(1, ChatOutcome::Completed(Ok(response(vec![(Some("{}"), None)])))) {
        ChatStep::Finished(Ok(r)) => assert_eq!(r.content, "{}"),
        other => panic!("{:?}", other),
    }
    match next_step(2, ChatOutcome::Completed(Err("bad json".to_string()))) {
        ChatStep::Finished(Err(MimoError::Decode(m))) => assert_eq!(m, "bad json"),
        other => panic!("{:?}", other),
    }
    assert!(matches!(
        next_step(1, ChatOutcome::Completed(Ok(response(vec![])))),
        ChatStep::Finished(Err(MimoError::NoChoices))
    ));
}

#[test]
fn client_errors_are_not_retried() {
    match next_step(1, ChatOutcome::Rejected { status: 401, body: "unauthorized".to_string() }) {
        ChatStep::Finished(Err(MimoError::Status { status, body })) => {
            assert_eq!(status, 401);
            assert_eq!(body, "unauthorized");
        },
        other => panic!("{:?}", other),
    }
    assert!(matches!(
        next_step(1, ChatOutcome::Rejected { status: 429, body: String::new() }),
        ChatStep::Finished(Err(MimoError::Status { status: 429, .. }))
    ));
}

#[test]
fn server_errors_are_retried_up_to_four_attempts() {
    let mut waits = Vec::new();
    let mut attempts = 0u32;
    let result = loop {
        attempts += 1;
        match next_step(attempts, ChatOutcome::Rejected { status: 502, body: "busy".to_string() }) {
            ChatStep::RetryAfter(ms) => waits.push(ms),
            ChatStep::Finished(r) => break r,
        }
    };
    assert_eq!(attempts, MAX_ATTEMPTS);
    assert_eq!(waits, vec![1000, 2000, 4000]);
    assert!(matches!(result, Err(MimoError::Status { status: 502, .. })));
}

#[test]
fn transport_failures_are_retried_up_to_four_attempts() {
    let mut attempts = 0u32;
    let result = loop {
        attempts += 1;
        match next_step(attempts, ChatOutcome::Failed("connection reset".to_string())) {
            ChatStep::RetryAfter(ms) => assert_eq!(ms, 500u64 << attempts),
            ChatStep::Finished(r) => break r,
        }
    };
    assert_eq!(attempts, 4);
    match result {
        Err(MimoError::Transport(m)) => assert_eq!(m, "connection reset"),
        other => panic!("{:?}", other),
    }
}

#[test]
fn recovery_after_a_retry() {
    assert!(matches!(next_step(1, ChatOutcome::Failed("x".to_string())), ChatStep::RetryAfter(1000)));
    assert!(matches!(
        next_step(2, ChatOutcome::Completed(Ok(response(vec![(Some("ok"), None)])))),
        ChatStep::Finished(Ok(_))
    ));
}
