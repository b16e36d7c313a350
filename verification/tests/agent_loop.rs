use solana_ai_agent::agent::{consult_request, Agent, AgentAction, AgentEvent, CONSULT_MAX_TOKENS};
use solana_ai_agent::strategy::{ArbScout, DaoVote, Decision, ObservedState, Strategy};

fn agent<S: Strategy>(strategy: S, dry_run: bool) -> Agent<S> {
    Agent {
        strategy,
        fast_model: "mimo-v2.5".to_string(),
        deep_model: "mimo-v2.5-pro".to_string(),
        dry_run,
    }
}

fn observed(kind: &str) -> ObservedState {
    ObservedState {
        kind: kind.to_string(),
        summary: "demo divergence".to_string(),
        raw_json: r#"{"mint":"So11..."}"#.to_string(),
        slot: 0,
        timestamp_ms: 0,
    }
}

fn decision() -> Decision {
    Decision {
        action: "arb".to_string(),
        reason: "edge".to_string(),
        confidence_bits: 0.9f32.to_bits(),
        params: serde_json::Value::Null,
    }
}

#[test]
fn relevant_state_is_sent_to_the_model() {
    let a = agent(ArbScout, true);
    match a.step(AgentEvent::Observed(observed("price_divergence"))) {
        AgentAction::Consult(p) => assert_eq!(
            p,
            "Detected price divergence across DEXs.\nSnapshot:\n{\"mint\":\"So11...\"}\nDecide whether to arb."
        ),
        other => panic!("{:?}", other),
    }
}

#[test]
fn irrelevant_state_is_passed_over() {
    let a = agent(DaoVote, false);
    assert!(matches!(a.step(AgentEvent::Observed(observed("price_divergence"))), AgentAction::Idle));
}

#[test]
fn dry_run_skips_submission() {
    let a = agent(ArbScout, true);
    match a.step(AgentEvent::Consulted(Ok(decision()))) {
        AgentAction::Skip(d) => assert_eq!(d.action, "arb"),
        other => panic!("{:?}", other),
    }
    assert!(!a.act_on(&decision()));
}

#[test]
fn live_mode_submits() {
    let a = agent(ArbScout, false);
    match a.step(AgentEvent::Consulted(Ok(decision()))) {
        AgentAction::Submit(d) => {
            assert_eq!(d.reason, "edge");
            assert_eq!(f32::from_bits(d.confidence_bits), 0.9);
        },
        other => panic!("{:?}", other),
    }
    assert!(a.act_on(&decision()));
}

#[test]
fn consult_errors_are_reported() {
    let a = agent(ArbScout, false);
    match a.step(AgentEvent::Consulted(Err("mimo error 401".to_string()))) {
        AgentAction::Warn(e) => assert_eq!(e, "mimo error 401"),
        other => panic!("{:?}", other),
    }
}

#[test]
fn closed_stream_stops() {
    let a = agent(DaoVote, true);
    assert!(matches!(a.step(AgentEvent::Closed), AgentAction::Stop));
}

#[test]
fn consult_request_shape() {
    let r = consult_request(&ArbScout, "prompt", "fast", "deep");
    assert_eq!(r.model, "deep");
    assert_eq!(r.max_tokens, CONSULT_MAX_TOKENS);
    assert_eq!(r.max_tokens, 1024);
    assert_eq!(r.response_format, Some("json_object"));
    assert_eq!(r.messages.len(), 2);
    assert_eq!(r.messages[0].role, "system");
    assert_eq!(r.messages[0].content, ArbScout.system_prompt());
    assert_eq!(r.messages[1].role, "user");
    assert_eq!(r.messages[1].content, "prompt");
    let a = agent(DaoVote, true);
    let r = a.consult_request("p");
    assert_eq!(r.model, "mimo-v2.5-pro");
    assert_eq!(r.messages[0].content, DaoVote.system_prompt());
}
