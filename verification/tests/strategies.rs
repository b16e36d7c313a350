use solana_ai_agent::strategy::{
    decision_text, white_space, ArbScout, DaoVote, Decision, LiquidationWatch, ObservedState,
    Strategy, StrategyKind,
};

fn state(kind: &str, raw: &str) -> ObservedState {
    ObservedState {
        kind: kind.to_string(),
        summary: "snapshot".to_string(),
        raw_json: raw.to_string(),
        slot: 7,
        timestamp_ms: -3,
    }
}

fn decision(action: &str) -> Decision {
    Decision {
        action: action.to_string(),
        reason: "because".to_string(),
        confidence_bits: 0.5f32.to_bits(),
        params: serde_json::Value::Null,
    }
}

#[test]
fn arb_scout_prompts_on_price_divergence() {
    let raw = r#"{"dexes":[{"name":"Orca","price":24.10}]}"#;
    let p = ArbScout.relevant(&state("price_divergence", raw)).unwrap();
    assert_eq!(
        p,
        format!("Detected price divergence across DEXs.\nSnapshot:\n{}\nDecide whether to arb.", raw)
    );
    assert!(ArbScout.relevant(&state("loan_health", raw)).is_none());
    assert!(ArbScout.relevant(&state("Price_divergence", raw)).is_none());
}

#[test]
fn liquidation_watch_prompts_on_loan_health() {
    let p = LiquidationWatch.relevant(&state("loan_health", "{}")).unwrap();
    assert_eq!(p, "Lending position update.\n{}\nDecide whether to liquidate.");
    assert!(LiquidationWatch.relevant(&state("proposal", "{}")).is_none());
}

#[test]
fn dao_vote_prompts_on_proposal() {
    let p = DaoVote.relevant(&state("proposal", "[1]")).unwrap();
    assert_eq!(p, "New DAO proposal.\n[1]\nRecommend a vote.");
    assert!(DaoVote.relevant(&state("price_divergence", "[1]")).is_none());
}

#[test]
fn bundled_triggers_are_disjoint() {
    for kind in ["price_divergence", "loan_health", "proposal", "other", ""] {
        let s = state(kind, "x");
        let n = [
            ArbScout.relevant(&s).is_some(),
            LiquidationWatch.relevant(&s).is_some(),
            DaoVote.relevant(&s).is_some(),
        ]
        .iter()
        .filter(|b| **b)
        .count();
        assert!(n <= 1);
    }
}

#[test]
fn bundled_names_and_models() {
    assert_eq!(ArbScout.name(), "arb-scout");
    assert_eq!(LiquidationWatch.name(), "liquidation-watch");
    assert_eq!(DaoVote.name(), "dao-vote");
    assert_eq!(ArbScout.model("fast", "deep"), "deep");
    assert_eq!(LiquidationWatch.model("fast", "deep"), "deep");
    assert_eq!(DaoVote.model("fast", "deep"), "deep");
}

#[test]
fn bundled_system_prompts_ask_for_json() {
    assert!(ArbScout.system_prompt().starts_with("You are a Solana arbitrage analyst."));
    assert!(ArbScout.system_prompt().ends_with("is below 0.2 %."));
    assert!(LiquidationWatch.system_prompt().starts_with("You are a liquidation bot operator on Solana."));
    assert!(DaoVote.system_prompt().starts_with("You are a DAO governance analyst."));
    for p in [ArbScout.system_prompt(), LiquidationWatch.system_prompt(), DaoVote.system_prompt()] {
        assert!(p.contains("strict JSON"));
    }
}

#[test]
fn dry_run_never_executes() {
    let d = decision("arb");
    assert!(!ArbScout.should_execute(&d, true));
    assert!(!LiquidationWatch.should_execute(&d, true));
    assert!(!DaoVote.should_execute(&d, true));
    assert!(ArbScout.should_execute(&d, false));
    assert!(LiquidationWatch.should_execute(&d, false));
    assert!(DaoVote.should_execute(&d, false));
}

#[test]
fn strategy_kind_round_trip() {
    for k in [StrategyKind::ArbScout, StrategyKind::LiquidationWatch, StrategyKind::DaoVote] {
        assert_eq!(StrategyKind::from_name(k.name()).unwrap(), k);
    }
    assert_eq!(StrategyKind::from_name("dao-vote").unwrap(), StrategyKind::DaoVote);
}

#[test]
fn strategy_kind_unknown_name() {
    let e = StrategyKind::from_name("hodl").unwrap_err();
    assert_eq!(e.name, "hodl");
    let e = StrategyKind::from_name("Arb-Scout").unwrap_err();
    assert_eq!(e.name, "Arb-Scout");
    assert!(StrategyKind::from_name("").is_err());
}

#[test]
fn decision_text_trims_white_space() {
    assert_eq!(decision_text("  {\"action\":\"arb\"}\n\t"), "{\"action\":\"arb\"}");
    assert_eq!(decision_text("{}"), "{}");
    assert_eq!(decision_text(" \n "), "");
    assert_eq!(decision_text(""), "");
    assert_eq!(decision_text("\u{3000}a b\u{a0}"), "a b");
    for s in ["  x y  ", "\u{2028}q\u{85}", "\r\n{}\r\n", "é  "] {
        assert_eq!(decision_text(s), s.trim());
    }
}

#[test]
fn white_space_matches_std() {
    for c in ['\t', '\n', '\u{b}', '\u{c}', '\r', ' ', '\u{85}', '\u{a0}', '\u{1680}', '\u{2000}',
              '\u{200a}', '\u{2028}', '\u{2029}', '\u{202f}', '\u{205f}', '\u{3000}', 'a', '\u{200b}',
              '\u{1f}', '0', '\u{feff}'] {
        assert_eq!(white_space(c), c.is_whitespace(), "{:?}", c);
    }
}
