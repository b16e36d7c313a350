//! The `Strategy` trait and the three bundled strategies.

use vstd::prelude::*;

verus! {

#[verifier::external_type_specification]
#[verifier::external_body]
pub struct ExJsonValue(serde_json::Value);

/// A snapshot of on-chain state handed to a strategy.
#[derive(Clone, Debug)]
pub struct ObservedState {
    /// What was observed, e.g. "price_divergence", "loan_health", "proposal".
    pub kind: String,
    /// Short human-readable snapshot.
    pub summary: String,
    /// Full structured data that the model can re-read.
    pub raw_json: String,
    pub slot: u64,
    pub timestamp_ms: i64,
}

/// What the model decided about an observed state.
#[derive(Debug)]
pub struct Decision {
    /// Strategy-specific action name.
    pub action: String,
    pub reason: String,
    /// The model's confidence (between 0 and 1), carried as the bit pattern
    /// of the single-precision float that the model's reply held.
    pub confidence_bits: u32,
    /// Strategy-specific parameters, carried through unread.
    pub params: serde_json::Value,
}

/// The characters of an optional string.
pub open spec fn opt_chars(o: Option<String>) -> Option<Seq<char>> {
    match o {
        Some(s) => Some(s@),
        None => None,
    }
}

/// A strategy inspects observed state, says when the model should be consulted
/// and with which prompt, and whether a decision leads to a submitted transaction.
pub trait Strategy {
    spec fn spec_name(&self) -> Seq<char>;

    spec fn spec_relevant(&self, state: ObservedState) -> Option<Seq<char>>;

    spec fn spec_system_prompt(&self) -> Seq<char>;

    spec fn spec_model(&self, fast: Seq<char>, deep: Seq<char>) -> Seq<char>;

    spec fn spec_should_execute(&self, decision: Decision, dry_run: bool) -> bool;

    fn name(&self) -> (r: &str)
        ensures
            r@ == self.spec_name(),
    ;

    /// Inspect new on-chain state. Returns `Some(prompt)` if the model should be consulted.
    fn relevant(&self, state: &ObservedState) -> (r: Option<String>)
        ensures
            opt_chars(r) == self.spec_relevant(*state),
    ;

    /// System prompt used when the model is consulted.
    fn system_prompt(&self) -> (r: &'static str)
        ensures
            r@ == self.spec_system_prompt(),
    ;

    /// Which model to use for this strategy.
    fn model<'a>(&self, fast: &'a str, deep: &'a str) -> (r: &'a str)
        ensures
            r@ == self.spec_model(fast@, deep@),
    ;

    /// After a decision, whether the agent should actually submit a transaction.
    fn should_execute(&self, decision: &Decision, dry_run: bool) -> (r: bool)
        ensures
            r == self.spec_should_execute(*decision, dry_run),
    ;
}

/// Prompt of a bundled strategy: `head`, the raw snapshot, then `tail`.
pub open spec fn framed(head: Seq<char>, raw: Seq<char>, tail: Seq<char>) -> Seq<char> {
    head + raw + tail
}

/// Builds `head + raw + tail` as a new string.
fn frame(head: &str, raw: &str, tail: &str) -> (r: String)
    ensures
        r@ == framed(head@, raw@, tail@),
{
    let mut p = String::from_str(head);
    p.append(raw);
    p.append(tail);
    p
}

/// Whether `s` holds exactly the characters of `lit`.
fn has_kind(s: &String, lit: &str) -> (r: bool)
    ensures
        r == (s@ == lit@),
{
    let k = String::from_str(lit);
    *s == k
}

// ---- arb-scout -----------------------------------------------------------

pub struct ArbScout;

impl Strategy for ArbScout {
    open spec fn spec_name(&self) -> Seq<char> {
        "arb-scout"@
    }

    open spec fn spec_relevant(&self, state: ObservedState) -> Option<Seq<char>> {
        if state.kind@ == "price_divergence"@ {
            Some(
                framed(
                    "Detected price divergence across DEXs.\nSnapshot:\n"@,
                    state.raw_json@,
                    "\nDecide whether to arb."@,
                ),
            )
        } else {
            None
        }
    }

    open spec fn spec_system_prompt(&self) -> Seq<char> {
        r#"You are a Solana arbitrage analyst. Given a divergence snapshot across
DEXs, output strict JSON: {action: "arb"|"skip", reason: str, confidence: 0..1,
params: {legs: [{dex, side, mint, size_lamports}, ...]}}. Skip if the gross
edge after estimated 5 bps swap fees and 0.001 SOL gas is below 0.2 %."#@
    }

    open spec fn spec_model(&self, fast: Seq<char>, deep: Seq<char>) -> Seq<char> {
        deep
    }

    open spec fn spec_should_execute(&self, decision: Decision, dry_run: bool) -> bool {
        !dry_run
    }

    fn name(&self) -> (r: &str) {
        "arb-scout"
    }

    fn relevant(&self, state: &ObservedState) -> (r: Option<String>) {
        if has_kind(&state.kind, "price_divergence") {
            Some(
                frame(
                    "Detected price divergence across DEXs.\nSnapshot:\n",
                    state.raw_json.as_str(),
                    "\nDecide whether to arb.",
                ),
            )
        } else {
            None
        }
    }

    fn system_prompt(&self) -> (r: &'static str) {
        r#"You are a Solana arbitrage analyst. Given a divergence snapshot across
DEXs, output strict JSON: {action: "arb"|"skip", reason: str, confidence: 0..1,
params: {legs: [{dex, side, mint, size_lamports}, ...]}}. Skip if the gross
edge after estimated 5 bps swap fees and 0.001 SOL gas is below 0.2 %."#
    }

    fn model<'a>(&self, fast: &'a str, deep: &'a str) -> (r: &'a str) {
        deep
    }

    fn should_execute(&self, decision: &Decision, dry_run: bool) -> (r: bool) {
        !dry_run
    }
}

// ---- liquidation-watch ----------------------------------------------------

pub struct LiquidationWatch;

impl Strategy for LiquidationWatch {
    open spec fn spec_name(&self) -> Seq<char> {
        "liquidation-watch"@
    }

    open spec fn spec_relevant(&self, state: ObservedState) -> Option<Seq<char>> {
        if state.kind@ == "loan_health"@ {
            Some(
                framed(
                    "Lending position update.\n"@,
                    state.raw_json@,
                    "\nDecide whether to liquidate."@,
                ),
            )
        } else {
            None
        }
    }

    open spec fn spec_system_prompt(&self) -> Seq<char> {
        r#"You are a liquidation bot operator on Solana. Output strict JSON:
{action: "liquidate"|"watch"|"skip", reason: str, confidence: 0..1, params:
{user, market, repay_lamports, expected_profit_lamports}}. Liquidate only when
expected net profit > 0.01 SOL and health factor < 1.0."#@
    }

    open spec fn spec_model(&self, fast: Seq<char>, deep: Seq<char>) -> Seq<char> {
        deep
    }

    open spec fn spec_should_execute(&self, decision: Decision, dry_run: bool) -> bool {
        !dry_run
    }

    fn name(&self) -> (r: &str) {
        "liquidation-watch"
    }

    fn relevant(&self, state: &ObservedState) -> (r: Option<String>) {
        if has_kind(&state.kind, "loan_health") {
            Some(
                frame(
                    "Lending position update.\n",
                    state.raw_json.as_str(),
                    "\nDecide whether to liquidate.",
                ),
            )
        } else {
            None
        }
    }

    fn system_prompt(&self) -> (r: &'static str) {
        r#"You are a liquidation bot operator on Solana. Output strict JSON:
{action: "liquidate"|"watch"|"skip", reason: str, confidence: 0..1, params:
{user, market, repay_lamports, expected_profit_lamports}}. Liquidate only when
expected net profit > 0.01 SOL and health factor < 1.0."#
    }

    fn model<'a>(&self, fast: &'a str, deep: &'a str) -> (r: &'a str) {
        deep
    }

    fn should_execute(&self, decision: &Decision, dry_run: bool) -> (r: bool) {
        !dry_run
    }
}

// ---- dao-vote -------------------------------------------------------------

pub struct DaoVote;

impl Strategy for DaoVote {
    open spec fn spec_name(&self) -> Seq<char> {
        "dao-vote"@
    }

    open spec fn spec_relevant(&self, state: ObservedState) -> Option<Seq<char>> {
        if state.kind@ == "proposal"@ {
            Some(framed("New DAO proposal.\n"@, state.raw_json@, "\nRecommend a vote."@))
        } else {
            None
        }
    }

    open spec fn spec_system_prompt(&self) -> Seq<char> {
        r#"You are a DAO governance analyst. Output strict JSON: {action:
"yes"|"no"|"abstain", reason: str, confidence: 0..1, params: {proposal_id,
weight}}. Reason should cite specific risks/benefits in <= 2 sentences."#@
    }

    open spec fn spec_model(&self, fast: Seq<char>, deep: Seq<char>) -> Seq<char> {
        deep
    }

    open spec fn spec_should_execute(&self, decision: Decision, dry_run: bool) -> bool {
        !dry_run
    }

    fn name(&self) -> (r: &str) {
        "dao-vote"
    }

    fn relevant(&self, state: &ObservedState) -> (r: Option<String>) {
        if has_kind(&state.kind, "proposal") {
            Some(frame("New DAO proposal.\n", state.raw_json.as_str(), "\nRecommend a vote."))
        } else {
            None
        }
    }

    fn system_prompt(&self) -> (r: &'static str) {
        r#"You are a DAO governance analyst. Output strict JSON: {action:
"yes"|"no"|"abstain", reason: str, confidence: 0..1, params: {proposal_id,
weight}}. Reason should cite specific risks/benefits in <= 2 sentences."#
    }

    fn model<'a>(&self, fast: &'a str, deep: &'a str) -> (r: &'a str) {
        deep
    }

    fn should_execute(&self, decision: &Decision, dry_run: bool) -> (r: bool) {
        !dry_run
    }
}

// ---- selecting a bundled strategy by name ---------------------------------

/// The bundled strategies, as named in the settings and on the command line.
#[derive(Clone, Copy, Debug, PartialEq, Eq, Structural)]
pub enum StrategyKind {
    ArbScout,
    LiquidationWatch,
    DaoVote,
}

/// A strategy name that names no bundled strategy.
#[derive(Debug)]
pub struct UnknownStrategy {
    pub name: String,
}

/// The name under which each bundled strategy is selected.
pub open spec fn kind_name(kind: StrategyKind) -> Seq<char> {
    match kind {
        StrategyKind::ArbScout => "arb-scout"@,
        StrategyKind::LiquidationWatch => "liquidation-watch"@,
        StrategyKind::DaoVote => "dao-vote"@,
    }
}

/// The bundled strategy selected by `name`, if any.
pub open spec fn kind_of_name(name: Seq<char>) -> Option<StrategyKind> {
    if name == "arb-scout"@ {
        Some(StrategyKind::ArbScout)
    } else if name == "liquidation-watch"@ {
        Some(StrategyKind::LiquidationWatch)
    } else if name == "dao-vote"@ {
        Some(StrategyKind::DaoVote)
    } else {
        None
    }
}

impl StrategyKind {
    /// The name under which this strategy is selected.
    pub fn name(&self) -> (r: &'static str)
        ensures
            r@ == kind_name(*self),
    {
        match self {
            StrategyKind::ArbScout => "arb-scout",
            StrategyKind::LiquidationWatch => "liquidation-watch",
            StrategyKind::DaoVote => "dao-vote",
        }
    }

    /// Selects a bundled strategy by name: "arb-scout", "liquidation-watch" or
    /// "dao-vote"; any other name is refused and handed back in the error.
    pub fn from_name(name: &str) -> (r: Result<StrategyKind, UnknownStrategy>)
        ensures
            kind_of_name(name@) matches Some(k) ==> r == Ok::<StrategyKind, UnknownStrategy>(k),
            kind_of_name(name@) is None ==> (r matches Err(e) && e.name@ == name@),
    {
        let n = String::from_str(name);
        if has_kind(&n, "arb-scout") {
            Ok(StrategyKind::ArbScout)
        } else if has_kind(&n, "liquidation-watch") {
            Ok(StrategyKind::LiquidationWatch)
        } else if has_kind(&n, "dao-vote") {
            Ok(StrategyKind::DaoVote)
        } else {
            Err(UnknownStrategy { name: n })
        }
    }
}

// ---- the model's reply ----------------------------------------------------

/// Whether `c` has the Unicode White_Space property.
pub open spec fn is_white_space(c: char) -> bool {
    ||| ('\u{9}' <= c && c <= '\u{d}')
    ||| c == ' '
    ||| c == '\u{85}'
    ||| c == '\u{a0}'
    ||| c == '\u{1680}'
    ||| ('\u{2000}' <= c && c <= '\u{200a}')
    ||| c == '\u{2028}'
    ||| c == '\u{2029}'
    ||| c == '\u{202f}'
    ||| c == '\u{205f}'
    ||| c == '\u{3000}'
}

/// Whether `c` has the Unicode White_Space property.
pub fn white_space(c: char) -> (r: bool)
    ensures
        r == is_white_space(c),
{
    ('\u{9}' <= c && c <= '\u{d}') || c == ' ' || c == '\u{85}' || c == '\u{a0}' || c == '\u{1680}'
        || ('\u{2000}' <= c && c <= '\u{200a}') || c == '\u{2028}' || c == '\u{2029}' || c
        == '\u{202f}' || c == '\u{205f}' || c == '\u{3000}'
}

/// `s` without its leading white space.
pub open spec fn trim_start(s: Seq<char>) -> Seq<char>
    decreases s.len(),
{
    if s.len() > 0 && is_white_space(s[0]) {
        trim_start(s.drop_first())
    } else {
        s
    }
}

/// `s` without its trailing white space.
pub open spec fn trim_end(s: Seq<char>) -> Seq<char>
    decreases s.len(),
{
    if s.len() > 0 && is_white_space(s.last()) {
        trim_end(s.drop_last())
    } else {
        s
    }
}

/// The part of a model reply that holds the decision: the reply without its
/// leading and trailing white space.
pub fn decision_text(reply: &str) -> (r: &str)
    ensures
        r@ == trim_end(trim_start(reply@)),
{
    let n: usize = reply.unicode_len();
    let mut lo: usize = 0;
    assert(reply@.subrange(0, n as int) =~= reply@);
    loop
        invariant
            lo <= n == reply@.len(),
            trim_start(reply@.subrange(lo as int, n as int)) == trim_start(reply@),
        ensures
            lo <= n == reply@.len(),
            trim_start(reply@.subrange(lo as int, n as int)) == trim_start(reply@),
            lo == n || !is_white_space(reply@[lo as int]),
        decreases n - lo,
    {
        if lo == n {
            break;
        }
        let c = reply.get_char(lo);
        if !white_space(c) {
            break;
        }
        assert(reply@.subrange(lo as int, n as int).drop_first() =~= reply@.subrange(lo + 1, n as int));
        lo = lo + 1;
    }
    let ghost start = reply@.subrange(lo as int, n as int);
    assert(trim_start(start) == start);
    let mut hi: usize = n;
    assert(start.subrange(0, (hi - lo) as int) =~= start);
    loop
        invariant
            lo <= hi <= n == reply@.len(),
            start == reply@.subrange(lo as int, n as int),
            trim_end(reply@.subrange(lo as int, hi as int)) == trim_end(start),
        ensures
            lo <= hi <= n == reply@.len(),
            trim_end(reply@.subrange(lo as int, hi as int)) == trim_end(start),
            hi == lo || !is_white_space(reply@[hi - 1]),
        decreases hi - lo,
    {
        if hi == lo {
            break;
        }
        let c = reply.get_char(hi - 1);
        if !white_space(c) {
            break;
        }
        assert(reply@.subrange(lo as int, hi as int).drop_last() =~= reply@.subrange(lo as int, hi - 1));
        hi = hi - 1;
    }
    let ghost kept = reply@.subrange(lo as int, hi as int);
    assert(trim_end(kept) == kept);
    reply.substring_char(lo, hi)
}

// ---- laws -----------------------------------------------------------------

/// Selecting a bundled strategy by its own name gives that strategy back.
pub proof fn lemma_kind_name_round_trip(kind: StrategyKind)
    ensures
        kind_of_name(kind_name(kind)) == Some(kind),
{
    broadcast use vstd::string::group_string_axioms;
    reveal_strlit("arb-scout");
    reveal_strlit("liquidation-watch");
    reveal_strlit("dao-vote");
    assert("arb-scout"@.len() == 9);
    assert("liquidation-watch"@.len() == 17);
    assert("dao-vote"@.len() == 8);
}

/// Each bundled strategy answers to the name under which it is selected.
pub proof fn lemma_bundled_names()
    ensures
        ArbScout.spec_name() == kind_name(StrategyKind::ArbScout),
        LiquidationWatch.spec_name() == kind_name(StrategyKind::LiquidationWatch),
        DaoVote.spec_name() == kind_name(StrategyKind::DaoVote),
{
}

/// The bundled strategies watch disjoint kinds of state: for any observed
/// state at most one of them asks for the model to be consulted.
pub proof fn lemma_bundled_triggers_disjoint(state: ObservedState)
    ensures
        !(ArbScout.spec_relevant(state) is Some && LiquidationWatch.spec_relevant(state) is Some),
        !(ArbScout.spec_relevant(state) is Some && DaoVote.spec_relevant(state) is Some),
        !(LiquidationWatch.spec_relevant(state) is Some && DaoVote.spec_relevant(state) is Some),
{
    broadcast use vstd::string::group_string_axioms;
    reveal_strlit("price_divergence");
    reveal_strlit("loan_health");
    reveal_strlit("proposal");
    assert("price_divergence"@.len() == 16);
    assert("loan_health"@.len() == 11);
    assert("proposal"@.len() == 8);
}

/// A bundled strategy asks for the model exactly on its own kind of state,
/// and its prompt carries the state's raw snapshot unchanged between a fixed
/// head and tail.
pub proof fn lemma_prompt_embeds_snapshot(state: ObservedState)
    ensures
        ArbScout.spec_relevant(state) matches Some(p) ==> state.kind@ == "price_divergence"@ && p.subrange(
            "Detected price divergence across DEXs.\nSnapshot:\n"@.len() as int,
            "Detected price divergence across DEXs.\nSnapshot:\n"@.len() + state.raw_json@.len() as int,
        ) == state.raw_json@,
        LiquidationWatch.spec_relevant(state) matches Some(p) ==> state.kind@ == "loan_health"@ && p.subrange(
            "Lending position update.\n"@.len() as int,
            "Lending position update.\n"@.len() + state.raw_json@.len() as int,
        ) == state.raw_json@,
        DaoVote.spec_relevant(state) matches Some(p) ==> state.kind@ == "proposal"@ && p.subrange(
            "New DAO proposal.\n"@.len() as int,
            "New DAO proposal.\n"@.len() + state.raw_json@.len() as int,
        ) == state.raw_json@,
{
    let raw = state.raw_json@;
    let h1 = "Detected price divergence across DEXs.\nSnapshot:\n"@;
    let h2 = "Lending position update.\n"@;
    let h3 = "New DAO proposal.\n"@;
    assert((h1 + raw + "\nDecide whether to arb."@).subrange(h1.len() as int, h1.len() + raw.len() as int) =~= raw);
    assert((h2 + raw + "\nDecide whether to liquidate."@).subrange(h2.len() as int, h2.len() + raw.len() as int) =~= raw);
    assert((h3 + raw + "\nRecommend a vote."@).subrange(h3.len() as int, h3.len() + raw.len() as int) =~= raw);
}

/// In dry-run mode no bundled strategy ever asks for a transaction to be
/// submitted, whatever the decision; outside dry-run mode they all do.
pub proof fn lemma_bundled_dry_run(decision: Decision, dry_run: bool)
    ensures
        ArbScout.spec_should_execute(decision, dry_run) == !dry_run,
        LiquidationWatch.spec_should_execute(decision, dry_run) == !dry_run,
        DaoVote.spec_should_execute(decision, dry_run) == !dry_run,
{
}

/// Every bundled strategy consults the deep model.
pub proof fn lemma_bundled_use_deep_model(fast: Seq<char>, deep: Seq<char>)
    ensures
        ArbScout.spec_model(fast, deep) == deep,
        LiquidationWatch.spec_model(fast, deep) == deep,
        DaoVote.spec_model(fast, deep) == deep,
{
}

/// Each bundled strategy consults the model on every state of its own kind,
/// whatever the snapshot, with its fixed head, the snapshot, and its fixed
/// tail; on any other kind it stays silent.
pub proof fn lemma_bundled_prompts(state: ObservedState)
    ensures
        state.kind@ == "price_divergence"@ ==> ArbScout.spec_relevant(state) == Some(
            "Detected price divergence across DEXs.\nSnapshot:\n"@ + state.raw_json@ + "\nDecide whether to arb."@,
        ),
        state.kind@ != "price_divergence"@ ==> ArbScout.spec_relevant(state) is None,
        state.kind@ == "loan_health"@ ==> LiquidationWatch.spec_relevant(state) == Some(
            "Lending position update.\n"@ + state.raw_json@ + "\nDecide whether to liquidate."@,
        ),
        state.kind@ != "loan_health"@ ==> LiquidationWatch.spec_relevant(state) is None,
        state.kind@ == "proposal"@ ==> DaoVote.spec_relevant(state) == Some(
            "New DAO proposal.\n"@ + state.raw_json@ + "\nRecommend a vote."@,
        ),
        state.kind@ != "proposal"@ ==> DaoVote.spec_relevant(state) is None,
{
}

/// The bundled strategies' names and system prompts.
pub proof fn lemma_bundled_names_and_prompts()
    ensures
        ArbScout.spec_name() == "arb-scout"@,
        LiquidationWatch.spec_name() == "liquidation-watch"@,
        DaoVote.spec_name() == "dao-vote"@,
        ArbScout.spec_system_prompt() == r#"You are a Solana arbitrage analyst. Given a divergence snapshot across
DEXs, output strict JSON: {action: "arb"|"skip", reason: str, confidence: 0..1,
params: {legs: [{dex, side, mint, size_lamports}, ...]}}. Skip if the gross
edge after estimated 5 bps swap fees and 0.001 SOL gas is below 0.2 %."#@,
        LiquidationWatch.spec_system_prompt() == r#"You are a liquidation bot operator on Solana. Output strict JSON:
{action: "liquidate"|"watch"|"skip", reason: str, confidence: 0..1, params:
{user, market, repay_lamports, expected_profit_lamports}}. Liquidate only when
expected net profit > 0.01 SOL and health factor < 1.0."#@,
        DaoVote.spec_system_prompt() == r#"You are a DAO governance analyst. Output strict JSON: {action:
"yes"|"no"|"abstain", reason: str, confidence: 0..1, params: {proposal_id,
weight}}. Reason should cite specific risks/benefits in <= 2 sentences."#@,
{
}

/// Selecting by name: exactly the three names "arb-scout", "liquidation-watch"
/// and "dao-vote" select a strategy, each its own.
pub proof fn lemma_names_select(name: Seq<char>)
    ensures
        name == "arb-scout"@ ==> kind_of_name(name) == Some(StrategyKind::ArbScout),
        name == "liquidation-watch"@ ==> kind_of_name(name) == Some(StrategyKind::LiquidationWatch),
        name == "dao-vote"@ ==> kind_of_name(name) == Some(StrategyKind::DaoVote),
        name != "arb-scout"@ && name != "liquidation-watch"@ && name != "dao-vote"@ ==> kind_of_name(
            name,
        ) is None,
        kind_name(StrategyKind::ArbScout) == "arb-scout"@,
        kind_name(StrategyKind::LiquidationWatch) == "liquidation-watch"@,
        kind_name(StrategyKind::DaoVote) == "dao-vote"@,
{
    broadcast use vstd::string::group_string_axioms;
    reveal_strlit("arb-scout");
    reveal_strlit("liquidation-watch");
    reveal_strlit("dao-vote");
    assert("arb-scout"@.len() == 9);
    assert("liquidation-watch"@.len() == 17);
    assert("dao-vote"@.len() == 8);
}

proof fn lemma_trim_start_shape(s: Seq<char>) -> (i: int)
    ensures
        0 <= i <= s.len(),
        trim_start(s) == s.subrange(i, s.len() as int),
        forall|k: int| 0 <= k < i ==> is_white_space(#[trigger] s[k]),
        i == s.len() || !is_white_space(s[i]),
    decreases s.len(),
{
    if s.len() > 0 && is_white_space(s[0]) {
        let j = lemma_trim_start_shape(s.drop_first());
        assert(s.drop_first().subrange(j, s.drop_first().len() as int) =~= s.subrange(j + 1, s.len() as int));
        assert forall|k: int| 0 <= k < j + 1 implies is_white_space(#[trigger] s[k]) by {
            if k > 0 {
                assert(s[k] == s.drop_first()[k - 1]);
            }
        }
        j + 1
    } else {
        assert(s.subrange(0, s.len() as int) =~= s);
        0
    }
}

proof fn lemma_trim_end_shape(s: Seq<char>) -> (j: int)
    ensures
        0 <= j <= s.len(),
        trim_end(s) == s.subrange(0, j),
        forall|k: int| j <= k < s.len() ==> is_white_space(#[trigger] s[k]),
        j == 0 || !is_white_space(s[j - 1]),
    decreases s.len(),
{
    if s.len() > 0 && is_white_space(s.last()) {
        let j = lemma_trim_end_shape(s.drop_last());
        assert(s.drop_last().subrange(0, j) =~= s.subrange(0, j));
        assert forall|k: int| j <= k < s.len() implies is_white_space(#[trigger] s[k]) by {
            if k < s.len() - 1 {
                assert(s[k] == s.drop_last()[k]);
            }
        }
        j
    } else {
        assert(s.subrange(0, s.len() as int) =~= s);
        s.len() as int
    }
}

/// The decision text of a reply is the reply cut at two places: what is cut
/// away in front and behind is white space only, and the text neither starts
/// nor ends with white space.
pub proof fn lemma_decision_text_is_trimmed_reply(reply: Seq<char>)
    ensures
        exists|i: int, j: int|
            #![trigger reply.subrange(i, j)]
            {
                &&& 0 <= i <= j <= reply.len()
                &&& trim_end(trim_start(reply)) == reply.subrange(i, j)
                &&& forall|k: int| 0 <= k < i ==> is_white_space(#[trigger] reply[k])
                &&& forall|k: int| j <= k < reply.len() ==> is_white_space(#[trigger] reply[k])
            },
        trim_end(trim_start(reply)).len() == 0 || (!is_white_space(trim_end(trim_start(reply))[0])
            && !is_white_space(trim_end(trim_start(reply)).last())),
{
    let i = lemma_trim_start_shape(reply);
    let rest = reply.subrange(i, reply.len() as int);
    let j = lemma_trim_end_shape(rest);
    let out = rest.subrange(0, j);
    assert(out =~= reply.subrange(i, i + j));
    assert forall|k: int| i + j <= k < reply.len() implies is_white_space(#[trigger] reply[k]) by {
        assert(reply[k] == rest[k - i]);
    }
    if out.len() > 0 {
        assert(out[0] == reply[i]);
        assert(out.last() == rest[j - 1]);
    }
    assert(reply.subrange(i, i + j) == trim_end(trim_start(reply)));
}

/// The Unicode White_Space property, character by character.
pub proof fn lemma_white_space_chars(c: char)
    ensures
        is_white_space(c) <==> (c == '\t' || c == '\n' || c == '\u{b}' || c == '\u{c}' || c == '\r'
            || c == ' ' || c == '\u{85}' || c == '\u{a0}' || c == '\u{1680}' || ('\u{2000}' <= c
            && c <= '\u{200a}') || c == '\u{2028}' || c == '\u{2029}' || c == '\u{202f}' || c
            == '\u{205f}' || c == '\u{3000}'),
{
}

} // verus!
