//! The agent's decisions: what to do with each observed state, each model
//! decision and the end of the stream. The caller performs the actions
//! (consulting the model, submitting, logging) and hands back what happened.

use vstd::prelude::*;
use crate::mimo::{ChatMessage, ChatRequest, JSON_OBJECT_FORMAT};
use crate::strategy::{Decision, ObservedState, Strategy};

verus! {

/// Token budget of the model's reply when a strategy consults it.
pub const CONSULT_MAX_TOKENS: u32 = 1024;

/// The request that consults the model for `strategy` about `user_prompt`:
/// the strategy's model choice, its system prompt then the user prompt, a
/// budget of 1024 tokens, and a JSON-object reply.
pub fn consult_request<'a, S: Strategy>(
    strategy: &'a S,
    user_prompt: &'a str,
    fast_model: &'a str,
    deep_model: &'a str,
) -> (r: ChatRequest<'a>)
    ensures
        r.model@ == strategy.spec_model(fast_model@, deep_model@),
        r.messages@.len() == 2,
        r.messages@[0].role@ == "system"@,
        r.messages@[0].content@ == strategy.spec_system_prompt(),
        r.messages@[1].role@ == "user"@,
        r.messages@[1].content@ == user_prompt@,
        r.max_tokens == CONSULT_MAX_TOKENS,
        r.response_format == Some(JSON_OBJECT_FORMAT),
{
    let model = strategy.model(fast_model, deep_model);
    let mut messages: Vec<ChatMessage<'a>> = Vec::new();
    messages.push(ChatMessage { role: "system", content: strategy.system_prompt() });
    messages.push(ChatMessage { role: "user", content: user_prompt });
    ChatRequest::new(model, messages, CONSULT_MAX_TOKENS, true)
}

/// What happened, as told to the agent.
pub enum AgentEvent {
    /// New on-chain state arrived.
    Observed(ObservedState),
    /// The model was consulted about the last relevant state: its decision,
    /// or why there is none.
    Consulted(Result<Decision, String>),
    /// The stream of observed state has ended.
    Closed,
}

/// What the agent does next.
#[derive(Debug)]
pub enum AgentAction {
    /// Nothing: the state does not concern the strategy.
    Idle,
    /// Consult the model with this prompt.
    Consult(String),
    /// Submit a transaction for this decision.
    Submit(Decision),
    /// Submit nothing for this decision (dry run, or the strategy declines).
    Skip(Decision),
    /// Report that consulting the model failed, and go on.
    Warn(String),
    /// Stop: there is no more state.
    Stop,
}

/// An agent: a strategy, the two models it may choose between, and whether
/// it only simulates.
pub struct Agent<S: Strategy> {
    pub strategy: S,
    pub fast_model: String,
    pub deep_model: String,
    pub dry_run: bool,
}

impl<S: Strategy> Agent<S> {
    /// `action` is what this agent does on `event`.
    pub open spec fn is_action_for(&self, event: AgentEvent, action: AgentAction) -> bool {
        match event {
            AgentEvent::Observed(state) => match self.strategy.spec_relevant(state) {
                Some(prompt) => action matches AgentAction::Consult(p) && p@ == prompt,
                None => action is Idle,
            },
            AgentEvent::Consulted(Ok(decision)) => if self.strategy.spec_should_execute(decision, self.dry_run) {
                action == AgentAction::Submit(decision)
            } else {
                action == AgentAction::Skip(decision)
            },
            AgentEvent::Consulted(Err(e)) => action == AgentAction::Warn(e),
            AgentEvent::Closed => action is Stop,
        }
    }

    /// Whether a transaction is submitted for `decision`.
    pub fn act_on(&self, decision: &Decision) -> (submit: bool)
        ensures
            submit == self.strategy.spec_should_execute(*decision, self.dry_run),
    {
        self.strategy.should_execute(decision, self.dry_run)
    }

    /// The request that consults the model about `user_prompt`, choosing
    /// between this agent's fast and deep models.
    pub fn consult_request<'a>(&'a self, user_prompt: &'a str) -> (r: ChatRequest<'a>)
        ensures
            r.model@ == self.strategy.spec_model(self.fast_model@, self.deep_model@),
            r.messages@.len() == 2,
            r.messages@[0].role@ == "system"@,
            r.messages@[0].content@ == self.strategy.spec_system_prompt(),
            r.messages@[1].role@ == "user"@,
            r.messages@[1].content@ == user_prompt@,
            r.max_tokens == CONSULT_MAX_TOKENS,
            r.response_format == Some(JSON_OBJECT_FORMAT),
    {
        consult_request(&self.strategy, user_prompt, self.fast_model.as_str(), self.deep_model.as_str())
    }

    /// Decides what follows `event`: a state the strategy finds relevant is
    /// sent to the model with the strategy's prompt, any other is passed
    /// over; a decision is submitted or skipped as the strategy says for this
    /// agent's dry-run mode; a failed consultation is reported; the end of
    /// the stream stops the agent.
    pub fn step(&self, event: AgentEvent) -> (action: AgentAction)
        ensures
            self.is_action_for(event, action),
    {
        match event {
            AgentEvent::Observed(state) => match self.strategy.relevant(&state) {
                Some(prompt) => AgentAction::Consult(prompt),
                None => AgentAction::Idle,
            },
            AgentEvent::Consulted(Ok(decision)) => {
                if self.act_on(&decision) {
                    AgentAction::Submit(decision)
                } else {
                    AgentAction::Skip(decision)
                }
            },
            AgentEvent::Consulted(Err(e)) => AgentAction::Warn(e),
            AgentEvent::Closed => AgentAction::Stop,
        }
    }
}

// ---- laws -----------------------------------------------------------------

/// Dry-run mode submits nothing: an agent in dry-run mode whose strategy
/// never executes in dry run (as all bundled strategies do) never submits a
/// transaction, whatever happens.
pub proof fn lemma_dry_run_never_submits<S: Strategy>(agent: Agent<S>, event: AgentEvent, action: AgentAction)
    requires
        agent.dry_run,
        forall|d: Decision| !agent.strategy.spec_should_execute(d, true),
        agent.is_action_for(event, action),
    ensures
        !(action is Submit),
{
    if let AgentEvent::Consulted(Ok(d)) = event {
        assert(!agent.strategy.spec_should_execute(d, true));
    }
}

/// The model is consulted only about state that the strategy finds relevant,
/// and with the strategy's own prompt.
pub proof fn lemma_consults_only_relevant<S: Strategy>(agent: Agent<S>, event: AgentEvent, action: AgentAction)
    requires
        agent.is_action_for(event, action),
        action is Consult,
    ensures
        event matches AgentEvent::Observed(state) && agent.strategy.spec_relevant(state) == Some(
            action->Consult_0@,
        ),
{
}

/// What each event leads to: a failed consultation is reported, with its
/// error, and the agent goes on; only the end of the stream stops the agent;
/// observed state is either sent to the model with the strategy's prompt or
/// passed over; a decision is submitted exactly when the strategy executes it
/// in this agent's mode, and skipped otherwise.
pub proof fn lemma_step_outcomes<S: Strategy>(agent: Agent<S>, event: AgentEvent, action: AgentAction)
    requires
        agent.is_action_for(event, action),
    ensures
        event matches AgentEvent::Consulted(Err(e)) ==> action == AgentAction::Warn(e),
        action is Stop <==> event is Closed,
        event is Observed ==> (action is Consult || action is Idle),
        event matches AgentEvent::Observed(state) ==> (action is Consult <==> agent.strategy.spec_relevant(
            state,
        ) is Some),
        event matches AgentEvent::Observed(state) ==> (action matches AgentAction::Consult(p) ==> Some(p@)
            == agent.strategy.spec_relevant(state)),
        event matches AgentEvent::Consulted(Ok(d)) ==> (action == AgentAction::Submit(d) || action
            == AgentAction::Skip(d)),
        event matches AgentEvent::Consulted(Ok(d)) ==> (action is Submit
            <==> agent.strategy.spec_should_execute(d, agent.dry_run)),
{
}

/// Token budget of a consultation.
pub proof fn lemma_consult_budget()
    ensures
        CONSULT_MAX_TOKENS == 1024,
{
}

} // verus!
