# solana_ai_agent

The decision core of an AI-driven on-chain agent for Solana, verified with Verus.

- `src/strategy.rs`: the `Strategy` trait and the bundled strategies
  (arb-scout, liquidation-watch, dao-vote): when to consult the model, with
  which prompt, which model, and whether a decision is executed; selecting a
  strategy by name; the part of a model reply that holds the decision.
- `src/agent.rs`: the agent's step from each event (new state, model
  decision, failed consultation, end of stream) to its next action, and the
  chat request that consults the model.
- `src/mimo.rs`: the chat-completions endpoint address, requests, the retry
  policy (at most four attempts, backoff 1 s, 2 s, 4 s, retrying only server
  errors and failures to connect) and how a response becomes a reply.
- `src/config.rs`: settings, their defaults, environment overrides and
  command-line flags.

`app/` runs the agent: command line, settings files and environment, HTTP,
JSON, the chain connection and logging.
