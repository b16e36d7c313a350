//! Decision core of an AI-driven on-chain agent: strategies that decide
//! when to consult a model, the prompts and chat requests they produce,
//! the retry policy for the model endpoint, and the settings the agent runs with.

pub mod config;
pub mod strategy;
pub mod mimo;
pub mod agent;
