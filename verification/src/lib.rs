//! Decision core of an agent harness: permission policy, turn and runtime state
//! machines, context bookkeeping and protocol rules, with proved contracts.
pub mod acp_loop;
pub mod acp_server;
pub mod acp_updates;
pub mod actor;
pub mod agent;
pub mod agent_builder;
pub mod agent_events;
pub mod builtin_tools;
pub mod cloud_github;
pub mod context_engine;
pub mod context_projection;
pub mod context_run;
pub mod context_step;
pub mod hooks;
pub mod json;
pub mod llm;
pub mod model_executor;
pub mod permission;
pub mod prepare_step;
pub mod publish;
pub mod read_tool;
pub mod skills;
pub mod subagent;
pub mod text;
pub mod turn_loop;
pub mod turn_state;
