//! Athena's agent core: iteration budgets, conversation bookkeeping,
//! context compression, prompt assembly and the rules of its tools.
pub mod agent;
pub mod budget;
pub mod message;
pub mod text;
pub mod context;
pub mod kanban;
pub mod sessions;
pub mod stream;
pub mod conversation;
pub mod skills;
pub mod prompts;
pub mod gateway;
pub mod tools;
pub mod ids;
