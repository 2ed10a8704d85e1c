//! Request-handling core of an embedding gateway: it resolves a
//! client-supplied model name against a read-only registry, threads
//! optional caller credentials through to the invocation stage, and
//! normalizes the execution engine's raw result into the gateway's
//! public response schema. Transport, credential validation and the
//! engine itself live outside this crate.

pub mod embedding;
pub mod gateway;
pub mod registry;
