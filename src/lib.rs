//! Capability registry and tool-calling orchestration for an AI assistant backend.
//!
//! - [`manifest`]: capability identity, versions and the compatibility rule.
//! - [`tool`]: the tool contract (definitions, results, errors).
//! - [`loader`]: the registry, with registration gating and the lifecycle state machine.
//! - [`chat`]: one user turn: prompts, the tool-call scanner and the bounded round machine.
//! - [`filesystem`], [`api`]: the filesystem and REST capabilities.
//! - [`providers`], [`prompts`], [`conversation`], [`config`], [`routes`]: supporting values.

pub mod api;
pub mod builtin;
pub mod chat;
pub mod config;
pub mod conversation;
pub mod filesystem;
pub mod json;
pub mod loader;
pub mod manifest;
pub mod prompts;
pub mod providers;
pub mod routes;
pub mod text;
pub mod tool;
