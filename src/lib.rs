//! Governance core for a multi-agent automation system: a per-project policy
//! store that decides whether an agent may act on a resource, and an
//! append-only audit log that tracks runs and summarises them. Around them:
//! the registry of projects and workstreams, and the layout of vault notes.
pub mod json;
pub mod text;
pub mod policy;
pub mod audit;
pub mod workspace;
pub mod vault;
mod outside;
