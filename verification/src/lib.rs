//! Composition of supergraphs: what the compose and dev commands decide, with proofs.
//!
//! Files, processes and the network are left to the caller. A command is a row of phases; each
//! says what is to be done outside and takes up what came of it.

pub mod compose;
pub mod dev;
pub mod exec;
pub mod extract;
pub mod laws;
pub mod options;
pub mod orchestrator;
pub mod output;
pub mod outside;
pub mod path;
pub mod resolving;
pub mod run;
pub mod subgraphs;
pub mod text;
pub mod version;
