//! Core of a local-model inference gateway: backend selection, GPU backend
//! configuration, load planning, the token-generation loop, and the one-shot
//! backend registry, all with verified contracts.

pub mod adapter;
pub mod engine;
pub mod generate;
pub mod invariants;
pub mod registry;
pub mod server;
pub mod llama;
pub mod strutil;
