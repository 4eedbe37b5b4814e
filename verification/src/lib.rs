//! Query orchestration kernel for an assistant. A user query is handed to a
//! language-model backend; tool requests found in the streamed output are
//! dispatched to a registry of tools and their results fed back, for a bounded
//! number of steps; and the run is resolved into one answer that carries its
//! text, its cited sources and the trace of its tool calls.
//!
//! The decisions of a run are a state machine (`engine`), stated over plain
//! values and proved with Verus; `run` drives it against the capabilities of
//! `capability`, of which nothing is assumed; `laws` holds what is true of
//! every run.

pub mod capability;
pub mod crypto;
pub mod engine;
pub mod errors;
pub mod laws;
pub mod model;
pub mod run;
pub mod sources;
pub mod syntax;
pub mod text;
pub mod trace;
pub mod transcript;

pub use crypto::{
    decrypt_config, encrypt_config, load_encrypted_config, save_encrypted_config, CryptoError,
    EncryptedConfig,
};
pub use capability::{ChunkSink, ChunkStream, ModelBackend, Tool};
pub use errors::{CoreError, ErrorCode};
pub use model::{AnswerChunk, FinalAnswer, Source, ToolTrace, UserQuery};
pub use run::{run_query, run_query_streaming, AppConfig};
