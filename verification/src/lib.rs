//! The Enlightened Cat: a small wisdom service core.
//!
//! This crate holds the state, caching, conversation and variant-collapse
//! logic of the service: per-session conversation histories, a quantum-styled
//! multi-candidate wisdom value that collapses to one text on observation, a
//! six-node wisdom field with domain-specific renderings, and a per-day cache
//! that decides when the external language-model gateway must be called again.
//! The HTTP server, the gateway client and all other I/O live outside, in a
//! thin shell that calls into this library with plain values.


pub mod config;
pub mod conversations;
pub mod mistral;
pub mod quantum;
pub mod quantum_field;
pub mod routes;
pub mod state;
pub mod templates;
pub mod text;

pub use config::Config;
pub use conversations::ConversationStore;
pub use mistral::{Conversation, ProviderError};
pub use quantum::{QuantumMetadata, QuantumPhenomenon, QuantumWisdom};
pub use quantum_field::{QuantumField, WisdomNode};
pub use state::{CacheEntry, SharedState};
