//! A host for one actor whose behaviour is a sandboxed component.
//!
//! The actor's state is a structured value that only the [`ActorRuntime`]
//! owns. Each message is handed to the component together with the current
//! state; what the component returns becomes the new state. The component
//! reaches the outside world only through the host functions of the
//! interfaces it declares, and every message it sends is recorded in a
//! bounded audit log, the chain.
pub mod actor;
pub mod capabilities;
pub mod chain_emitter;
pub mod config;
pub mod envelope;
pub mod error;
pub mod http;
pub mod json;
pub mod runtime;
pub mod sandbox;
pub mod store;
pub mod wasm;

pub use config::ActorConfig;
pub use runtime::{ActorMessage, ActorRuntime};
