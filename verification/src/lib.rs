//! A verified session manager for autoregressive text generation on top of a
//! native inference engine.
//!
//! The library owns the logical state of one generation session: the token
//! codec's buffer discipline, the bounded context window with its key-value
//! cache counter, the repetition-penalty history, the sampling gate, and the
//! generation control loop as an explicit state machine. The native engine
//! itself (model loading, the evaluation kernel, the stochastic sampling
//! filters) is an external collaborator: an unverified driver performs those
//! calls and feeds their results back to the machine as plain values, and every
//! decision taken on those values is proved here.

pub mod context;
pub mod error;
pub mod generator;
pub mod history;
pub mod params;
pub mod sequence;
pub mod token;

pub use context::LContext;
pub use error::LError;
pub use generator::{LGenAction, LGenOutcome, LGenPhase, LGenerator};
pub use history::RepetitionTracker;
pub use params::{LContextConfig, LGeneratorParams, LSampleParams};
pub use sequence::LTokenSequence;
pub use token::LToken;
