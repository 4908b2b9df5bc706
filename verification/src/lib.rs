//! Verified core of a binding to a native address normalisation and parsing
//! engine.
//!
//! The engine itself is reached through foreign calls that live outside this
//! crate. What is proved here is everything the binding decides around those
//! calls: when a query may be issued, what bytes are handed to the engine,
//! which setup and teardown calls are due, and how the engine's raw answers
//! are decoded into text.

pub mod c_string;
pub mod components;
pub mod context;
pub mod error;
pub mod expansions;
pub mod lock;
pub mod options;
pub mod state;
pub mod text;

pub use c_string::{find_nul, to_c_string};
pub use components::{Component, Components};
pub use context::{Context, ExpandCall, InitSession, ParseCall};
pub use error::PostalError;
pub use expansions::Expansions;
pub use lock::CallLock;
pub use options::{ExpandAddressOptions, InitOptions, ParseAddressOptions};
pub use state::{EngineState, Flags, SetupAnswers, SetupCall, TeardownCall};
