//! A streaming speech recognizer's lifecycle, kept apart from the engine that
//! does the recognizing.
//!
//! The engine is a native library that hands out raw handles. This crate holds
//! everything that is decided around it: which engine operation comes next,
//! what its answer means, when a handle must be given back, and how a decoded
//! transcript is cut into segments. Nothing here touches the engine. Each
//! operation is a small machine that names the next [`Call`] and takes the
//! engine's [`Reply`]; whoever owns the engine makes the call.

pub mod config;
pub mod decoding;
pub mod engine;
pub mod error;
pub mod laws;
pub mod ledger;
pub mod machine;
pub mod online;
pub mod result;
pub mod stream;

pub use config::{Settings, ZipFormerOnlineConfig};
pub use decoding::{Decoding, DecodingView, Stage, StageView, Task};
pub use engine::{Call, Reply, ReplyView, Step};
pub use error::Error;
pub use ledger::Ledger;
pub use machine::Machine;
pub use online::{Creation, CreationStage, ZipFormerOnline};
pub use result::{Transcript, ZipFormerResult};
pub use stream::{EndpointQuery, ZipFormerStream};
