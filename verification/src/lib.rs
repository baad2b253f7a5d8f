//! Protocol client, sampler and input state machine for a multi-channel
//! bench power supply driven over a newline-terminated ASCII line protocol.
//!
//! The crate holds the correctness-sensitive logic only: wire framing and
//! typed parsing of responses, command encoding at a fixed 3-decimal
//! precision, the bounded-retry sampling pass, and the cyclic
//! selection / text-entry state machine. Socket I/O and terminal rendering
//! live outside, behind the [`protocol::Transport`] capability trait.

pub mod client;
pub mod commands;
pub mod fixed;
pub mod input;
pub mod protocol;
pub mod sampler;
pub mod selection;
pub mod snapshot;

pub use client::Dp800;
pub use fixed::Fixed;
pub use input::InputState;
pub use protocol::Error;
pub use protocol::Identify;
pub use protocol::Measurement;
pub use protocol::Transport;
pub use selection::Vsel;
pub use snapshot::Snapshot;
