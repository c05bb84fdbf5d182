//! Verified core of a peer-to-peer negotiation bridge.
//!
//! A native media engine drives negotiation through single-shot callbacks
//! fired from threads this crate does not control. The modules here give that
//! bridge a verified sequential core:
//!
//! - `completion`: a one-shot cell turning "exactly one callback, unknown
//!   thread" into "one settled outcome", with abandonment distinct from
//!   success and from failure;
//! - `events`: a table of independently replaceable handler slots, one per
//!   connection-lifecycle event kind;
//! - `protocol`: the offer/answer signaling state machine that the engine
//!   owns and this core relays;
//! - `session`: the facade composing the above, with idempotent close and
//!   abandonment of in-flight operations on teardown;
//! - `sdp`, `data_channel`, `error`, `media`, `recording`: the value types,
//!   error taxonomy and engine-facing interfaces exchanged with the caller.
//!
//! Everything that must run on a foreign thread or suspend a task (locks,
//! channels, awaits, the native calls themselves) lives outside this crate;
//! callers drive these state machines and hand back the engine's replies.

pub mod completion;
pub mod data_channel;
pub mod error;
pub mod events;
pub mod media;
pub mod protocol;
pub mod recording;
pub mod sdp;
pub mod session;
