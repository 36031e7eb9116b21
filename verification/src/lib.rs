//! Lifecycle status tracking for a deployable manifest.
//!
//! A deployment passes through three sequential phases: template
//! generation, cluster application, and rollout verification.  This
//! library models the outcome of each phase as a timestamped, attributed
//! [`condition::Condition`], derives a flattened human-readable summary,
//! and builds the minimal JSON merge-patch document that records one
//! phase transition on a remote record without touching any other field.
//!
//! The remote store itself (get and patch-by-name over HTTP) is a
//! collaborator: callers perform the I/O and hand the plain values back.

pub mod condition;
pub mod error;
pub mod json;
pub mod patch;
pub mod time;

pub use time::Timestamp;
