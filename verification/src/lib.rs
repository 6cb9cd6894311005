//! Structured, stable, safely client-facing error identifiers.
//!
//! Every error occurrence is projected into an [`error_info::ErrorInfo`]
//! value: a typed application code, a static category tag, a short
//! deterministic fingerprint of the detailed message, and a pair of
//! messages — one safe to show externally, one kept for diagnostics. Both
//! renderings share the same `[code-hash]` tag, so a client-visible report
//! and the matching server log line can be correlated.

pub mod error_info;
pub mod fingerprint;
