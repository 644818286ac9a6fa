//! Core logic of a QWERTY-to-Dvorak keyboard remapping daemon.
//!
//! The library holds everything the daemon decides: the fixed remap table,
//! per-device modifier tracking with shortcut-preserving passthrough, the
//! bounded event channel with its differentiated drop-vs-block policy, the
//! output writer's failure backoff and ceiling, device qualification and the
//! startup retry policy, and the cooperative shutdown lifecycle.  The thin
//! process shell that touches device nodes, signals and threads lives outside
//! and consults these functions for every decision.

pub mod channel;
pub mod keys;
pub mod lifecycle;
pub mod modifier;
pub mod policy;
pub mod reader;
pub mod remap;
pub mod startup;
pub mod writer;
