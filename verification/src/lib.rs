//! Supervisor for the two auxiliary local-network services bundled with a
//! desktop application shell: binary resolution across bundling layouts,
//! ordered startup with TCP-readiness confirmation, an idempotent one-shot
//! launch sequence, and best-effort teardown.
//!
//! The host shell performs the actual process spawning, filesystem access and
//! TCP probing; every decision — which path to try, what environment to hand a
//! child, when a wait has timed out, what the registry holds — is taken here
//! and verified.

pub mod launch;
pub mod platform;
pub mod resolve;
pub mod supervisor;
pub mod probe;
pub mod text;
