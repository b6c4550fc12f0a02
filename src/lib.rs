//! Verified core of the meowdown desktop shell: the greeting command, the
//! HTTP proxy commands' request descriptions and result mapping, the
//! start-up decisions around the backend sidecar, and the one-shot
//! readiness notifier.
pub mod greeting;
pub mod http;
pub mod notifier;
pub mod setup;
