//! A verified server-lifecycle supervisor for an application shell that
//! launches a local web-server process as a background child.
//!
//! The supervisor owns the running/not-running state of a single backing
//! server process, decides platform-specific launch parameters, plans the
//! one-time provisioning of a per-application data directory, and reports
//! liveness to callers.  All decision logic lives here with contracts; the
//! host application performs the actual filesystem and process operations
//! and feeds their outcomes back in.

pub mod camera;
pub mod layout;
pub mod lifecycle;
pub mod supervisor;
