//! The core of a git pre-commit-style hook manager: building git commands
//! over a sanitized environment, interpreting the tool's output, acquiring
//! remote repositories with a shallow-then-full fallback, and installing or
//! removing generated hook shims without destroying pre-existing hooks.
//!
//! Everything here is pure with respect to the outside world: commands are
//! built and their outcomes interpreted as plain values, and the install,
//! uninstall and acquisition protocols are state machines over those
//! values. Running processes and touching the filesystem is the caller's
//! part.

pub mod invoke;
pub mod strutil;
pub mod git;
pub mod acquire;
pub mod hooks;
