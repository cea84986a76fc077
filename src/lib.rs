//! Session locking for a Wayland desktop: the session-lock state machine and
//! per-output surface bookkeeping, and the authentication conversation that
//! decides when the lock may be released.

pub mod auth;
pub mod pam;
pub mod session_lock;
