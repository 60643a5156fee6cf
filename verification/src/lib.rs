//! A verified model of a minimal trap (exception/interrupt) dispatch layer.
//!
//! The crate models, as explicit data, the architecturally visible state of
//! one hardware thread — general-purpose registers plus the handful of
//! control/status registers that trap handling touches — and proves the
//! dispatch protocol over that model: install the trap vector, swap stacks
//! through the scratch register, save the minimal register subset, hand
//! control to a user-supplied handler, and restore exactly as much state as
//! the handler's returned restore level asks for before resuming.

pub mod context;
pub mod dispatch;
pub mod laws;
pub mod machine;
pub mod stack;
