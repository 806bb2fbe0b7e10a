//! Core protocol for remote stack unwinding: the attach/cursor/step/register/
//! symbol-name state machine around an external unwinding library.
//!
//! The foreign library itself (address spaces, attach handles, the actual
//! stack walk) is an external collaborator; this crate holds the decision
//! logic that drives it: the cursor iteration protocol, the error mapping for
//! register reads, and the growable-buffer protocol for procedure-name
//! resolution. A thin unverified shell performs the foreign calls and feeds
//! their return codes into these functions.

pub mod cursor;
pub mod error;
pub mod frames;
pub mod name;
pub mod session;

pub use error::Error;
