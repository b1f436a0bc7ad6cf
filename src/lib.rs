//! A TCP relay for an overlay-network endpoint: the decisions of the relay
//! (argument parsing, network bring-up sequencing, the per-direction byte
//! copier, the session close policy and the accept loop policy) as verified
//! state machines. The caller performs the I/O and feeds back the outcomes.

pub mod io_kind;
pub mod args;
pub mod copier;
pub mod session;
pub mod accept;
pub mod bringup;
