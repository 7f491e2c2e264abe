//! Core of a netcat-style relay: the decisions of one TCP or UDP session,
//! written as state machines over plain values so that every rule of the
//! session can be stated and proved. A driver performs the I/O the machines
//! ask for and reports back what happened.

pub mod cli;
pub use cli::Args;

pub mod net;
pub use net::{tcp, udp};

pub mod text;
