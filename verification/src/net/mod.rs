//! The session machines: supervision shared by both transports, then one
//! module per transport.

pub mod addr;
pub mod session;
pub mod tcp;
pub mod udp;
