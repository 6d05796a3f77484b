//! A contract that issues two fungible tokens through the asset module and
//! counts the reply callbacks that the host delivers for them.
//!
//! The stored state is handed to each entry point as an explicit handle:
//! `None` until the first issue, reset by every issue, raised by every reply.

pub mod contract;
pub mod decimal;
pub mod error;
pub mod lifecycle;
pub mod msg;
pub mod state;
