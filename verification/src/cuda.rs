//! Devices and primary contexts, as far as a session's decisions go: the
//! native calls are the caller's, their status codes are read here.

pub mod context;
pub mod device;
