//! Decode-session core of a hardware video decoder.
//!
//! The crate holds the decisions of a decode session: how a coded video
//! format is negotiated against a device's capabilities, when an existing
//! decoder can be reconfigured in place and when it has to be recreated,
//! how display-ready pictures become delivered frames, and how submitted
//! packets are correlated with those frames. The device itself is driven by
//! the caller: the session is told what the device and the parser said, and
//! answers with what to ask of them next.

pub mod codec;
pub mod cuda;
pub mod delivery;
pub mod display;
pub mod error;
pub mod format;
pub mod negotiate;
pub mod packet;
pub mod run;
pub mod session;
pub mod surface;
