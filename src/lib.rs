//! Read-only access to the X11 resize-and-rotate extension: the decisions
//! taken while opening a display handle and the records built from the
//! server's replies, each stated and proved over plain values.

pub mod crtc;
pub mod error;
pub mod handle;
pub mod rotation;
