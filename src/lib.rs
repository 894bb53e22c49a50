//! A bounded message channel between a producing and a consuming controller,
//! with an XOR checksum on every message and a drop-oldest overwrite policy.
pub mod buffer;
pub mod message;
pub mod protocol;
