//! Dynamic, type-erased production and consumption of serde data.
//!
//! The concrete codec behind a serde `Serializer` or `Deserializer` is only known at run time,
//! and its generic methods cannot be called through one trait object. The bridges of this crate
//! hold the concrete codec, or the concrete composite it opened, in a single tagged stage. Each
//! call takes what the stage holds, hands it to the codec, and stores what the codec returned
//! under a new tag, so that the payload-free status of the call is all that crosses the dynamic
//! boundary.
//!
//! - [`error`]: the payload-free status codes and the descriptive errors.
//! - [`ser`]: the producing bridge.
//! - [`de`]: the consuming bridges.

pub mod de;
pub mod error;
pub mod ser;

