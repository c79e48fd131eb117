//! A safe, resource-managed interface to a streaming MP3 encoder.
//!
//! The encoder engine itself is a black box reached through the
//! [`Backend`] trait. This crate owns everything around it: the
//! translation of the engine's integer status codes into two closed error
//! types, the conversion of parameters to and from the engine's native
//! integers, the conditions on buffer sizes that must hold before a
//! buffer is handed to the engine, and the context type [`Lame`], which
//! owns one engine handle and makes each call on it.
//!
//! Nothing here panics. Where a call has a condition on its arguments, the
//! condition is its `requires`, and a sibling without one says in its
//! result whether the condition held.

pub mod backend;
pub mod encoder;
pub mod error;
pub mod native;

pub use crate::backend::Backend;
pub use crate::encoder::Lame;
pub use crate::error::{EncodeError, Error};
