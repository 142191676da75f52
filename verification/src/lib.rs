//! Boxes for callables that can be run only once.
//!
//! A [`BoxFnOnce`] owns a callable of up to ten arguments behind a uniform
//! handle, so that callables of different concrete types can be stored and
//! passed around alike. Calling the box consumes it, so the callable runs at
//! most once. A [`SendBoxFnOnce`] is the same for callables that may be
//! handed to another thread.
//!
//! What a box is known to do is what its callable was known to do when it
//! was boxed: the box accepts the arguments that the callable accepts, and
//! yields on them what the callable yields.

pub mod arity;
pub mod boxed;
pub mod send_arity;
pub mod send_boxed;
pub mod send_slot;
pub mod slot;

pub use boxed::BoxFnOnce;
pub use send_boxed::SendBoxFnOnce;
