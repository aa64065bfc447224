//! A readiness reactor, without the kernel calls.
//!
//! The crate computes what a one-shot readiness facility of the epoll family
//! is asked, and reads what it answers. Making the calls is left to the
//! embedding program.

pub mod call;
pub mod error;
pub mod event;
pub mod events;
pub mod flags;
pub mod laws;
pub mod operation;
pub mod reactor;
pub mod timeout;
