//! Readiness multiplexing, with the kernel calls left to the caller.
//!
//! The crate holds everything that is decided around those calls: the sets
//! of conditions, how they are written in the kernel's masks, the registry
//! of watched descriptors, and the rules by which a kernel reply changes
//! it. There are two multiplexers with the same operations: `epoll::Poller`
//! for the `epoll` facility of Linux, which the crate root names `Poller`,
//! and `select::Poller` for `select`, which is there wherever `epoll` is
//! not.

pub mod epoll;
pub mod error;
pub mod events;
pub mod fdset;
pub mod mask;
pub mod registry;
pub mod select;
pub mod sys;
pub mod text;

pub use epoll::{Poller, PollerView, RawEvent, Request};
pub use error::{Reply, SysError};
pub use events::{Event, Events};
pub use fdset::FdSet;
pub use registry::EventData;
