//! The notification delivery pipeline of a database client, without the I/O:
//! the queue of pending notifications, the desynchronization latch, and the
//! decisions that each pull makes around the transport read.
//!
//! The transport itself stays with the caller. A pull asks for a read by
//! returning [`Step::Read`], and takes what the read gave in `finish`.

pub mod connection;
pub mod error;
pub mod history;
pub mod iter;
pub mod record;

pub use crate::connection::{Connection, ConnectionState, ReadStrategy, Step};
pub use crate::error::Error;
pub use crate::iter::{BlockingIter, Iter, Notifications, TimeoutIter};
pub use crate::record::{Message, Notification};
