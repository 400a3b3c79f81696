//! A two-way channel between two parties.
//!
//! [`channel`] opens two bounded first-in-first-out queues and hands back two
//! [`Channel`] endpoints, cross-wired: what one endpoint sends, only the other
//! receives, in the order sent. Each endpoint is released by dropping it; a
//! released endpoint closes its outgoing queue for the peer's receives (once
//! drained) and its incoming queue for the peer's sends.
//!
//! The queues are tokio's bounded `mpsc` channels. A send or a receive that
//! has to wait does so as a future, which the caller awaits on its own
//! executor; nothing here blocks a thread.

pub mod endpoint;
pub mod error;
pub mod queue;

pub use endpoint::{channel, paired, Channel, Direction, QueueLabel, Wiring};
pub use error::{send_result, try_recv_result, ChannelClosed, InvalidCapacity, RecvError};
pub use queue::{valid_capacity, MAX_CAPACITY};
