//! Verified core of an asynchronous adapter for Unix sequenced-packet
//! ("seqpacket") sockets.
//!
//! A seqpacket socket is connection-oriented like a stream but preserves
//! discrete message boundaries like a datagram. Bridging its non-blocking
//! operations to a cooperative, readiness-driven executor is delicate: a
//! "would block" answer must become a suspension that resumes exactly when
//! the descriptor is ready again, with no missed wakeup and no busy-polling.
//!
//! This crate verifies the parts of that bridge that are pure decisions and
//! state:
//! - [`poll`]: the retry/suspend step taken after every non-blocking attempt,
//!   and the proof that a trace of polls completes at the first productive
//!   readiness event — would-block never escapes and never causes a stall;
//! - [`conn`]: the message-level model of a connected pair — queues that
//!   preserve message boundaries, shutdown of either half, peer credentials
//!   and the peer security label;
//! - [`listener`]: the accept-queue model — pending connections leave in
//!   first-in first-out order;
//! - [`addr`] and [`credentials`]: plain-value forms of socket addresses and
//!   peer credentials.
//!
//! The raw descriptors, syscalls and the reactor are not here: an unverified
//! shell owns them, asks these functions what to do after each attempt, and
//! performs the returned action.

pub mod addr;
pub mod conn;
pub mod credentials;
pub mod error;
pub mod listener;
pub mod poll;
