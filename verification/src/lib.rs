//! Reliable command channel for driving a long-lived peer process.
//!
//! The crate models the protocol logic of a small command-delivery client:
//! correlation ids with a URL-safe base64 text form, the wire format for
//! requests and responses, the send-and-await-acknowledgment exchange state
//! machine, a debounced filesystem watcher, and the dispatcher that maps
//! high-level operations onto command exchanges. All transport I/O lives
//! outside this crate; the logic here is pure and fully specified.

pub mod b64;
pub mod id64;
pub mod channel;
pub mod dispatcher;
pub mod protocol;
pub mod watcher;
