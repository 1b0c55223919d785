//! Path-MTU discovery engine for a single peer connection.
//!
//! The library determines, by binary search over probe sizes, the largest
//! datagram size that traverses the current network path unfragmented.  It
//! never touches the network itself: the caller drives it with a monotonic
//! time value (milliseconds), hands in received replies, and transmits the
//! probe commands it returns.

pub mod command;
pub mod config;
pub mod discovery;
