//! Connection configuration consumed by the discovery session.
//!
//! A session stores a private copy of this snapshot at creation time, so a
//! later change to the connection's configuration never alters a search that
//! is already in progress.

use vstd::prelude::*;

verus! {

/// Compression scheme the framing layer applies to outgoing datagrams.
///
/// Discovery only consumes the scheme's fixed per-datagram marker overhead:
/// Lz4 framing spends one marker byte plus four original-size bytes, every
/// other scheme spends a single marker byte.
#[derive(Clone, Copy, Debug)]
pub enum CompressionAlgorithm {
    NoCompression,
    Zlib,
    Lz4,
}

/// Read-only configuration snapshot for one peer connection.
#[derive(Clone, Copy, Debug)]
pub struct Config {
    /// Master switch: when false, the tick handler never probes nor mutates
    /// any state.
    pub use_pmtu_discovery: bool,
    /// Initial effective fragment size, used until the search converges.
    pub fragment_size: u16,
    /// Initial binary-search lower bound (bytes).
    pub pmtu_min: u16,
    /// Initial binary-search upper bound (bytes).
    pub pmtu_max: u16,
    /// Minimum spacing between probe attempts (milliseconds).
    pub pmtu_interval_ms: u64,
    /// The search stops once `high - low` is at or below this threshold.
    pub pmtu_converge_threshold: u16,
    /// Largest datagram the receiver accepts in one piece; clamps the upper
    /// bound and the advertised probe size.
    pub receive_buffer_max_size: usize,
    /// Compression scheme of the framing layer (overhead accounting only).
    pub compression: CompressionAlgorithm,
    /// Whether the framing layer appends a four-byte checksum.
    pub use_checksums: bool,
}

/// Largest datagram size the transport can deliver in one piece, as a
/// 16-bit size: `receive_buffer_max_size` capped at the `u16` maximum.
pub open spec fn spec_datagram_cap(c: Config) -> u16 {
    if c.receive_buffer_max_size >= 65535 {
        65535u16
    } else {
        c.receive_buffer_max_size as u16
    }
}

/// A configuration under which the session invariant is maintained by every
/// operation: ordered initial bounds, a positive convergence threshold (a
/// zero threshold lets a timed-out probe at the exact lower bound drag the
/// upper bound below the lower one), and a datagram capacity that can hold
/// the lower bound.
pub open spec fn spec_config_valid(c: Config) -> bool {
    &&& c.pmtu_min <= c.pmtu_max
    &&& c.pmtu_converge_threshold >= 1
    &&& c.pmtu_min <= spec_datagram_cap(c)
}

impl Default for Config {
    /// Defaults for one peer connection: discovery on, classic minimal MTU
    /// as the floor, a conservative Ethernet-sized ceiling.
    fn default() -> (c: Self)
        ensures
            c.use_pmtu_discovery == true,
            c.fragment_size == 1280,
            c.pmtu_min == 576,
            c.pmtu_max == 1400,
            c.pmtu_interval_ms == 1000,
            c.pmtu_converge_threshold == 16,
            c.receive_buffer_max_size == 65536,
            c.compression is NoCompression,
            c.use_checksums == false,
            spec_config_valid(c),
    {
        Config {
            use_pmtu_discovery: true,
            fragment_size: 1280,
            pmtu_min: 576,
            pmtu_max: 1400,
            pmtu_interval_ms: 1000,
            pmtu_converge_threshold: 16,
            receive_buffer_max_size: 65536,
            compression: CompressionAlgorithm::NoCompression,
            use_checksums: false,
        }
    }
}

} // verus!
