//! The binary-search probing state machine.
//!
//! One [`PmtuDiscovery`] session per peer connection tracks a lower bound
//! (largest size confirmed deliverable) and an upper bound (smallest size
//! not yet confirmed), emits at most one probe at a time, infers loss from
//! timeouts, and converges once the bounds close to within a threshold.

use vstd::prelude::*;

use rand::RngCore;

use crate::command::ProtocolCommand;
use crate::config::{spec_config_valid, spec_datagram_cap, Config, CompressionAlgorithm};

verus! {

/// Relies on `rand::random::<u32>`: a fresh pseudorandom token.  Nothing is
/// promised of its value; token collisions are tolerable because at most
/// one token is live at a time.
#[verifier::external_body]
fn random_token() -> u32 {
    rand::random()
}

/// Relies on `rand::rng()` and `rand_core::RngCore::fill_bytes`, which
/// overwrites every byte of the buffer and leaves its length alone.  Only
/// the length is promised; the contents are pseudorandom.
#[verifier::external_body]
fn random_payload(len: usize) -> (r: Vec<u8>)
    ensures
        r@.len() == len,
{
    let mut buf = vec![0u8; len];
    rand::rng().fill_bytes(&mut buf);
    buf
}

/// Path-MTU discovery state for one peer connection.
///
/// Times are caller-supplied monotonic milliseconds; the session never
/// reads a clock of its own.
#[derive(Debug)]
pub struct PmtuDiscovery {
    /// Private configuration snapshot taken at creation.
    pub config: Config,
    /// Effective per-peer fragment size (bytes); the externally visible answer.
    pub fragment_size: u16,
    /// Binary-search lower bound: largest size confirmed deliverable (bytes).
    pub low: u16,
    /// Binary-search upper bound: smallest size not yet confirmed (bytes).
    pub high: u16,
    /// Time of the most recent probe attempt or bound update (milliseconds).
    pub last_probe: u64,
    /// At most one in-flight probe: (candidate size, token, sent time).
    pub outstanding: Option<(u16, u32, u64)>,
}

/// The smaller of two sizes.
pub open spec fn spec_min_u16(a: u16, b: u16) -> u16 {
    if a <= b {
        a
    } else {
        b
    }
}

/// The larger of two sizes.
pub open spec fn spec_max_u16(a: u16, b: u16) -> u16 {
    if a >= b {
        a
    } else {
        b
    }
}

/// Milliseconds elapsed from `then` to `now`, saturating at zero when the
/// caller hands in a time before `then`.
pub open spec fn spec_elapsed(now: u64, then: u64) -> int {
    if now >= then {
        now - then
    } else {
        0
    }
}

/// The reply deadline for an outstanding probe: the round-trip-time
/// estimate, floored at 200 milliseconds.
pub open spec fn spec_probe_timeout(rto_ms: u64) -> int {
    if rto_ms >= 200 {
        rto_ms as int
    } else {
        200
    }
}

/// `high - low`, saturating at zero.
pub open spec fn spec_gap(high: u16, low: u16) -> int {
    if high >= low {
        high - low
    } else {
        0
    }
}

/// Fixed per-datagram overhead the compression marker contributes: Lz4
/// spends one marker byte plus four original-size bytes, every other
/// scheme a single marker byte.
pub open spec fn spec_compression_overhead(c: Config) -> int {
    if c.compression is Lz4 {
        5
    } else {
        1
    }
}

/// Exact wire overhead of one probe command inside one datagram: the
/// per-datagram part (one command-count byte, the compression marker, four
/// checksum bytes when checksums are on) plus the per-command part (a
/// two-byte length prefix, one type byte, two size bytes, four token
/// bytes, two payload-length bytes).
pub open spec fn spec_total_overhead(c: Config) -> int {
    1 + spec_compression_overhead(c) + (if c.use_checksums {
        4int
    } else {
        0int
    }) + 2 + 1 + 2 + 4 + 2
}

/// Payload length for a probe advertising `target` bytes: the target minus
/// the wire overhead, floored at one byte so a scheduled probe is never
/// skipped outright.
pub open spec fn spec_payload_len(target: u16, c: Config) -> int {
    if target > spec_total_overhead(c) {
        target - spec_total_overhead(c)
    } else {
        1
    }
}

/// The binary-search midpoint of the bounds.
pub open spec fn spec_mid(low: u16, high: u16) -> u16 {
    (((low + high) / 2) as u16)
}

/// The session's upper bound after the datagram-capacity clamp a tick
/// applies before looking at convergence.
pub open spec fn spec_clamped_high(s: PmtuDiscovery) -> u16 {
    spec_min_u16(s.high, spec_datagram_cap(s.config))
}

/// Whether a tick taken now finds the search converged: the clamped upper
/// bound is within the convergence threshold of the lower bound.
pub open spec fn spec_converged(s: PmtuDiscovery) -> bool {
    spec_gap(spec_clamped_high(s), s.low) <= s.config.pmtu_converge_threshold
}

/// Whether the outstanding probe of `s`, if any, has waited longer than
/// the reply deadline by time `time`.
pub open spec fn spec_timed_out(s: PmtuDiscovery, time: u64, rto_ms: u64) -> bool {
    s.outstanding matches Some(p) && spec_elapsed(time, p.2) > spec_probe_timeout(rto_ms)
}

/// Whether a tick at `time` with estimate `rto_ms` emits a probe:
/// discovery on, nothing in flight, not converged after the clamp, and the
/// probe interval elapsed since the last attempt.
pub open spec fn tick_emits_probe(s: PmtuDiscovery, time: u64, rto_ms: u64) -> bool {
    &&& s.config.use_pmtu_discovery
    &&& s.outstanding is None
    &&& !spec_converged(s)
    &&& spec_elapsed(time, s.last_probe) >= s.config.pmtu_interval_ms
}

/// The advertised size of the probe a tick would emit from `s`: the
/// midpoint of the clamped bounds, itself clamped to the datagram capacity.
pub open spec fn spec_probe_size(s: PmtuDiscovery) -> u16 {
    spec_min_u16(spec_mid(s.low, spec_clamped_high(s)), spec_datagram_cap(s.config))
}

/// The payload length of the probe a tick would emit from `s`.
pub open spec fn spec_probe_payload_len(s: PmtuDiscovery) -> int {
    spec_payload_len(spec_probe_size(s), s.config)
}

/// The session state after one tick at `time` with estimate `rto_ms`.
/// `token` is the token drawn for the probe; it is consulted only in the
/// branch that emits one.
pub open spec fn tick_next(s: PmtuDiscovery, time: u64, rto_ms: u64, token: u32) -> PmtuDiscovery {
    if !s.config.use_pmtu_discovery {
        s
    } else {
        match s.outstanding {
            Some(p) => {
                if spec_elapsed(time, p.2) > spec_probe_timeout(rto_ms) {
                    PmtuDiscovery {
                        high: if p.0 > 0 {
                            spec_min_u16(s.high, (p.0 - 1) as u16)
                        } else {
                            s.high
                        },
                        outstanding: None,
                        last_probe: time,
                        ..s
                    }
                } else {
                    s
                }
            },
            None => {
                let h = spec_clamped_high(s);
                if spec_gap(h, s.low) <= s.config.pmtu_converge_threshold {
                    PmtuDiscovery { high: h, fragment_size: s.low, ..s }
                } else if spec_elapsed(time, s.last_probe) < s.config.pmtu_interval_ms {
                    PmtuDiscovery { high: h, ..s }
                } else {
                    PmtuDiscovery {
                        high: h,
                        outstanding: Some((spec_mid(s.low, h), token, time)),
                        last_probe: time,
                        ..s
                    }
                }
            },
        }
    }
}

/// Whether a reply carrying `token` is accepted by `s`: a probe is in
/// flight and the token matches it.  Stale, duplicated and spoofed replies
/// fail this.
pub open spec fn reply_accepted(s: PmtuDiscovery, token: u32) -> bool {
    s.outstanding matches Some(p) && p.1 == token
}

/// The session state after processing a reply of `size` bytes carrying
/// `token` at `time`: an accepted reply raises the lower bound to the
/// replied size, publishes it as the fragment size and clears the probe; a
/// rejected one changes nothing.
pub open spec fn reply_next(s: PmtuDiscovery, size: u16, token: u32, time: u64) -> PmtuDiscovery {
    if reply_accepted(s, token) {
        PmtuDiscovery {
            low: spec_max_u16(s.low, size),
            fragment_size: spec_max_u16(s.low, size),
            outstanding: None,
            last_probe: time,
            ..s
        }
    } else {
        s
    }
}

/// Law: every tick preserves the session invariant; in particular the
/// bounds stay ordered, `low <= high`, in every state a tick can reach.
pub proof fn lemma_tick_preserves_wf(s: PmtuDiscovery, time: u64, rto_ms: u64, token: u32)
    requires
        s.wf(),
    ensures
        tick_next(s, time, rto_ms, token).wf(),
{
    if s.config.use_pmtu_discovery && s.outstanding is None {
        let h = spec_clamped_high(s);
        if spec_gap(h, s.low) > s.config.pmtu_converge_threshold
            && spec_elapsed(time, s.last_probe) >= s.config.pmtu_interval_ms {
            // The probe branch: the midpoint sits strictly above the lower
            // bound because the clamped gap exceeds a positive threshold.
            assert((s.low + h) / 2 >= s.low + 1) by (nonlinear_arith)
                requires
                    h >= s.low + 2,
            ;
        }
    }
}

/// Law: a processed reply preserves the session invariant, provided the
/// echoed size does not exceed the current upper bound or the datagram
/// capacity (an accepted reply echoes a probe, and every probe is sized
/// within both).
pub proof fn lemma_reply_preserves_wf(s: PmtuDiscovery, size: u16, token: u32, time: u64)
    requires
        s.wf(),
        size <= s.high,
        size <= spec_datagram_cap(s.config),
    ensures
        reply_next(s, size, token, time).wf(),
{
}

/// Law: with discovery disabled, a tick never emits a probe and never
/// mutates any state, regardless of elapsed time.
pub proof fn lemma_tick_disabled_is_noop(s: PmtuDiscovery, time: u64, rto_ms: u64, token: u32)
    requires
        !s.config.use_pmtu_discovery,
    ensures
        tick_next(s, time, rto_ms, token) == s,
        !tick_emits_probe(s, time, rto_ms),
{
}

/// Law: once a tick finds the search converged, the resulting state is a
/// fixed point: every later tick leaves the whole state unchanged, emits
/// no probe, and keeps the fragment size published at the lower bound.
pub proof fn lemma_tick_idempotent_once_converged(
    s: PmtuDiscovery,
    t1: u64,
    r1: u64,
    k1: u32,
    t2: u64,
    r2: u64,
    k2: u32,
)
    requires
        s.config.use_pmtu_discovery,
        s.outstanding is None,
        spec_converged(s),
    ensures
        !tick_emits_probe(s, t1, r1),
        ({
            let s1 = tick_next(s, t1, r1, k1);
            &&& s1.low == s.low
            &&& s1.fragment_size == s1.low
            &&& spec_converged(s1)
            &&& tick_next(s1, t2, r2, k2) == s1
            &&& !tick_emits_probe(s1, t2, r2)
        }),
{
    let s1 = tick_next(s, t1, r1, k1);
}

/// Law: when the outstanding probe's deadline has passed, the next tick
/// clears it and narrows the upper bound to below the probe's candidate
/// size (leaving the bound alone only for a zero-sized candidate).
pub proof fn lemma_tick_timeout_narrows(s: PmtuDiscovery, time: u64, rto_ms: u64, token: u32)
    requires
        s.config.use_pmtu_discovery,
        spec_timed_out(s, time, rto_ms),
    ensures
        tick_next(s, time, rto_ms, token).outstanding is None,
        !tick_emits_probe(s, time, rto_ms),
        (s.outstanding matches Some(p) ==> {
            let s1 = tick_next(s, time, rto_ms, token);
            &&& p.0 > 0 ==> s1.high <= p.0 - 1
            &&& p.0 == 0 ==> s1.high == s.high
            &&& s1.low == s.low
        }),
{
}

impl PmtuDiscovery {
    /// Well-formedness: bounds are ordered, the lower bound fits the
    /// datagram capacity, and an outstanding candidate sits strictly above
    /// the lower bound (or at zero, where the timeout path leaves the upper
    /// bound alone).  Every operation preserves this.
    pub open spec fn wf(self) -> bool {
        &&& spec_config_valid(self.config)
        &&& self.low <= self.high
        &&& self.low <= spec_datagram_cap(self.config)
        &&& (self.outstanding matches Some(p) ==> p.0 == 0 || p.0 > self.low)
    }

    /// Creates a new discovery session: bounds from configuration, the
    /// configured default fragment size, no probe in flight.
    pub fn new(config: &Config, time: u64) -> (s: Self)
        ensures
            s.config == *config,
            s.fragment_size == config.fragment_size,
            s.low == config.pmtu_min,
            s.high == config.pmtu_max,
            s.last_probe == time,
            s.outstanding is None,
            spec_config_valid(*config) ==> s.wf(),
    {
        PmtuDiscovery {
            config: *config,
            fragment_size: config.fragment_size,
            low: config.pmtu_min,
            high: config.pmtu_max,
            last_probe: time,
            outstanding: None,
        }
    }

    /// Returns the current effective fragment size in bytes.
    pub fn current_fragment_size(&self) -> (r: u16)
        ensures
            r == self.fragment_size,
    {
        self.fragment_size
    }

    /// Sets the fragment size to a specific value; no other state moves.
    pub fn set_fragment_size(&mut self, size: u16)
        ensures
            final(self).fragment_size == size,
            final(self).config == old(self).config,
            final(self).low == old(self).low,
            final(self).high == old(self).high,
            final(self).last_probe == old(self).last_probe,
            final(self).outstanding == old(self).outstanding,
            old(self).wf() ==> final(self).wf(),
    {
        self.fragment_size = size;
    }

    /// Returns the current low bound of the search.
    pub fn low_bound(&self) -> (r: u16)
        ensures
            r == self.low,
    {
        self.low
    }

    /// Returns the current high bound of the search.
    pub fn high_bound(&self) -> (r: u16)
        ensures
            r == self.high,
    {
        self.high
    }

    /// Returns whether a probe is in flight.
    pub fn has_outstanding_probe(&self) -> (r: bool)
        ensures
            r == (self.outstanding is Some),
    {
        self.outstanding.is_some()
    }

    /// Returns the outstanding probe as (candidate size, token, sent time).
    pub fn outstanding_probe(&self) -> (r: Option<(u16, u32, u64)>)
        ensures
            r == self.outstanding,
    {
        self.outstanding
    }

    /// Drives the probing state machine; call periodically with the current
    /// monotonic time (milliseconds) and a round-trip-time estimate.
    ///
    /// In order: a disabled session does nothing; an outstanding probe is
    /// either still awaited (nothing happens) or, past its deadline,
    /// declared lost, which narrows the upper bound to just below its
    /// candidate size; otherwise the upper bound is clamped to the datagram
    /// capacity, a converged search publishes the lower bound as the
    /// fragment size, and once the probe interval has elapsed a fresh probe
    /// for the midpoint of the bounds is emitted and recorded as
    /// outstanding.
    pub fn handle_pmtu(&mut self, time: u64, rto_ms: u64) -> (r: Option<ProtocolCommand>)
        ensures
            r is Some <==> tick_emits_probe(*old(self), time, rto_ms),
            r is None ==> *final(self) == tick_next(*old(self), time, rto_ms, 0u32),
            r matches Some(cmd) ==> ({
                &&& cmd matches ProtocolCommand::PMTUProbe { size, token, payload }
                &&& size == spec_probe_size(*old(self))
                &&& payload@.len() == spec_probe_payload_len(*old(self))
                &&& *final(self) == tick_next(*old(self), time, rto_ms, token)
            }),
            old(self).wf() ==> final(self).wf(),
    {
        if !self.config.use_pmtu_discovery {
            return None;
        }

        // Timeout outstanding probe
        if let Some((size, _token, sent)) = self.outstanding {
            let timeout: u64 = if rto_ms >= 200 { rto_ms } else { 200 };
            let elapsed: u64 = if time >= sent { time - sent } else { 0 };
            if elapsed > timeout {
                // Consider it failed: reduce high bound
                if size > 0 {
                    let cand: u16 = size - 1;
                    if cand < self.high {
                        self.high = cand;
                    }
                }
                self.outstanding = None;
                self.last_probe = time;
            }
            proof {
                if old(self).wf() {
                    lemma_tick_preserves_wf(*old(self), time, rto_ms, 0u32);
                }
            }
            return None;
        }

        // Clamp high bound to what we can actually send as a single datagram
        let datagram_cap: u16 = if self.config.receive_buffer_max_size >= 65535 {
            65535
        } else {
            self.config.receive_buffer_max_size as u16
        };
        if self.high > datagram_cap {
            self.high = datagram_cap;
        }

        // Check convergence
        let gap: u16 = if self.high >= self.low { self.high - self.low } else { 0 };
        if gap <= self.config.pmtu_converge_threshold {
            self.fragment_size = self.low;
            proof {
                if old(self).wf() {
                    lemma_tick_preserves_wf(*old(self), time, rto_ms, 0u32);
                }
            }
            return None;
        }

        // Time to probe?
        let since_probe: u64 = if time >= self.last_probe { time - self.last_probe } else { 0 };
        if since_probe < self.config.pmtu_interval_ms {
            proof {
                if old(self).wf() {
                    lemma_tick_preserves_wf(*old(self), time, rto_ms, 0u32);
                }
            }
            return None;
        }

        // Next candidate: mid (clamped to what we can actually send in one datagram)
        let sum: u32 = self.low as u32 + self.high as u32;
        let mid: u16 = (sum / 2) as u16;
        let target: u16 = if mid <= datagram_cap { mid } else { datagram_cap };

        // Compute payload length so the encoded datagram size comes out near
        // the target: per-datagram overhead plus per-command overhead.
        let compression_overhead: u16 = match self.config.compression {
            CompressionAlgorithm::Lz4 => 5,  // 1 marker + 4 original size
            _ => 1,                          // 1 marker
        };
        let checksum_overhead: u16 = if self.config.use_checksums { 4 } else { 0 };
        let static_overhead: u16 = 1 + compression_overhead + checksum_overhead;
        let per_command_overhead: u16 = 2 + (1 + 2 + 4 + 2);
        let total_overhead: u16 = static_overhead + per_command_overhead;

        // Ensure at least 1 byte payload to avoid degenerate probes
        let payload_len: u16 = if target > total_overhead { target - total_overhead } else { 1 };
        let token: u32 = random_token();
        // A random payload keeps compression from shrinking the datagram and
        // distorting the measured size.
        let payload = random_payload(payload_len as usize);

        // Advertise the capped target as the intended datagram size; record
        // the raw midpoint as the candidate for bound arithmetic.
        let command = ProtocolCommand::PMTUProbe { size: target, token, payload };

        self.outstanding = Some((mid, token, time));
        self.last_probe = time;

        proof {
            if old(self).wf() {
                lemma_tick_preserves_wf(*old(self), time, rto_ms, token);
            }
        }
        Some(command)
    }

    /// Processes a reply to the outstanding probe.
    ///
    /// A reply is accepted exactly when a probe is in flight and the token
    /// matches it: the lower bound rises to the replied size, becomes the
    /// fragment size, and the probe is cleared.  Any other reply is
    /// rejected without touching the session.
    pub fn process_reply(&mut self, size: u16, token: u32, time: u64) -> (r: bool)
        ensures
            r == reply_accepted(*old(self), token),
            *final(self) == reply_next(*old(self), size, token, time),
            r ==> final(self).fragment_size == final(self).low && final(self).low >= size,
            !r ==> *final(self) == *old(self),
            old(self).wf() && size <= old(self).high && size <= spec_datagram_cap(
                old(self).config,
            ) ==> final(self).wf(),
    {
        if let Some((_pending_size, pending_token, _sent)) = self.outstanding {
            if pending_token == token {
                // Success: raise low bound and update effective fragment size
                if size > self.low {
                    self.low = size;
                }
                self.fragment_size = self.low;
                self.outstanding = None;
                self.last_probe = time;
                return true;
            }
        }
        false
    }

    /// Constructs the reply to a received probe, echoing its advertised
    /// size and token.  Pure; touches no session state.
    pub fn create_reply(size: u16, token: u32) -> (r: ProtocolCommand)
        ensures
            r == (ProtocolCommand::PMTUReply { size, token }),
    {
        ProtocolCommand::PMTUReply { size, token }
    }
}

} // verus!
