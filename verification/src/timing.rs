//! The timing model: turning absolute timestamps into phase durations.
//!
//! A transport probe records a small set of absolute instants while it runs
//! one HTTP transaction.  `derive_phases` converts those instants into the
//! five named phase durations plus a total, clamping any would-be-negative
//! difference to zero and marking a phase whose timestamps are unavailable
//! as absent (`None`) rather than zero.

use vstd::prelude::*;

verus! {

/// Absolute instants, in whole milliseconds, captured during one HTTP
/// transaction.  `start` and `done_at` are always present; the others may be
/// absent (for example the TLS instant on a plaintext request, or any
/// intermediate instant a transport does not expose).
///
/// A well-behaved transport keeps every present field no smaller than the
/// previous present field in declaration order (`record_ordered`); the
/// derivation below is total even when that fails.
#[derive(Clone, Copy, Debug)]
pub struct TimestampRecord {
    pub start: u64,
    pub dns_resolved_at: Option<u64>,
    pub tcp_connected_at: Option<u64>,
    pub tls_handshake_done_at: Option<u64>,
    pub first_byte_at: Option<u64>,
    pub done_at: u64,
}

/// The derived, read-only result: five phase durations in whole milliseconds
/// plus the total.  A phase is `None` exactly when one of the timestamps it
/// needs is absent; a clamped (would-be-negative) phase is `Some(0)`.
#[derive(Clone, Copy, Debug, PartialEq, Eq)]
pub struct PhaseDurations {
    pub dns_lookup: Option<u64>,
    pub tcp_connect: Option<u64>,
    pub tls_handshake: Option<u64>,
    pub server_processing: Option<u64>,
    pub content_transfer: Option<u64>,
    pub total: u64,
}

/// `a - b`, clamped at zero: a misordered pair of timestamps yields a zero
/// duration, never a negative one.
pub open spec fn spec_sub_clamped(a: u64, b: u64) -> u64 {
    if a >= b {
        (a - b) as u64
    } else {
        0u64
    }
}

/// A phase bounded by two instants: present only when both instants are.
pub open spec fn spec_phase(end: Option<u64>, begin: Option<u64>) -> Option<u64> {
    match (end, begin) {
        (Some(e), Some(b)) => Some(spec_sub_clamped(e, b)),
        _ => None,
    }
}

/// The instant at which server processing begins: the end of the TLS
/// handshake when one happened, otherwise the end of the TCP connect.
pub open spec fn spec_server_start(r: TimestampRecord) -> Option<u64> {
    match r.tls_handshake_done_at {
        Some(t) => Some(t),
        None => r.tcp_connected_at,
    }
}

/// What `derive_phases` returns, field by field.
pub open spec fn spec_derive_phases(r: TimestampRecord) -> PhaseDurations {
    PhaseDurations {
        dns_lookup: spec_phase(r.dns_resolved_at, Some(r.start)),
        tcp_connect: spec_phase(r.tcp_connected_at, r.dns_resolved_at),
        tls_handshake: spec_phase(r.tls_handshake_done_at, r.tcp_connected_at),
        server_processing: spec_phase(r.first_byte_at, spec_server_start(r)),
        content_transfer: spec_phase(Some(r.done_at), r.first_byte_at),
        total: spec_sub_clamped(r.done_at, r.start),
    }
}

/// The value a present field must not fall below, threaded through the
/// record: an absent field leaves the running boundary unchanged.
pub open spec fn spec_chain_next(prev: u64, x: Option<u64>) -> u64 {
    match x {
        Some(v) => v,
        None => prev,
    }
}

/// `x`, when present, is at least `lo`.
pub open spec fn spec_at_least(x: Option<u64>, lo: u64) -> bool {
    match x {
        Some(v) => v >= lo,
        None => true,
    }
}

/// The ordering invariant a well-behaved transport guarantees: every present
/// field is at least the latest present field before it, and `done_at` closes
/// the chain.
pub open spec fn record_ordered(r: TimestampRecord) -> bool {
    let after_dns = spec_chain_next(r.start, r.dns_resolved_at);
    let after_tcp = spec_chain_next(after_dns, r.tcp_connected_at);
    let after_tls = spec_chain_next(after_tcp, r.tls_handshake_done_at);
    let after_first = spec_chain_next(after_tls, r.first_byte_at);
    &&& spec_at_least(r.dns_resolved_at, r.start)
    &&& spec_at_least(r.tcp_connected_at, after_dns)
    &&& spec_at_least(r.tls_handshake_done_at, after_tcp)
    &&& spec_at_least(r.first_byte_at, after_tls)
    &&& r.done_at >= after_first
}

/// Saturating difference of two instants: the defensive boundary that keeps
/// every derived duration non-negative under clock skew.
pub fn sub_clamped(a: u64, b: u64) -> (r: u64)
    ensures
        r == spec_sub_clamped(a, b),
{
    if a >= b {
        a - b
    } else {
        0
    }
}

/// A single phase from its two bounding instants, absent when either is.
fn phase(end: Option<u64>, begin: Option<u64>) -> (r: Option<u64>)
    ensures
        r == spec_phase(end, begin),
{
    match (end, begin) {
        (Some(e), Some(b)) => Some(sub_clamped(e, b)),
        _ => None,
    }
}

/// Derives the five phase durations and the total from one timestamp record.
///
/// Total over its whole input domain: absent optional fields are valid input,
/// a misordered pair of instants clamps that phase to zero, and only `total`
/// is tied to `done_at - start` (itself clamped).  No phase is ever negative,
/// and a phase is `None` exactly when a timestamp it needs is absent.
pub fn derive_phases(record: &TimestampRecord) -> (p: PhaseDurations)
    ensures
        p == spec_derive_phases(*record),
{
    let server_start: Option<u64> = match record.tls_handshake_done_at {
        Some(t) => Some(t),
        None => record.tcp_connected_at,
    };
    PhaseDurations {
        dns_lookup: phase(record.dns_resolved_at, Some(record.start)),
        tcp_connect: phase(record.tcp_connected_at, record.dns_resolved_at),
        tls_handshake: phase(record.tls_handshake_done_at, record.tcp_connected_at),
        server_processing: phase(record.first_byte_at, server_start),
        content_transfer: phase(Some(record.done_at), record.first_byte_at),
        total: sub_clamped(record.done_at, record.start),
    }
}

/// When every optional instant is present and the record is ordered, the five
/// phases tile the total exactly: no gaps, no overlaps.
pub proof fn lemma_phases_tile_total(r: TimestampRecord)
    requires
        r.dns_resolved_at is Some,
        r.tcp_connected_at is Some,
        r.tls_handshake_done_at is Some,
        r.first_byte_at is Some,
        record_ordered(r),
    ensures
        ({
            let p = spec_derive_phases(r);
            p.dns_lookup->Some_0 + p.tcp_connect->Some_0 + p.tls_handshake->Some_0
                + p.server_processing->Some_0 + p.content_transfer->Some_0 == p.total
        }),
{
}

/// On a plaintext (non-TLS) record the TLS phase is absent, server processing
/// is measured from the TCP connect instant, and the four remaining phases
/// still tile the total.
pub proof fn lemma_plaintext_phases_tile_total(r: TimestampRecord)
    requires
        r.dns_resolved_at is Some,
        r.tcp_connected_at is Some,
        r.tls_handshake_done_at is None,
        r.first_byte_at is Some,
        record_ordered(r),
    ensures
        spec_derive_phases(r).tls_handshake is None,
        spec_derive_phases(r).server_processing == spec_phase(
            r.first_byte_at,
            r.tcp_connected_at,
        ),
        ({
            let p = spec_derive_phases(r);
            p.dns_lookup->Some_0 + p.tcp_connect->Some_0 + p.server_processing->Some_0
                + p.content_transfer->Some_0 == p.total
        }),
{
}

/// Clamping: a DNS instant that lies before the request start (clock skew)
/// yields a zero DNS phase, never a negative one.
pub proof fn lemma_clamped_dns_is_zero(r: TimestampRecord)
    requires
        r.dns_resolved_at is Some,
        r.dns_resolved_at->Some_0 < r.start,
    ensures
        spec_derive_phases(r).dns_lookup == Some(0u64),
{
}

} // verus!
