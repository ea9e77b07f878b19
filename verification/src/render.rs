//! The report renderer: status line, header lines and the timing table as
//! one block of text.
//!
//! Rendering is a pure function of its inputs — the contracts below pin the
//! whole output character by character — so the same status, headers and
//! phases always produce byte-identical text.  Durations are printed in
//! whole milliseconds, right-aligned in nine-character cells; an absent
//! phase prints as `N/A`, distinct from a zero duration.

use vstd::prelude::*;
use crate::fmt::spec_dec;
use crate::fmt::spec_spaces;
use crate::fmt::spec_pad_left;
use crate::fmt::u64_to_dec;
use crate::fmt::pad_left;
use crate::headers::Header;
use crate::headers::spec_headers_views;
use crate::timing::PhaseDurations;

verus! {

/// The response as the renderer consumes it: the numeric status code and the
/// parsed header pairs in wire order, duplicates kept.
pub struct ResponseSummary {
    pub status: u32,
    pub headers: Vec<Header>,
}

/// The remote and local endpoints of the measured connection, as the
/// transport reported them.
pub struct ConnectionInfo {
    pub remote: String,
    pub local: String,
}

/// Rendering configuration.  The connection line is printed only when it is
/// both requested and genuinely known — the renderer never fabricates an
/// address.  `show_body` does not change the report text; it tells the
/// caller to hand the body to the persistence sink after the report.
pub struct RenderOptions {
    pub show_remote_address: bool,
    pub connection: Option<ConnectionInfo>,
    pub show_body: bool,
}

/// The endpoint views of an optional connection record.
pub open spec fn spec_connection_views(c: Option<ConnectionInfo>) -> Option<
    (Seq<char>, Seq<char>),
> {
    match c {
        Some(ci) => Some((ci.remote@, ci.local@)),
        None => None,
    }
}

/// A duration cell: the millisecond count plus `ms`, right-aligned to nine
/// characters; an absent duration is `N/A`, right-aligned the same way.
pub open spec fn spec_format_duration(d: Option<u64>) -> Seq<char> {
    match d {
        Some(n) => spec_pad_left(spec_dec(n as int) + "ms"@, 9),
        None => spec_pad_left("N/A"@, 9),
    }
}

/// An absent phase contributes nothing to a running total.
pub open spec fn spec_or_zero(d: Option<u64>) -> u64 {
    match d {
        Some(n) => n,
        None => 0u64,
    }
}

/// Saturating addition: running totals never wrap.
pub open spec fn spec_add_sat(a: u64, b: u64) -> u64 {
    if a + b > u64::MAX {
        u64::MAX
    } else {
        (a + b) as u64
    }
}

/// The first report line: `HTTP/1.1` and the numeric status code, no reason
/// phrase.
pub open spec fn spec_status_line(status: u32) -> Seq<char> {
    "HTTP/1.1 "@ + spec_dec(status as int) + "\n"@
}

/// One header pair as a report line.
pub open spec fn spec_header_line(h: (Seq<char>, Seq<char>)) -> Seq<char> {
    h.0 + ": "@ + h.1 + "\n"@
}

/// All header pairs as report lines, one each, in their given order.
pub open spec fn spec_header_lines(hs: Seq<(Seq<char>, Seq<char>)>) -> Seq<char>
    decreases hs.len(),
{
    if hs.len() == 0 {
        Seq::empty()
    } else {
        spec_header_lines(hs.drop_last()) + spec_header_line(hs.last())
    }
}

/// The `Connected to <remote> from <local>` line.
pub open spec fn spec_connected_line(remote: Seq<char>, local: Seq<char>) -> Seq<char> {
    "Connected to "@ + remote + " from "@ + local + "\n"@
}

/// The timing table: one row of five phase cells, then the cumulative
/// breakdown, one boundary per line, each value the running total of the
/// phase durations up to that boundary (an absent phase counting as zero),
/// and the measured total on the last line.  Every duration, phase or
/// cumulative, is right-aligned in the same nine-character cell.
pub open spec fn spec_timing_table(p: PhaseDurations) -> Seq<char> {
    let c1 = spec_or_zero(p.dns_lookup);
    let c2 = spec_add_sat(c1, spec_or_zero(p.tcp_connect));
    let c3 = spec_add_sat(c2, spec_or_zero(p.tls_handshake));
    let c4 = spec_add_sat(c3, spec_or_zero(p.server_processing));
    "\n   DNS Lookup     TCP Connection     TLS Handshake     Server Processing     Content Transfer\n"@
        + "[   "@ + spec_format_duration(p.dns_lookup) + "  |     "@ + spec_format_duration(
        p.tcp_connect,
    ) + "    |    "@ + spec_format_duration(p.tls_handshake) + "    |      "@
        + spec_format_duration(p.server_processing) + "      |      "@ + spec_format_duration(
        p.content_transfer,
    ) + "     ]\n"@
        + "               |                  |                 |                     |                    |\n"@
        + "      namelookup:"@ + spec_format_duration(Some(c1))
        + "        |                 |                     |                    |\n"@
        + "                            connect:"@ + spec_format_duration(Some(c2))
        + "       |                     |                    |\n"@
        + "                                          pretransfer:"@ + spec_format_duration(
        Some(c3),
    ) + "           |                    |\n"@
        + "                                                              starttransfer:"@
        + spec_format_duration(Some(c4)) + "          |\n"@
        + "                                                                                           total:"@
        + spec_format_duration(Some(p.total)) + "\n"@
}

/// The whole report: the connection line when requested and known, the
/// status line, the header lines in order, and the timing table.
pub open spec fn spec_report(
    status: u32,
    hs: Seq<(Seq<char>, Seq<char>)>,
    p: PhaseDurations,
    show_remote_address: bool,
    conn: Option<(Seq<char>, Seq<char>)>,
) -> Seq<char> {
    (match conn {
        Some(c) => if show_remote_address {
            spec_connected_line(c.0, c.1)
        } else {
            Seq::empty()
        },
        None => Seq::empty(),
    }) + spec_status_line(status) + spec_header_lines(hs) + spec_timing_table(p)
}

/// Renders one duration cell, `N/A` when the phase is absent.
pub fn format_duration(d: Option<u64>) -> (r: String)
    ensures
        r@ == spec_format_duration(d),
{
    match d {
        Some(n) => {
            let mut t = u64_to_dec(n);
            t.append("ms");
            pad_left(t.as_str(), 9)
        },
        None => pad_left("N/A", 9),
    }
}

/// An absent phase counts as zero in a running total.
fn or_zero(d: Option<u64>) -> (r: u64)
    ensures
        r == spec_or_zero(d),
{
    match d {
        Some(n) => n,
        None => 0,
    }
}

/// Saturating addition of two millisecond counts.
fn add_sat(a: u64, b: u64) -> (r: u64)
    ensures
        r == spec_add_sat(a, b),
{
    if b <= u64::MAX - a {
        a + b
    } else {
        u64::MAX
    }
}

/// Renders the status line.
pub fn render_status_line(status: u32) -> (r: String)
    ensures
        r@ == spec_status_line(status),
{
    let mut r = String::from_str("HTTP/1.1 ");
    let code = u64_to_dec(status as u64);
    r.append(code.as_str());
    r.append("\n");
    r
}

/// Renders every header pair as `<name>: <value>`, one line each, exactly in
/// the order given: no reordering, no merging of duplicates.
pub fn render_header_lines(headers: &Vec<Header>) -> (r: String)
    ensures
        r@ == spec_header_lines(spec_headers_views(headers@)),
{
    let mut r = String::new();
    proof {
        assert(r@ =~= spec_header_lines(spec_headers_views(headers@).take(0)));
    }
    let n = headers.len();
    let mut i: usize = 0;
    while i < n
        invariant
            i <= n,
            n == headers@.len(),
            r@ == spec_header_lines(spec_headers_views(headers@).take(i as int)),
        decreases n - i,
    {
        let h = &headers[i];
        r.append(h.name.as_str());
        r.append(": ");
        r.append(h.value.as_str());
        r.append("\n");
        proof {
            let views = spec_headers_views(headers@);
            assert(views[i as int] == headers@[i as int]@);
            assert(views.take(i as int + 1).drop_last() =~= views.take(i as int));
            assert(views.take(i as int + 1).last() == views[i as int]);
            assert(r@ =~= spec_header_lines(views.take(i as int + 1)));
        }
        i = i + 1;
    }
    proof {
        assert(spec_headers_views(headers@).take(n as int) =~= spec_headers_views(headers@));
    }
    r
}

/// Renders the `Connected to <remote> from <local>` line.
pub fn connected_line(remote: &str, local: &str) -> (r: String)
    ensures
        r@ == spec_connected_line(remote@, local@),
{
    let mut r = String::from_str("Connected to ");
    r.append(remote);
    r.append(" from ");
    r.append(local);
    r.append("\n");
    r
}

/// Renders the timing table for the given phase durations.
pub fn render_timing_table(p: &PhaseDurations) -> (r: String)
    ensures
        r@ == spec_timing_table(*p),
{
    let c1 = or_zero(p.dns_lookup);
    let c2 = add_sat(c1, or_zero(p.tcp_connect));
    let c3 = add_sat(c2, or_zero(p.tls_handshake));
    let c4 = add_sat(c3, or_zero(p.server_processing));
    let mut r = String::from_str(
        "\n   DNS Lookup     TCP Connection     TLS Handshake     Server Processing     Content Transfer\n",
    );
    r.append("[   ");
    let cell = format_duration(p.dns_lookup);
    r.append(cell.as_str());
    r.append("  |     ");
    let cell = format_duration(p.tcp_connect);
    r.append(cell.as_str());
    r.append("    |    ");
    let cell = format_duration(p.tls_handshake);
    r.append(cell.as_str());
    r.append("    |      ");
    let cell = format_duration(p.server_processing);
    r.append(cell.as_str());
    r.append("      |      ");
    let cell = format_duration(p.content_transfer);
    r.append(cell.as_str());
    r.append("     ]\n");
    r.append(
        "               |                  |                 |                     |                    |\n",
    );
    r.append("      namelookup:");
    let cell = format_duration(Some(c1));
    r.append(cell.as_str());
    r.append("        |                 |                     |                    |\n");
    r.append("                            connect:");
    let cell = format_duration(Some(c2));
    r.append(cell.as_str());
    r.append("       |                     |                    |\n");
    r.append("                                          pretransfer:");
    let cell = format_duration(Some(c3));
    r.append(cell.as_str());
    r.append("           |                    |\n");
    r.append("                                                              starttransfer:");
    let cell = format_duration(Some(c4));
    r.append(cell.as_str());
    r.append("          |\n");
    r.append(
        "                                                                                           total:",
    );
    let cell = format_duration(Some(p.total));
    r.append(cell.as_str());
    r.append("\n");
    r
}

/// Renders the whole report.
///
/// The output is a pure function of the status code, the header views, the
/// phase durations and the connection options: rendering the same inputs
/// twice gives byte-identical text.  The renderer never mutates its inputs.
pub fn render_report(
    summary: &ResponseSummary,
    phases: &PhaseDurations,
    options: &RenderOptions,
) -> (r: String)
    ensures
        r@ == spec_report(
            summary.status,
            spec_headers_views(summary.headers@),
            *phases,
            options.show_remote_address,
            spec_connection_views(options.connection),
        ),
{
    let mut r = match &options.connection {
        Some(c) => {
            if options.show_remote_address {
                connected_line(c.remote.as_str(), c.local.as_str())
            } else {
                String::new()
            }
        },
        None => String::new(),
    };
    let part = render_status_line(summary.status);
    r.append(part.as_str());
    let part = render_header_lines(&summary.headers);
    r.append(part.as_str());
    let part = render_timing_table(phases);
    r.append(part.as_str());
    r
}

/// Rendering is idempotent: any two report texts produced from the same
/// status, headers, phases and options are equal character for character,
/// because `render_report` pins its result to one specified value.
pub proof fn lemma_render_idempotent(
    status: u32,
    hs: Seq<(Seq<char>, Seq<char>)>,
    p: PhaseDurations,
    show_remote_address: bool,
    conn: Option<(Seq<char>, Seq<char>)>,
    r1: Seq<char>,
    r2: Seq<char>,
)
    requires
        r1 == spec_report(status, hs, p, show_remote_address, conn),
        r2 == spec_report(status, hs, p, show_remote_address, conn),
    ensures
        r1 == r2,
{
}

/// An absent phase renders as an `N/A` cell, distinct from the cell of a
/// zero-duration phase.
pub proof fn lemma_absent_phase_renders_na()
    ensures
        spec_format_duration(None) == spec_spaces(6) + "N/A"@,
        spec_format_duration(None) != spec_format_duration(Some(0u64)),
{
    reveal_strlit("N/A");
    reveal_strlit("ms");
    assert(spec_format_duration(None) =~= spec_spaces(6) + "N/A"@);
    reveal_with_fuel(spec_spaces, 8);
    assert(spec_spaces(6).len() == 6);
    assert(spec_format_duration(None)[6] == 'N');
    assert(spec_dec(0) =~= seq!['0']);
    assert(spec_format_duration(Some(0u64)) =~= spec_spaces(6) + (seq!['0'] + "ms"@));
    assert(spec_format_duration(Some(0u64))[6] == '0');
}

/// A DNS instant before the request start (clock skew) renders as a `0ms`
/// cell — a zero duration, right-aligned, never a negative number and never
/// `N/A`.
pub proof fn lemma_clamped_dns_renders_zero(r: crate::timing::TimestampRecord)
    requires
        r.dns_resolved_at is Some,
        r.dns_resolved_at->Some_0 < r.start,
    ensures
        spec_format_duration(crate::timing::spec_derive_phases(r).dns_lookup) == spec_spaces(6)
            + "0ms"@,
{
    reveal_strlit("ms");
    reveal_strlit("0ms");
    assert(crate::timing::spec_derive_phases(r).dns_lookup == Some(0u64));
    assert(spec_dec(0) =~= seq!['0']);
    assert(spec_dec(0) + "ms"@ =~= "0ms"@);
    assert(spec_format_duration(Some(0u64)) =~= spec_spaces(6) + "0ms"@);
}

/// The usage message printed when the target URL argument is missing.
pub fn usage_message(program: &str) -> (r: String)
    ensures
        r@ == "Usage: "@ + program@ + " <URL>"@,
{
    let mut r = String::from_str("Usage: ");
    r.append(program);
    r.append(" <URL>");
    r
}

/// The confirmation line printed after the body was persisted.
pub fn body_stored_line(path: &str) -> (r: String)
    ensures
        r@ == "\nBody stored in: "@ + path@,
{
    let mut r = String::from_str("\nBody stored in: ");
    r.append(path);
    r
}

/// The failure line printed when the persistence sink could not save the
/// body; the report before it stands.
pub fn body_save_failed_line(reason: &str) -> (r: String)
    ensures
        r@ == "Failed to save response body: "@ + reason@,
{
    let mut r = String::from_str("Failed to save response body: ");
    r.append(reason);
    r
}

} // verus!
