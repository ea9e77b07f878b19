use httpstat::derive_phases;
use httpstat::render::body_save_failed_line;
use httpstat::render::body_stored_line;
use httpstat::render::connected_line;
use httpstat::render::format_duration;
use httpstat::render::render_header_lines;
use httpstat::render::render_status_line;
use httpstat::render::render_timing_table;
use httpstat::render::usage_message;
use httpstat::render_report;
use httpstat::ConnectionInfo;
use httpstat::Header;
use httpstat::PhaseDurations;
use httpstat::RenderOptions;
use httpstat::ResponseSummary;
use httpstat::TimestampRecord;

fn sample_phases() -> PhaseDurations {
    derive_phases(&TimestampRecord {
        start: 0,
        dns_resolved_at: Some(10),
        tcp_connected_at: Some(40),
        tls_handshake_done_at: Some(90),
        first_byte_at: Some(150),
        done_at: 200,
    })
}

fn sample_headers() -> Vec<Header> {
    vec![
        Header { name: String::from("X-A"), value: String::from("1") },
        Header { name: String::from("X-B"), value: String::from("2") },
        Header { name: String::from("X-A"), value: String::from("3") },
    ]
}

fn expected_sample_table() -> String {
    let mut t = String::new();
    t.push_str(
        "\n   DNS Lookup     TCP Connection     TLS Handshake     Server Processing     Content Transfer\n",
    );
    t.push_str("[   ");
    t.push_str("     10ms");
    t.push_str("  |     ");
    t.push_str("     30ms");
    t.push_str("    |    ");
    t.push_str("     50ms");
    t.push_str("    |      ");
    t.push_str("     60ms");
    t.push_str("      |      ");
    t.push_str("     50ms");
    t.push_str("     ]\n");
    t.push_str(
        "               |                  |                 |                     |                    |\n",
    );
    t.push_str("      namelookup:");
    t.push_str("     10ms");
    t.push_str("        |                 |                     |                    |\n");
    t.push_str("                            connect:");
    t.push_str("     40ms");
    t.push_str("       |                     |                    |\n");
    t.push_str("                                          pretransfer:");
    t.push_str("     90ms");
    t.push_str("           |                    |\n");
    t.push_str("                                                              starttransfer:");
    t.push_str("    150ms");
    t.push_str("          |\n");
    t.push_str(
        "                                                                                           total:",
    );
    t.push_str("    200ms");
    t.push_str("\n");
    t
}

#[test]
fn duration_cells_are_right_aligned_whole_milliseconds() {
    assert_eq!(format_duration(Some(0)), "      0ms");
    assert_eq!(format_duration(Some(7)), "      7ms");
    assert_eq!(format_duration(Some(123)), "    123ms");
    assert_eq!(format_duration(Some(1234567)), "1234567ms");
    assert_eq!(format_duration(Some(12345678)), "12345678ms");
    assert_eq!(format_duration(None), "      N/A");
}

#[test]
fn status_line_has_no_reason_phrase() {
    assert_eq!(render_status_line(200), "HTTP/1.1 200\n");
    assert_eq!(render_status_line(404), "HTTP/1.1 404\n");
    assert_eq!(render_status_line(0), "HTTP/1.1 0\n");
}

#[test]
fn header_lines_keep_order_and_duplicates() {
    let rendered = render_header_lines(&sample_headers());
    assert_eq!(rendered, "X-A: 1\nX-B: 2\nX-A: 3\n");
}

#[test]
fn timing_table_matches_fixed_layout() {
    assert_eq!(render_timing_table(&sample_phases()), expected_sample_table());
}

#[test]
fn absent_tls_phase_renders_as_not_applicable() {
    let p = derive_phases(&TimestampRecord {
        start: 0,
        dns_resolved_at: Some(10),
        tcp_connected_at: Some(40),
        tls_handshake_done_at: None,
        first_byte_at: Some(150),
        done_at: 200,
    });
    let table = render_timing_table(&p);
    assert!(table.contains("      N/A"));
    assert!(!table.contains("-"));
}

#[test]
fn clamped_phase_renders_as_zero_not_negative() {
    let p = derive_phases(&TimestampRecord {
        start: 10,
        dns_resolved_at: Some(5),
        tcp_connected_at: Some(40),
        tls_handshake_done_at: None,
        first_byte_at: Some(150),
        done_at: 200,
    });
    assert_eq!(format_duration(p.dns_lookup), "      0ms");
    let table = render_timing_table(&p);
    assert!(table.contains("      0ms"));
    assert!(!table.contains("-"));
}

#[test]
fn report_is_status_then_headers_then_table() {
    let summary = ResponseSummary { status: 200, headers: sample_headers() };
    let options = RenderOptions {
        show_remote_address: false,
        connection: None,
        show_body: false,
    };
    let report = render_report(&summary, &sample_phases(), &options);
    let mut expected = String::from("HTTP/1.1 200\nX-A: 1\nX-B: 2\nX-A: 3\n");
    expected.push_str(&expected_sample_table());
    assert_eq!(report, expected);
}

#[test]
fn rendering_twice_is_byte_identical() {
    let summary = ResponseSummary { status: 301, headers: sample_headers() };
    let options = RenderOptions {
        show_remote_address: true,
        connection: Some(ConnectionInfo {
            remote: String::from("93.184.216.34:443"),
            local: String::from("10.0.0.2:51000"),
        }),
        show_body: false,
    };
    let phases = sample_phases();
    let first = render_report(&summary, &phases, &options);
    let second = render_report(&summary, &phases, &options);
    assert_eq!(first.as_bytes(), second.as_bytes());
}

#[test]
fn connection_line_is_printed_only_when_requested_and_known() {
    let headers = vec![Header { name: String::from("Server"), value: String::from("t") }];
    let summary = ResponseSummary { status: 200, headers };
    let phases = sample_phases();
    let with_line = render_report(
        &summary,
        &phases,
        &RenderOptions {
            show_remote_address: true,
            connection: Some(ConnectionInfo {
                remote: String::from("198.51.100.7:80"),
                local: String::from("192.0.2.9:40000"),
            }),
            show_body: false,
        },
    );
    assert!(with_line.starts_with("Connected to 198.51.100.7:80 from 192.0.2.9:40000\n"));
    let suppressed = render_report(
        &summary,
        &phases,
        &RenderOptions {
            show_remote_address: false,
            connection: Some(ConnectionInfo {
                remote: String::from("198.51.100.7:80"),
                local: String::from("192.0.2.9:40000"),
            }),
            show_body: false,
        },
    );
    assert!(suppressed.starts_with("HTTP/1.1 200\n"));
    let unknown = render_report(
        &summary,
        &phases,
        &RenderOptions { show_remote_address: true, connection: None, show_body: false },
    );
    assert!(unknown.starts_with("HTTP/1.1 200\n"));
}

#[test]
fn connected_line_format() {
    assert_eq!(
        connected_line("203.0.113.1:443", "192.0.2.5:55123"),
        "Connected to 203.0.113.1:443 from 192.0.2.5:55123\n"
    );
}

#[test]
fn auxiliary_lines() {
    assert_eq!(usage_message("httpstat"), "Usage: httpstat <URL>");
    assert_eq!(body_stored_line("/tmp/body.txt"), "\nBody stored in: /tmp/body.txt");
    assert_eq!(
        body_save_failed_line("permission denied"),
        "Failed to save response body: permission denied"
    );
}
