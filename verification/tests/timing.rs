use httpstat::derive_phases;
use httpstat::sub_clamped;
use httpstat::PhaseDurations;
use httpstat::TimestampRecord;

fn full_record() -> TimestampRecord {
    TimestampRecord {
        start: 0,
        dns_resolved_at: Some(10),
        tcp_connected_at: Some(40),
        tls_handshake_done_at: Some(90),
        first_byte_at: Some(150),
        done_at: 200,
    }
}

#[test]
fn sub_clamped_orders() {
    assert_eq!(sub_clamped(10, 5), 5);
    assert_eq!(sub_clamped(5, 10), 0);
    assert_eq!(sub_clamped(7, 7), 0);
    assert_eq!(sub_clamped(u64::MAX, 0), u64::MAX);
}

#[test]
fn scenario_full_https_record() {
    let p = derive_phases(&full_record());
    let expected = PhaseDurations {
        dns_lookup: Some(10),
        tcp_connect: Some(30),
        tls_handshake: Some(50),
        server_processing: Some(60),
        content_transfer: Some(50),
        total: 200,
    };
    assert_eq!(p, expected);
}

#[test]
fn phases_tile_total_when_all_present() {
    let p = derive_phases(&full_record());
    let sum = p.dns_lookup.unwrap()
        + p.tcp_connect.unwrap()
        + p.tls_handshake.unwrap()
        + p.server_processing.unwrap()
        + p.content_transfer.unwrap();
    assert_eq!(sum, p.total);
}

#[test]
fn plaintext_record_has_no_tls_phase() {
    let r = TimestampRecord {
        start: 0,
        dns_resolved_at: Some(10),
        tcp_connected_at: Some(40),
        tls_handshake_done_at: None,
        first_byte_at: Some(150),
        done_at: 200,
    };
    let p = derive_phases(&r);
    assert_eq!(p.tls_handshake, None);
    // Server processing is measured from the TCP connect instant.
    assert_eq!(p.server_processing, Some(110));
    let sum = p.dns_lookup.unwrap()
        + p.tcp_connect.unwrap()
        + p.server_processing.unwrap()
        + p.content_transfer.unwrap();
    assert_eq!(sum, p.total);
}

#[test]
fn clock_skew_clamps_dns_to_zero() {
    let r = TimestampRecord {
        start: 10,
        dns_resolved_at: Some(5),
        tcp_connected_at: Some(40),
        tls_handshake_done_at: None,
        first_byte_at: Some(150),
        done_at: 200,
    };
    let p = derive_phases(&r);
    assert_eq!(p.dns_lookup, Some(0));
    assert_eq!(p.total, 190);
}

#[test]
fn absent_intermediate_timestamps_mark_phases_not_applicable() {
    let r = TimestampRecord {
        start: 3,
        dns_resolved_at: None,
        tcp_connected_at: None,
        tls_handshake_done_at: None,
        first_byte_at: None,
        done_at: 45,
    };
    let p = derive_phases(&r);
    assert_eq!(p.dns_lookup, None);
    assert_eq!(p.tcp_connect, None);
    assert_eq!(p.tls_handshake, None);
    assert_eq!(p.server_processing, None);
    assert_eq!(p.content_transfer, None);
    assert_eq!(p.total, 42);
}

#[test]
fn done_before_start_clamps_total() {
    let r = TimestampRecord {
        start: 100,
        dns_resolved_at: None,
        tcp_connected_at: None,
        tls_handshake_done_at: None,
        first_byte_at: None,
        done_at: 40,
    };
    let p = derive_phases(&r);
    assert_eq!(p.total, 0);
}
