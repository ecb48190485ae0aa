use ids_core::detector::AttackType;
use ids_core::detector::Detector;
use ids_core::detector::UdpWindow;
use ids_core::headers::NetInfo;
use ids_core::headers::ParsedHeaders;
use ids_core::headers::TcpHeaderInfo;
use ids_core::headers::TransportInfo;

const SRC_A: u32 = 0x0a000001;
const SRC_B: u32 = 0x0a000002;
const DST: u32 = 0xc0a80001;

fn tcp_packet(source: u32, port: u16, syn: bool, ack: bool, fin: bool) -> ParsedHeaders {
    ParsedHeaders {
        net: NetInfo::Ipv4 { source, destination: DST },
        transport: TransportInfo::Tcp(TcpHeaderInfo {
            destination_port: port,
            syn,
            ack,
            fin,
            rst: false,
            psh: false,
            urg: false,
        }),
    }
}

/// An unremarkable segment: ACK set, one fixed port, nothing suspicious.
fn plain_tcp(source: u32) -> ParsedHeaders {
    tcp_packet(source, 80, false, true, false)
}

fn udp_packet(source: u32) -> ParsedHeaders {
    ParsedHeaders {
        net: NetInfo::Ipv4 { source, destination: DST },
        transport: TransportInfo::Udp,
    }
}

#[test]
fn threshold_exactness_for_connection_attempts() {
    let mut d = Detector::new();
    for _ in 0..100 {
        let v = d.detect_intrusion(&plain_tcp(SRC_A), 0);
        assert!(!v.0);
        assert!(v.1.is_none());
        assert!(v.2.is_none());
    }
    assert_eq!(d.connection_attempt_count(SRC_A), 100);
    let v = d.detect_intrusion(&plain_tcp(SRC_A), 0);
    assert!(v.0);
    assert_eq!(v.1, Some(AttackType::TooManyConnectionAttempts));
    assert_eq!(
        v.2.as_deref(),
        Some("Too many TCP connection attempts from the same IP.")
    );
    assert_eq!(d.connection_attempt_count(SRC_A), 101);
}

#[test]
fn ack_segments_never_increment_syn_counter() {
    let mut d = Detector::new();
    for _ in 0..50 {
        d.detect_intrusion(&tcp_packet(SRC_A, 80, true, true, false), 0);
    }
    for _ in 0..30 {
        d.detect_intrusion(&tcp_packet(SRC_A, 80, false, true, false), 0);
    }
    assert_eq!(d.syn_count(SRC_A), 0);
    for _ in 0..3 {
        d.detect_intrusion(&tcp_packet(SRC_A, 80, true, false, false), 0);
    }
    assert_eq!(d.syn_count(SRC_A), 3);
}

#[test]
fn repeated_port_keeps_set_size_one() {
    let mut d = Detector::new();
    for _ in 0..25 {
        let v = d.detect_intrusion(&plain_tcp(SRC_A), 0);
        assert!(!v.0);
    }
    assert_eq!(d.unique_port_count(SRC_A), 1);
}

#[test]
fn twenty_one_distinct_ports_trigger_port_scan() {
    let mut d = Detector::new();
    for port in 1..=20u16 {
        let v = d.detect_intrusion(&tcp_packet(SRC_A, port, false, true, false), 0);
        assert!(!v.0);
    }
    let v = d.detect_intrusion(&tcp_packet(SRC_A, 21, false, true, false), 0);
    assert!(v.0);
    assert_eq!(v.1, Some(AttackType::PortScan));
    assert_eq!(
        v.2.as_deref(),
        Some("Too many unique destination ports (port scan) from the same IP.")
    );
    assert_eq!(d.unique_port_count(SRC_A), 21);
}

#[test]
fn syn_fin_with_ack_is_suspicious_flags_not_syn_flood() {
    let mut d = Detector::new();
    let v = d.detect_intrusion(&tcp_packet(SRC_A, 80, true, true, true), 0);
    assert!(v.0);
    assert_eq!(v.1, Some(AttackType::SuspiciousTcpFlags));
    assert_eq!(v.2.as_deref(), Some("SYN+FIN flags detected, likely malicious."));
    // ACK disqualified the SYN-flood rule: its counter never moved.
    assert_eq!(d.syn_count(SRC_A), 0);
}

#[test]
fn syn_fin_without_ack_still_counts_syn() {
    let mut d = Detector::new();
    let v = d.detect_intrusion(&tcp_packet(SRC_A, 80, true, false, true), 0);
    assert!(v.0);
    assert_eq!(v.1, Some(AttackType::SuspiciousTcpFlags));
    // The verdict short-circuits, the counter update does not.
    assert_eq!(d.syn_count(SRC_A), 1);
}

#[test]
fn all_flags_clear_is_suspicious() {
    let mut d = Detector::new();
    let v = d.detect_intrusion(&tcp_packet(SRC_A, 80, false, false, false), 0);
    assert!(v.0);
    assert_eq!(v.1, Some(AttackType::SuspiciousTcpFlags));
    assert_eq!(
        v.2.as_deref(),
        Some("Packet with no flags at all, likely suspicious.")
    );
}

#[test]
fn udp_threshold_exact_within_window() {
    let mut d = Detector::new();
    for i in 0..200u64 {
        let v = d.detect_intrusion(&udp_packet(SRC_A), i * 20);
        assert!(!v.0);
    }
    assert_eq!(d.udp_window(SRC_A), Some(UdpWindow { count: 200, start_millis: 0 }));
    let v = d.detect_intrusion(&udp_packet(SRC_A), 4000);
    assert!(v.0);
    assert_eq!(v.1, Some(AttackType::UdpFlood));
    assert_eq!(v.2.as_deref(), Some("Potential UDP flood detected."));
}

#[test]
fn udp_window_rollover_resets_count() {
    let mut d = Detector::new();
    for i in 0..200u64 {
        let v = d.detect_intrusion(&udp_packet(SRC_A), i);
        assert!(!v.0);
    }
    // Arriving 6 seconds after the window began: no verdict, fresh window.
    let v = d.detect_intrusion(&udp_packet(SRC_A), 6000);
    assert!(!v.0);
    assert_eq!(d.udp_window(SRC_A), Some(UdpWindow { count: 1, start_millis: 6000 }));
    let v = d.detect_intrusion(&udp_packet(SRC_A), 6100);
    assert!(!v.0);
    assert_eq!(d.udp_window(SRC_A), Some(UdpWindow { count: 2, start_millis: 6000 }));
}

#[test]
fn window_boundary_is_strict() {
    let mut d = Detector::new();
    d.detect_intrusion(&udp_packet(SRC_A), 0);
    // Exactly the window length after the start: still the same window.
    d.detect_intrusion(&udp_packet(SRC_A), 5000);
    assert_eq!(d.udp_window(SRC_A), Some(UdpWindow { count: 2, start_millis: 0 }));
    // One millisecond past it: rollover.
    d.detect_intrusion(&udp_packet(SRC_A), 5001);
    assert_eq!(d.udp_window(SRC_A), Some(UdpWindow { count: 1, start_millis: 5001 }));
}

#[test]
fn first_udp_datagram_starts_window_at_one() {
    let mut d = Detector::new();
    assert_eq!(d.udp_window(SRC_A), None);
    let v = d.detect_intrusion(&udp_packet(SRC_A), 1234);
    assert!(!v.0);
    assert_eq!(d.udp_window(SRC_A), Some(UdpWindow { count: 1, start_millis: 1234 }));
}

#[test]
fn sources_are_independent() {
    let mut d = Detector::new();
    for i in 0..101u32 {
        let v = d.detect_intrusion(&plain_tcp(SRC_A), 0);
        if i < 100 {
            assert!(!v.0);
        } else {
            assert_eq!(v.1, Some(AttackType::TooManyConnectionAttempts));
        }
        if i < 50 {
            let v = d.detect_intrusion(&plain_tcp(SRC_B), 0);
            assert!(!v.0);
        }
    }
    assert_eq!(d.connection_attempt_count(SRC_A), 101);
    assert_eq!(d.connection_attempt_count(SRC_B), 50);
    for port in 1..=21u16 {
        d.detect_intrusion(&tcp_packet(SRC_B, port, false, true, false), 0);
    }
    // Port 80 from the earlier segments plus 21 fresh ports.
    assert_eq!(d.unique_port_count(SRC_B), 22);
    assert_eq!(d.unique_port_count(SRC_A), 1);
}

#[test]
fn non_ipv4_packets_are_benign() {
    let mut d = Detector::new();
    let p = ParsedHeaders {
        net: NetInfo::Other,
        transport: TransportInfo::Tcp(TcpHeaderInfo {
            destination_port: 80,
            syn: true,
            ack: false,
            fin: true,
            rst: false,
            psh: false,
            urg: false,
        }),
    };
    let v = d.detect_intrusion(&p, 0);
    assert!(!v.0);
    assert!(v.1.is_none());
    assert!(v.2.is_none());
    assert_eq!(d.connection_attempt_count(SRC_A), 0);
}

#[test]
fn other_transport_is_benign() {
    let mut d = Detector::new();
    let p = ParsedHeaders {
        net: NetInfo::Ipv4 { source: SRC_A, destination: DST },
        transport: TransportInfo::Other,
    };
    let v = d.detect_intrusion(&p, 0);
    assert!(!v.0);
    assert!(v.1.is_none());
    assert!(v.2.is_none());
    assert_eq!(d.connection_attempt_count(SRC_A), 0);
    assert_eq!(d.unique_port_count(SRC_A), 0);
    assert_eq!(d.udp_window(SRC_A), None);
}

#[test]
fn tcp_and_udp_state_do_not_mix() {
    let mut d = Detector::new();
    d.detect_intrusion(&plain_tcp(SRC_A), 0);
    assert_eq!(d.udp_window(SRC_A), None);
    d.detect_intrusion(&udp_packet(SRC_B), 0);
    assert_eq!(d.connection_attempt_count(SRC_B), 0);
    assert_eq!(d.unique_port_count(SRC_B), 0);
}
