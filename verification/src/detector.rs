//! The detection engine: per-source counters, the rules that update and
//! evaluate them for each packet, and the verdict returned to the caller.
//!
//! A [`Detector`] owns four maps keyed by IPv4 source address: a cumulative
//! count of TCP segments, a cumulative count of SYN-only segments, the set of
//! distinct destination ports seen, and a sliding-window UDP rate counter.
//! [`Detector::detect_intrusion`] updates them for one packet and returns the
//! verdict; the spec functions in this module state exactly which update and
//! which verdict that is.

use std::collections::HashMap;
use std::collections::HashSet;
use vstd::prelude::*;

use crate::headers::NetInfo;
use crate::headers::ParsedHeaders;
use crate::headers::TcpHeaderInfo;
use crate::headers::TransportInfo;

verus! {

/// A TCP source crosses the connection-attempt threshold when its segment
/// count exceeds this limit.
pub const CONNECTION_ATTEMPT_LIMIT: u64 = 100;

/// A TCP source crosses the SYN-flood threshold when its count of SYN-only
/// segments exceeds this limit.
pub const SYN_FLOOD_LIMIT: u64 = 100;

/// A TCP source crosses the port-scan threshold when its set of distinct
/// destination ports grows beyond this limit.
pub const PORT_SCAN_LIMIT: usize = 20;

/// A UDP source crosses the flood threshold when its in-window datagram count
/// exceeds this limit.
pub const UDP_FLOOD_LIMIT: u64 = 200;

/// Length of the UDP rate window: a datagram arriving more than this many
/// milliseconds after its source's window began starts a fresh window.
pub const UDP_WINDOW_MILLIS: u64 = 5000;

/// The closed set of intrusion classifications the engine can assign.
#[derive(Clone, Copy, Debug, PartialEq, Eq)]
pub enum AttackType {
    TooManyConnectionAttempts,
    SynFlood,
    PortScan,
    SuspiciousTcpFlags,
    UdpFlood,
    Unknown,
}

/// One source's UDP rate state: how many datagrams arrived in the current
/// window, and when (in caller-supplied milliseconds) that window began.
#[derive(Clone, Copy, Debug, PartialEq, Eq)]
pub struct UdpWindow {
    pub count: u64,
    pub start_millis: u64,
}

/// The mathematical state of a [`Detector`]: its four per-source maps.
pub struct DetectorState {
    pub conn: Map<u32, u64>,
    pub syn: Map<u32, u64>,
    pub ports: Map<u32, Set<u16>>,
    pub udp: Map<u32, UdpWindow>,
}

/// A counter after one more observation: one higher, saturating at the top of
/// `u64` so that a counter never wraps back below a threshold.
pub open spec fn next_count(c: u64) -> u64 {
    if c == u64::MAX {
        u64::MAX
    } else {
        (c + 1) as u64
    }
}

/// The counter stored for `src`, or zero if `src` has not been seen.
pub open spec fn count_of(m: Map<u32, u64>, src: u32) -> u64 {
    if m.contains_key(src) {
        m[src]
    } else {
        0
    }
}

/// The destination-port set stored for `src`, or the empty set if `src` has
/// not been seen.
pub open spec fn port_set_of(m: Map<u32, Set<u16>>, src: u32) -> Set<u16> {
    if m.contains_key(src) {
        m[src]
    } else {
        Set::empty()
    }
}

/// The UDP window stored for `src`, or a fresh zero-count window starting now
/// if `src` has not been seen.
pub open spec fn udp_window_of(m: Map<u32, UdpWindow>, src: u32, now: u64) -> UdpWindow {
    if m.contains_key(src) {
        m[src]
    } else {
        UdpWindow { count: 0, start_millis: now }
    }
}

/// Milliseconds elapsed since `start`, or zero if the clock reads earlier
/// than `start`.
pub open spec fn elapsed_millis(now: u64, start: u64) -> u64 {
    if now >= start {
        (now - start) as u64
    } else {
        0
    }
}

/// The connection-attempt map after one packet: the source's TCP segment
/// count rises by one for every IPv4 TCP segment, and nothing else changes.
pub open spec fn conn_after(m: Map<u32, u64>, p: ParsedHeaders) -> Map<u32, u64> {
    if p.is_ipv4_tcp() {
        m.insert(p.source(), next_count(count_of(m, p.source())))
    } else {
        m
    }
}

/// The SYN map after one packet: the source's count rises by one only for an
/// IPv4 TCP segment with SYN set and ACK unset.
pub open spec fn syn_after(m: Map<u32, u64>, p: ParsedHeaders) -> Map<u32, u64> {
    if p.is_ipv4_tcp() && p.tcp().syn && !p.tcp().ack {
        m.insert(p.source(), next_count(count_of(m, p.source())))
    } else {
        m
    }
}

/// The port-scan map after one packet: for an IPv4 TCP segment the
/// destination port joins the source's set, and nothing else changes.
pub open spec fn ports_after(
    m: Map<u32, Set<u16>>,
    p: ParsedHeaders,
) -> Map<u32, Set<u16>> {
    if p.is_ipv4_tcp() {
        m.insert(p.source(), port_set_of(m, p.source()).insert(p.tcp().destination_port))
    } else {
        m
    }
}

/// The UDP map after one packet: for an IPv4 UDP datagram the source's window
/// either rolls over to a fresh one-count window (when more than
/// [`UDP_WINDOW_MILLIS`] have elapsed) or counts one more datagram.
pub open spec fn udp_after(
    m: Map<u32, UdpWindow>,
    p: ParsedHeaders,
    now: u64,
) -> Map<u32, UdpWindow> {
    if p.is_ipv4_udp() {
        let w = udp_window_of(m, p.source(), now);
        if elapsed_millis(now, w.start_millis) > UDP_WINDOW_MILLIS {
            m.insert(p.source(), UdpWindow { count: 1, start_millis: now })
        } else {
            m.insert(p.source(), UdpWindow { count: next_count(w.count), start_millis: w.start_millis })
        }
    } else {
        m
    }
}

/// Message attached to a connection-attempt verdict.
pub open spec fn connection_attempts_message() -> Seq<char> {
    "Too many TCP connection attempts from the same IP."@
}

/// Message attached to a SYN-flood verdict.
pub open spec fn syn_flood_message() -> Seq<char> {
    "Potential SYN flood detected."@
}

/// Message attached to a port-scan verdict.
pub open spec fn port_scan_message() -> Seq<char> {
    "Too many unique destination ports (port scan) from the same IP."@
}

/// Message attached to a SYN+FIN verdict.
pub open spec fn syn_fin_message() -> Seq<char> {
    "SYN+FIN flags detected, likely malicious."@
}

/// Message attached to a no-flags verdict.
pub open spec fn no_flags_message() -> Seq<char> {
    "Packet with no flags at all, likely suspicious."@
}

/// Message attached to a UDP-flood verdict.
pub open spec fn udp_flood_message() -> Seq<char> {
    "Potential UDP flood detected."@
}

/// The alert raised for one IPv4 TCP segment, if any: the five TCP rules in
/// order, first match winning. Each threshold rule judges the counter as it
/// stands after this segment's own update.
pub open spec fn tcp_alert(s: DetectorState, src: u32, tcp: TcpHeaderInfo) -> Option<
    (AttackType, Seq<char>),
> {
    if next_count(count_of(s.conn, src)) > CONNECTION_ATTEMPT_LIMIT {
        Some((AttackType::TooManyConnectionAttempts, connection_attempts_message()))
    } else if tcp.syn && !tcp.ack && next_count(count_of(s.syn, src)) > SYN_FLOOD_LIMIT {
        Some((AttackType::SynFlood, syn_flood_message()))
    } else if port_set_of(s.ports, src).insert(tcp.destination_port).len() > PORT_SCAN_LIMIT {
        Some((AttackType::PortScan, port_scan_message()))
    } else if tcp.syn && tcp.fin {
        Some((AttackType::SuspiciousTcpFlags, syn_fin_message()))
    } else if !tcp.syn && !tcp.ack && !tcp.fin && !tcp.rst && !tcp.psh && !tcp.urg {
        Some((AttackType::SuspiciousTcpFlags, no_flags_message()))
    } else {
        None
    }
}

/// The alert raised for one IPv4 UDP datagram, if any: nothing on a window
/// rollover, otherwise a flood alert once the in-window count exceeds
/// [`UDP_FLOOD_LIMIT`].
pub open spec fn udp_alert(m: Map<u32, UdpWindow>, src: u32, now: u64) -> Option<
    (AttackType, Seq<char>),
> {
    let w = udp_window_of(m, src, now);
    if elapsed_millis(now, w.start_millis) > UDP_WINDOW_MILLIS {
        None
    } else if next_count(w.count) > UDP_FLOOD_LIMIT {
        Some((AttackType::UdpFlood, udp_flood_message()))
    } else {
        None
    }
}

/// The alert raised for one packet, if any: TCP and UDP rules for IPv4
/// packets, nothing for anything else.
pub open spec fn evaluate_alert(
    s: DetectorState,
    p: ParsedHeaders,
    now: u64,
) -> Option<(AttackType, Seq<char>)> {
    if p.is_ipv4_tcp() {
        tcp_alert(s, p.source(), p.tcp())
    } else if p.is_ipv4_udp() {
        udp_alert(s.udp, p.source(), now)
    } else {
        None
    }
}

/// The detection engine. It owns all per-source state; one instance serves
/// one stream of packets.
pub struct Detector {
    connection_attempts: HashMap<u32, u64>,
    syn_attempts: HashMap<u32, u64>,
    port_scan: HashMap<u32, HashSet<u16>>,
    udp_volume: HashMap<u32, UdpWindow>,
}

impl View for Detector {
    type V = DetectorState;

    closed spec fn view(&self) -> DetectorState {
        DetectorState {
            conn: self.connection_attempts@,
            syn: self.syn_attempts@,
            ports: self.port_scan@.map_values(|set: HashSet<u16>| set@),
            udp: self.udp_volume@,
        }
    }
}

impl Detector {
    /// A fresh engine with no per-source state.
    pub fn new() -> (d: Detector)
        ensures
            d@.conn == Map::<u32, u64>::empty(),
            d@.syn == Map::<u32, u64>::empty(),
            d@.ports == Map::<u32, Set<u16>>::empty(),
            d@.udp == Map::<u32, UdpWindow>::empty(),
    {
        Detector {
            connection_attempts: HashMap::new(),
            syn_attempts: HashMap::new(),
            port_scan: HashMap::new(),
            udp_volume: HashMap::new(),
        }
    }

    /// Classify one packet and update the per-source state.
    ///
    /// `now_millis` is the caller's reading of a monotonic millisecond
    /// clock; only the UDP window rule consults it. The result carries an
    /// intrusion flag together with the category and message of the alert,
    /// if one was raised. Every counter that a rule maintains moves on every
    /// qualifying segment; which alert comes back is decided afterwards, by
    /// the first rule in order whose test holds.
    pub fn detect_intrusion(
        &mut self,
        headers: &ParsedHeaders,
        now_millis: u64,
    ) -> (verdict: (bool, Option<AttackType>, Option<String>))
        ensures
            final(self)@.conn == conn_after(old(self)@.conn, *headers),
            final(self)@.syn == syn_after(old(self)@.syn, *headers),
            final(self)@.ports == ports_after(old(self)@.ports, *headers),
            final(self)@.udp == udp_after(old(self)@.udp, *headers, now_millis),
            ({
                let alert = evaluate_alert(old(self)@, *headers, now_millis);
                match alert {
                    Some(pair) => verdict.0 && verdict.1 == Some(pair.0) && (verdict.2 matches Some(
                        m,
                    ) && m@ == pair.1),
                    None => !verdict.0 && verdict.1 is None && verdict.2 is None,
                }
            }),
    {
        let mut verdict: (bool, Option<AttackType>, Option<String>) = (false, None, None);
        if let NetInfo::Ipv4 { source, destination: _ } = headers.net {
            if let TransportInfo::Tcp(tcp) = headers.transport {
                let conn_before: u64 = match self.connection_attempts.get(&source) {
                    Some(c) => *c,
                    None => 0,
                };
                let conn_count: u64 = if conn_before == u64::MAX {
                    u64::MAX
                } else {
                    conn_before + 1
                };
                self.connection_attempts.insert(source, conn_count);

                let syn_triggered: bool = if tcp.syn && !tcp.ack {
                    let syn_before: u64 = match self.syn_attempts.get(&source) {
                        Some(c) => *c,
                        None => 0,
                    };
                    let syn_count: u64 = if syn_before == u64::MAX {
                        u64::MAX
                    } else {
                        syn_before + 1
                    };
                    self.syn_attempts.insert(source, syn_count);
                    syn_count > SYN_FLOOD_LIMIT
                } else {
                    false
                };

                let mut ports: HashSet<u16> = match self.port_scan.remove(&source) {
                    Some(set) => set,
                    None => HashSet::new(),
                };
                ports.insert(tcp.destination_port);
                let port_count: usize = ports.len();
                self.port_scan.insert(source, ports);
                proof {
                    assert(self.port_scan@.map_values(|set: HashSet<u16>| set@) =~= ports_after(
                        old(self)@.ports,
                        *headers,
                    ));
                }

                if conn_count > CONNECTION_ATTEMPT_LIMIT {
                    verdict = (
                        true,
                        Some(AttackType::TooManyConnectionAttempts),
                        Some("Too many TCP connection attempts from the same IP.".to_string()),
                    );
                } else if syn_triggered {
                    verdict = (
                        true,
                        Some(AttackType::SynFlood),
                        Some("Potential SYN flood detected.".to_string()),
                    );
                } else if port_count > PORT_SCAN_LIMIT {
                    verdict = (
                        true,
                        Some(AttackType::PortScan),
                        Some("Too many unique destination ports (port scan) from the same IP.".to_string()),
                    );
                } else if tcp.syn && tcp.fin {
                    verdict = (
                        true,
                        Some(AttackType::SuspiciousTcpFlags),
                        Some("SYN+FIN flags detected, likely malicious.".to_string()),
                    );
                } else if !tcp.syn && !tcp.ack && !tcp.fin && !tcp.rst && !tcp.psh && !tcp.urg {
                    verdict = (
                        true,
                        Some(AttackType::SuspiciousTcpFlags),
                        Some("Packet with no flags at all, likely suspicious.".to_string()),
                    );
                }
            } else if let TransportInfo::Udp = headers.transport {
                let window: UdpWindow = match self.udp_volume.get(&source) {
                    Some(w) => *w,
                    None => UdpWindow { count: 0, start_millis: now_millis },
                };
                let elapsed: u64 = if now_millis >= window.start_millis {
                    now_millis - window.start_millis
                } else {
                    0
                };
                if elapsed > UDP_WINDOW_MILLIS {
                    self.udp_volume.insert(source, UdpWindow { count: 1, start_millis: now_millis });
                } else {
                    let count: u64 = if window.count == u64::MAX {
                        u64::MAX
                    } else {
                        window.count + 1
                    };
                    self.udp_volume.insert(
                        source,
                        UdpWindow { count, start_millis: window.start_millis },
                    );
                    if count > UDP_FLOOD_LIMIT {
                        verdict = (
                            true,
                            Some(AttackType::UdpFlood),
                            Some("Potential UDP flood detected.".to_string()),
                        );
                    }
                }
            }
        }
        verdict
    }

    /// The cumulative TCP segment count recorded for `source`.
    pub fn connection_attempt_count(&self, source: u32) -> (c: u64)
        ensures
            c == count_of(self@.conn, source),
    {
        match self.connection_attempts.get(&source) {
            Some(c) => *c,
            None => 0,
        }
    }

    /// The cumulative SYN-only segment count recorded for `source`.
    pub fn syn_count(&self, source: u32) -> (c: u64)
        ensures
            c == count_of(self@.syn, source),
    {
        match self.syn_attempts.get(&source) {
            Some(c) => *c,
            None => 0,
        }
    }

    /// How many distinct destination ports have been recorded for `source`.
    pub fn unique_port_count(&self, source: u32) -> (n: usize)
        ensures
            n == port_set_of(self@.ports, source).len(),
    {
        match self.port_scan.get(&source) {
            Some(set) => set.len(),
            None => 0,
        }
    }

    /// The UDP window recorded for `source`, if any.
    pub fn udp_window(&self, source: u32) -> (w: Option<UdpWindow>)
        ensures
            w == (if self@.udp.contains_key(source) {
                Some(self@.udp[source])
            } else {
                None::<UdpWindow>
            }),
    {
        match self.udp_volume.get(&source) {
            Some(w) => Some(*w),
            None => None,
        }
    }
}

/// Law: the connection-attempt threshold is exact. A TCP segment from `src`
/// draws a TooManyConnectionAttempts verdict precisely when the count already
/// recorded for `src` is at least [`CONNECTION_ATTEMPT_LIMIT`] — so from a
/// fresh engine the 100th segment never draws it and the 101st always does.
pub proof fn lemma_connection_threshold_exact(s: DetectorState, src: u32, tcp: TcpHeaderInfo)
    ensures
        (tcp_alert(s, src, tcp) matches Some(pair) && pair.0
            == AttackType::TooManyConnectionAttempts) <==> count_of(s.conn, src)
            >= CONNECTION_ATTEMPT_LIMIT,
{
}

/// Law: every IPv4 TCP segment raises its source's recorded segment count by
/// exactly one (short of the counter's ceiling), so the count equals the
/// number of segments seen from that source.
pub proof fn lemma_conn_counts_segments(m: Map<u32, u64>, p: ParsedHeaders)
    requires
        p.is_ipv4_tcp(),
        count_of(m, p.source()) < u64::MAX,
    ensures
        count_of(conn_after(m, p), p.source()) == count_of(m, p.source()) + 1,
{
}

/// The connection-attempt map after a whole run of packets, oldest first.
pub open spec fn conn_after_all(m: Map<u32, u64>, packets: Seq<ParsedHeaders>) -> Map<u32, u64>
    decreases packets.len(),
{
    if packets.len() == 0 {
        m
    } else {
        conn_after_all(conn_after(m, packets[0]), packets.drop_first())
    }
}

/// Law: over a run of IPv4 TCP segments all from `src`, the recorded count
/// grows by exactly the number of segments, as long as that stays short of
/// the counter's ceiling.
pub proof fn lemma_conn_counts_a_stream(m: Map<u32, u64>, packets: Seq<ParsedHeaders>, src: u32)
    requires
        forall|i: int|
            0 <= i < packets.len() ==> (#[trigger] packets[i]).is_ipv4_tcp() && packets[i].source()
                == src,
        count_of(m, src) + packets.len() < u64::MAX,
    ensures
        count_of(conn_after_all(m, packets), src) == count_of(m, src) + packets.len(),
    decreases packets.len(),
{
    if packets.len() > 0 {
        lemma_conn_counts_a_stream(conn_after(m, packets[0]), packets.drop_first(), src);
    }
}

/// Law: threshold exactness over a run from a fresh engine. After `packets`
/// IPv4 TCP segments from `src` and from nobody else, the next segment from
/// `src` draws a TooManyConnectionAttempts verdict precisely when at least
/// [`CONNECTION_ATTEMPT_LIMIT`] segments came before it: the 100th segment
/// of such a run never draws it, the 101st always does.
pub proof fn lemma_threshold_on_a_fresh_engine(
    s: DetectorState,
    packets: Seq<ParsedHeaders>,
    src: u32,
    tcp: TcpHeaderInfo,
)
    requires
        s.conn == conn_after_all(Map::<u32, u64>::empty(), packets),
        forall|i: int|
            0 <= i < packets.len() ==> (#[trigger] packets[i]).is_ipv4_tcp() && packets[i].source()
                == src,
        packets.len() < u64::MAX,
    ensures
        (tcp_alert(s, src, tcp) matches Some(pair) && pair.0
            == AttackType::TooManyConnectionAttempts) <==> packets.len()
            >= CONNECTION_ATTEMPT_LIMIT,
{
    lemma_conn_counts_a_stream(Map::<u32, u64>::empty(), packets, src);
    lemma_connection_threshold_exact(s, src, tcp);
}

/// Law: SYN-only gating. A TCP segment with ACK set never changes the SYN
/// map, whatever its SYN flag holds.
pub proof fn lemma_syn_only_gating(m: Map<u32, u64>, p: ParsedHeaders)
    requires
        p.transport is Tcp,
        p.tcp().ack,
    ensures
        syn_after(m, p) == m,
{
}

/// Law: the port record keeps set semantics. Recording a destination port
/// the source has already used leaves its port set — and so its size —
/// unchanged.
pub proof fn lemma_port_scan_set_semantics(m: Map<u32, Set<u16>>, p: ParsedHeaders)
    requires
        p.is_ipv4_tcp(),
        port_set_of(m, p.source()).contains(p.tcp().destination_port),
    ensures
        port_set_of(ports_after(m, p), p.source()) == port_set_of(m, p.source()),
{
    assert(port_set_of(m, p.source()).insert(p.tcp().destination_port) =~= port_set_of(
        m,
        p.source(),
    ));
}

/// The port-scan map after a whole run of packets, oldest first.
pub open spec fn ports_after_all(
    m: Map<u32, Set<u16>>,
    packets: Seq<ParsedHeaders>,
) -> Map<u32, Set<u16>>
    decreases packets.len(),
{
    if packets.len() == 0 {
        m
    } else {
        ports_after_all(ports_after(m, packets[0]), packets.drop_first())
    }
}

/// Law: repeating one destination port never grows the port set. Over a run
/// of IPv4 TCP segments from `src` all aimed at the same port, the source's
/// port set afterwards is its old set with just that one port added — from a
/// fresh engine its size is one, however long the run.
pub proof fn lemma_same_port_stream(m: Map<u32, Set<u16>>, packets: Seq<ParsedHeaders>, src: u32, port: u16)
    requires
        packets.len() > 0,
        forall|i: int|
            0 <= i < packets.len() ==> (#[trigger] packets[i]).is_ipv4_tcp() && packets[i].source()
                == src && packets[i].tcp().destination_port == port,
    ensures
        port_set_of(ports_after_all(m, packets), src) == port_set_of(m, src).insert(port),
    decreases packets.len(),
{
    let m1 = ports_after(m, packets[0]);
    if packets.len() == 1 {
        assert(ports_after_all(m1, packets.drop_first()) == m1);
        assert(ports_after_all(m, packets) == m1);
    } else {
        lemma_same_port_stream(m1, packets.drop_first(), src, port);
        assert(port_set_of(m1, src).insert(port) =~= port_set_of(m, src).insert(port));
    }
}

/// Law: the port-scan threshold is exact. When no earlier rule fires first,
/// a TCP segment draws a PortScan verdict precisely when the source's set of
/// distinct destination ports, this segment's port included, exceeds
/// [`PORT_SCAN_LIMIT`].
pub proof fn lemma_port_scan_threshold(s: DetectorState, src: u32, tcp: TcpHeaderInfo)
    requires
        count_of(s.conn, src) < CONNECTION_ATTEMPT_LIMIT,
        !(tcp.syn && !tcp.ack && count_of(s.syn, src) >= SYN_FLOOD_LIMIT),
    ensures
        (tcp_alert(s, src, tcp) matches Some(pair) && pair.0 == AttackType::PortScan)
            <==> port_set_of(s.ports, src).insert(tcp.destination_port).len() > PORT_SCAN_LIMIT,
{
}

/// Law: SYN+FIN precedence. A segment with SYN, FIN and ACK all set is
/// classified SuspiciousTcpFlags, not SynFlood: ACK disqualifies the
/// SYN-flood rule and leaves the SYN map untouched. Stated for packets on
/// which no volume rule (connection attempts, port scan) fires first.
pub proof fn lemma_syn_fin_precedence(s: DetectorState, p: ParsedHeaders)
    requires
        p.is_ipv4_tcp(),
        p.tcp().syn,
        p.tcp().fin,
        p.tcp().ack,
        count_of(s.conn, p.source()) < CONNECTION_ATTEMPT_LIMIT,
        port_set_of(s.ports, p.source()).insert(p.tcp().destination_port).len()
            <= PORT_SCAN_LIMIT,
    ensures
        tcp_alert(s, p.source(), p.tcp()) == Some(
            (AttackType::SuspiciousTcpFlags, syn_fin_message()),
        ),
        syn_after(s.syn, p) == s.syn,
{
}

/// Law: all-flags-clear detection. A segment with every one of SYN, ACK,
/// FIN, RST, PSH and URG unset is classified SuspiciousTcpFlags, stated for
/// packets on which no volume rule fires first.
pub proof fn lemma_no_flags_detection(s: DetectorState, src: u32, tcp: TcpHeaderInfo)
    requires
        !tcp.syn,
        !tcp.ack,
        !tcp.fin,
        !tcp.rst,
        !tcp.psh,
        !tcp.urg,
        count_of(s.conn, src) < CONNECTION_ATTEMPT_LIMIT,
        port_set_of(s.ports, src).insert(tcp.destination_port).len() <= PORT_SCAN_LIMIT,
    ensures
        tcp_alert(s, src, tcp) == Some((AttackType::SuspiciousTcpFlags, no_flags_message())),
{
}

/// Law: the UDP threshold is exact inside a window. While at most
/// [`UDP_WINDOW_MILLIS`] have elapsed since the source's window began, a
/// datagram draws a UdpFlood verdict precisely when the in-window count is
/// already at least [`UDP_FLOOD_LIMIT`].
pub proof fn lemma_udp_threshold_in_window(m: Map<u32, UdpWindow>, src: u32, now: u64)
    requires
        elapsed_millis(now, udp_window_of(m, src, now).start_millis) <= UDP_WINDOW_MILLIS,
    ensures
        (udp_alert(m, src, now) matches Some(pair) && pair.0 == AttackType::UdpFlood)
            <==> udp_window_of(m, src, now).count >= UDP_FLOOD_LIMIT,
{
}

/// Law: each in-window datagram counts once. While the window has not
/// elapsed, a datagram raises the source's in-window count by exactly one
/// (short of the counter's ceiling) and leaves the window's start alone.
pub proof fn lemma_udp_counts_in_window(m: Map<u32, UdpWindow>, p: ParsedHeaders, now: u64)
    requires
        p.is_ipv4_udp(),
        elapsed_millis(now, udp_window_of(m, p.source(), now).start_millis) <= UDP_WINDOW_MILLIS,
        udp_window_of(m, p.source(), now).count < u64::MAX,
    ensures
        udp_after(m, p, now)[p.source()].count == udp_window_of(m, p.source(), now).count + 1,
        udp_after(m, p, now)[p.source()].start_millis == udp_window_of(
            m,
            p.source(),
            now,
        ).start_millis,
{
}

/// The UDP map after a whole run of arrivals, oldest first; each arrival
/// pairs a packet with its clock reading.
pub open spec fn udp_after_all(
    m: Map<u32, UdpWindow>,
    arrivals: Seq<(ParsedHeaders, u64)>,
) -> Map<u32, UdpWindow>
    decreases arrivals.len(),
{
    if arrivals.len() == 0 {
        m
    } else {
        udp_after_all(udp_after(m, arrivals[0].0, arrivals[0].1), arrivals.drop_first())
    }
}

/// Law: a burst inside one window counts every datagram. Over a run of IPv4
/// UDP datagrams from `src` that all arrive within [`UDP_WINDOW_MILLIS`] of
/// the window's start, the in-window count grows by exactly the number of
/// datagrams and the window's start stands still — so, with the threshold
/// law, a burst from a fresh window draws its first UdpFlood verdict on the
/// datagram that finds [`UDP_FLOOD_LIMIT`] already counted, and not before.
pub proof fn lemma_udp_burst_counts(
    m: Map<u32, UdpWindow>,
    arrivals: Seq<(ParsedHeaders, u64)>,
    src: u32,
)
    requires
        m.contains_key(src),
        forall|i: int|
            0 <= i < arrivals.len() ==> (#[trigger] arrivals[i]).0.is_ipv4_udp()
                && arrivals[i].0.source() == src,
        forall|i: int|
            0 <= i < arrivals.len() ==> m[src].start_millis <= (#[trigger] arrivals[i]).1
                <= m[src].start_millis + UDP_WINDOW_MILLIS,
        m[src].count + arrivals.len() < u64::MAX,
    ensures
        udp_after_all(m, arrivals)[src] == (UdpWindow {
            count: (m[src].count + arrivals.len()) as u64,
            start_millis: m[src].start_millis,
        }),
    decreases arrivals.len(),
{
    if arrivals.len() > 0 {
        let m1 = udp_after(m, arrivals[0].0, arrivals[0].1);
        lemma_udp_burst_counts(m1, arrivals.drop_first(), src);
    }
}

/// Law: window rollover. A datagram arriving more than [`UDP_WINDOW_MILLIS`]
/// after the source's window began draws no verdict and resets that source to
/// a fresh window of count one starting now — the triggering datagram counts
/// itself.
pub proof fn lemma_udp_window_rollover(m: Map<u32, UdpWindow>, p: ParsedHeaders, now: u64)
    requires
        p.is_ipv4_udp(),
        elapsed_millis(now, udp_window_of(m, p.source(), now).start_millis) > UDP_WINDOW_MILLIS,
    ensures
        udp_alert(m, p.source(), now) is None,
        udp_after(m, p, now)[p.source()] == (UdpWindow { count: 1, start_millis: now }),
{
}

/// Law: independence across sources. A packet whose IPv4 source is not
/// `other` — or that carries no IPv4 source at all — leaves every record of
/// `other` unchanged, in all four maps.
pub proof fn lemma_source_independence(s: DetectorState, p: ParsedHeaders, now: u64, other: u32)
    requires
        p.net is Ipv4 ==> p.source() != other,
    ensures
        count_of(conn_after(s.conn, p), other) == count_of(s.conn, other),
        count_of(syn_after(s.syn, p), other) == count_of(s.syn, other),
        port_set_of(ports_after(s.ports, p), other) == port_set_of(s.ports, other),
        udp_window_of(udp_after(s.udp, p, now), other, now) == udp_window_of(s.udp, other, now),
{
}

/// Law: the engine never classifies a packet as Unknown; that category
/// exists for alert records whose verdict carried no category of its own.
pub proof fn lemma_engine_never_unknown(s: DetectorState, p: ParsedHeaders, now: u64)
    ensures
        evaluate_alert(s, p, now) matches Some(pair) ==> pair.0 != AttackType::Unknown,
{
}

/// Law: a packet that is not IPv4, or whose transport is neither TCP nor
/// UDP, draws a benign verdict and changes no state.
pub proof fn lemma_non_ipv4_benign(s: DetectorState, p: ParsedHeaders, now: u64)
    requires
        !p.is_ipv4_tcp(),
        !p.is_ipv4_udp(),
    ensures
        evaluate_alert(s, p, now) is None,
        conn_after(s.conn, p) == s.conn,
        syn_after(s.syn, p) == s.syn,
        ports_after(s.ports, p) == s.ports,
        udp_after(s.udp, p, now) == s.udp,
{
}

} // verus!
