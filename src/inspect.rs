use crate::headers::{
    dhcp_at, ethernet_at, ipv4_at, udp_at, udp_payload_length, DhcpPacket, EthernetHeader,
    Ipv4Header, UdpHeader,
};
use crate::layout::{
    DHCP_SERVER_PORT, ETH_HDR_LEN, ETH_P_IP, IPPROTO_UDP, IP_HDR_LEN, UDP_PAYLOAD_OFFSET,
};
use crate::options::{capture_of, scan_matches, scan_options, scan_region, OptionScan, ScanConfig, ScanEnd};
use crate::view::BoundedView;
use vstd::prelude::*;

verus! {

/// The decision on a frame.
#[derive(Clone, Copy, Debug, PartialEq, Eq, Structural)]
pub enum Verdict {
    /// Let the frame proceed unmodified.
    Continue,
    /// Discard the frame.
    Drop,
    /// An internal fault; the host treats the frame as dropped.
    Error,
}

/// What the inspection of one frame decoded, stage by stage, and its
/// verdict. A stage that was not reached, or whose read would have run
/// past the frame, is `None`.
#[derive(Clone, Debug)]
pub struct Inspection {
    pub verdict: Verdict,
    pub ethernet: Option<EthernetHeader>,
    pub ipv4: Option<Ipv4Header>,
    pub udp: Option<UdpHeader>,
    pub dhcp: Option<DhcpPacket>,
    pub scan: Option<OptionScan>,
}

/// The IPv4 header of frame `f`, consulted only when the ethertype is IPv4.
pub open spec fn ipv4_stage(f: Seq<u8>) -> Option<Ipv4Header> {
    let eth = ethernet_at(f, 0);
    if eth is Some && eth->0.ethertype == ETH_P_IP {
        ipv4_at(f, ETH_HDR_LEN as int)
    } else {
        None
    }
}

/// The UDP header of frame `f`, consulted only when the IP protocol is UDP.
pub open spec fn udp_stage(f: Seq<u8>) -> Option<UdpHeader> {
    let ip = ipv4_stage(f);
    if ip is Some && ip->0.protocol == IPPROTO_UDP {
        udp_at(f, (ETH_HDR_LEN + IP_HDR_LEN) as int)
    } else {
        None
    }
}

/// Frame `f` carries UDP from the DHCP server port: a server reply.
pub open spec fn is_server_reply(f: Seq<u8>) -> bool {
    let udp = udp_stage(f);
    udp is Some && udp->0.source_port == DHCP_SERVER_PORT
}

/// The fixed DHCP header of frame `f`, decoded only for server replies.
pub open spec fn dhcp_stage(f: Seq<u8>) -> Option<DhcpPacket> {
    if is_server_reply(f) {
        dhcp_at(f, UDP_PAYLOAD_OFFSET as int)
    } else {
        None
    }
}

/// The declared length of the DHCP message of frame `f`.
pub open spec fn dhcp_length(f: Seq<u8>) -> int {
    udp_payload_length(udp_stage(f)->0)
}

/// Why the option scan of frame `f` stopped, where an option scan is made.
pub open spec fn scan_end(f: Seq<u8>, cfg: ScanConfig) -> Option<ScanEnd> {
    if dhcp_stage(f) is Some {
        Some(scan_region(f, dhcp_length(f), cfg).0)
    } else {
        None
    }
}

/// The value of the target option that the inspection of frame `f`
/// captures, if any.
pub open spec fn captured_option(f: Seq<u8>, cfg: ScanConfig) -> Option<Seq<u8>> {
    if scan_end(f, cfg) == Some(ScanEnd::Captured) {
        let at = UDP_PAYLOAD_OFFSET + scan_region(f, dhcp_length(f), cfg).1;
        Some(capture_of(f, at + 2, f[at + 1] as int, cfg.capture_capacity as int))
    } else {
        None
    }
}

/// The action code of each verdict, as the XDP hook reads it.
pub open spec fn verdict_code(v: Verdict) -> u32 {
    match v {
        Verdict::Continue => 2,
        Verdict::Drop => 1,
        Verdict::Error => 0,
    }
}

/// Relies on aya_ebpf's `xdp_action::XDP_PASS`, the code that lets a frame
/// pass.
#[verifier::external_body]
fn xdp_pass() -> (r: u32)
    ensures
        r == 2,
{
    aya_ebpf::bindings::xdp_action::XDP_PASS
}

/// Relies on aya_ebpf's `xdp_action::XDP_DROP`, the code that discards a
/// frame.
#[verifier::external_body]
fn xdp_drop() -> (r: u32)
    ensures
        r == 1,
{
    aya_ebpf::bindings::xdp_action::XDP_DROP
}

/// Relies on aya_ebpf's `xdp_action::XDP_ABORTED`, the code that discards a
/// frame and counts a fault.
#[verifier::external_body]
fn xdp_aborted() -> (r: u32)
    ensures
        r == 0,
{
    aya_ebpf::bindings::xdp_action::XDP_ABORTED
}

impl Verdict {
    /// The XDP action code that carries out this verdict.
    pub fn action_code(self) -> (r: u32)
        ensures
            r == verdict_code(self),
    {
        match self {
            Verdict::Continue => xdp_pass(),
            Verdict::Drop => xdp_drop(),
            Verdict::Error => xdp_aborted(),
        }
    }
}

impl Inspection {
    /// The captured option value, if any, as a sequence.
    pub open spec fn captured_view(self) -> Option<Seq<u8>> {
        if self.scan is Some && self.scan->0.captured is Some {
            Some(self.scan->0.captured->0.value@)
        } else {
            None
        }
    }
}

/// Inspects one frame: decodes the Ethernet, IPv4 and UDP headers, keeps
/// to UDP sent from the DHCP server port, decodes the fixed DHCP header and
/// scans the options for the target option of `cfg`.
///
/// Each stage is reached only when the one before it decoded and passed its
/// filter; a read that would run past the frame ends the inspection there.
/// The frame is never dropped: the verdict is `Continue`.
pub fn inspect(frame: &[u8], cfg: &ScanConfig) -> (r: Inspection)
    ensures
        r.verdict == Verdict::Continue,
        r.ethernet == ethernet_at(frame@, 0),
        r.ipv4 == ipv4_stage(frame@),
        r.udp == udp_stage(frame@),
        r.dhcp == dhcp_stage(frame@),
        r.scan is Some <==> r.dhcp is Some,
        r.scan is Some ==> scan_matches(r.scan->0, frame@, dhcp_length(frame@), *cfg),
        r.captured_view() == captured_option(frame@, *cfg),
        r.ethernet is Some && r.ethernet->0.ethertype != ETH_P_IP ==> r.ipv4 is None
            && r.udp is None && r.dhcp is None && r.scan is None,
        r.ipv4 is Some && r.ipv4->0.protocol != IPPROTO_UDP ==> r.udp is None && r.dhcp is None
            && r.scan is None,
        r.udp is Some && r.udp->0.source_port != DHCP_SERVER_PORT ==> r.dhcp is None
            && r.scan is None,
{
    let view = BoundedView::new(frame);
    let mut out = Inspection {
        verdict: Verdict::Continue,
        ethernet: None,
        ipv4: None,
        udp: None,
        dhcp: None,
        scan: None,
    };
    let ethernet = EthernetHeader::read(&view, 0);
    out.ethernet = ethernet;
    let ethernet = match ethernet {
        Some(e) => e,
        None => return out,
    };
    if ethernet.ethertype != ETH_P_IP {
        return out;
    }
    let ipv4 = Ipv4Header::read(&view, ETH_HDR_LEN);
    out.ipv4 = ipv4;
    let ipv4 = match ipv4 {
        Some(h) => h,
        None => return out,
    };
    if ipv4.protocol != IPPROTO_UDP {
        return out;
    }
    let udp = UdpHeader::read(&view, ETH_HDR_LEN + IP_HDR_LEN);
    out.udp = udp;
    let udp = match udp {
        Some(h) => h,
        None => return out,
    };
    if udp.source_port != DHCP_SERVER_PORT {
        return out;
    }
    let dhcp = DhcpPacket::read(&view, UDP_PAYLOAD_OFFSET);
    out.dhcp = dhcp;
    if dhcp.is_none() {
        return out;
    }
    let scan = scan_options(&view, udp.payload_length(), cfg);
    out.scan = Some(scan);
    out
}

} // verus!
