//! Bounds-checked inspection of DHCP server replies carried in raw
//! Ethernet frames.
//!
//! Every read of the frame goes through [`BoundedView`], whose contracts
//! say that a value comes back exactly when the whole requested range lies
//! inside the frame. On top of it the header decoders, the DHCP option
//! scanner and [`inspect`] are specified over the frame's bytes as a
//! `Seq<u8>`.

mod headers;
mod inspect;
mod laws;
mod layout;
mod options;
mod view;

pub use inspect::{
    captured_option, dhcp_length, dhcp_stage, inspect, ipv4_stage, is_server_reply, scan_end,
    udp_stage, verdict_code, Inspection, Verdict,
};
pub use laws::{
    declared_length, empty_options, is_reply_prefix, lemma_iteration_cap, lemma_option_round_trip,
    lemma_sentinel_first,
};
pub use layout::{
    be16, be32, be48, fits, DEFAULT_CAPTURE_CAPACITY, DEFAULT_MAX_ITERATIONS, DHCP_FIXED_LEN,
    DHCP_SERVER_PORT, ETH_HDR_LEN, ETH_P_IP, HOSTNAME_OPTION, IPPROTO_UDP, IP_HDR_LEN, OPTION_END,
    UDP_HDR_LEN, UDP_PAYLOAD_OFFSET,
};
pub use headers::{
    dhcp_at, ethernet_at, ipv4_at, udp_at, udp_payload_length, DhcpPacket, EthernetHeader,
    Ipv4Header, UdpHeader,
};
pub use options::{
    capture_of, captured_at, min, scan_from, scan_matches, scan_options, scan_region,
    CapturedOption, OptionScan, ScanConfig, ScanEnd,
};
pub use view::BoundedView;
