use crate::layout::{be16, be32, be48, fits, DHCP_FIXED_LEN, ETH_HDR_LEN, IP_HDR_LEN, UDP_HDR_LEN};
use crate::view::BoundedView;
use vstd::prelude::*;

verus! {

/// The link-layer header: two MAC addresses, each a 48-bit integer, and the
/// ethertype.
#[derive(Clone, Copy, Debug, PartialEq, Eq, Structural)]
pub struct EthernetHeader {
    pub destination: u64,
    pub source: u64,
    pub ethertype: u16,
}

/// The part of the IPv4 header that the inspection consults.
#[derive(Clone, Copy, Debug, PartialEq, Eq, Structural)]
pub struct Ipv4Header {
    pub protocol: u8,
}

/// The UDP header; `length` counts the header and the payload.
#[derive(Clone, Copy, Debug, PartialEq, Eq, Structural)]
pub struct UdpHeader {
    pub source_port: u16,
    pub destination_port: u16,
    pub length: u16,
}

/// The fixed part of a DHCP message. Multi-byte fields are decoded from
/// network order; the client hardware address is its first six bytes as a
/// 48-bit integer. The hardware address padding and the legacy BOOTP area
/// are part of the fixed size but hold nothing that is decoded.
#[derive(Clone, Copy, Debug, PartialEq, Eq, Structural)]
pub struct DhcpPacket {
    pub operation_type: u8,
    pub hardware_type: u8,
    pub hardware_address_length: u8,
    pub hops: u8,
    pub transaction_id: u32,
    pub seconds_elapsed: u16,
    pub flags: u16,
    pub client_address: u32,
    pub your_address: u32,
    pub next_server_address: u32,
    pub relay_agent_address: u32,
    pub client_hardware_address: u64,
    pub magic_cookie: u32,
}

/// The Ethernet header at offset `i` of `f`, if it lies within `f`.
pub open spec fn ethernet_at(f: Seq<u8>, i: int) -> Option<EthernetHeader> {
    if fits(f.len() as int, i, ETH_HDR_LEN as int) {
        Some(
            EthernetHeader {
                destination: be48(f, i) as u64,
                source: be48(f, i + 6) as u64,
                ethertype: be16(f, i + 12) as u16,
            },
        )
    } else {
        None
    }
}

/// The IPv4 header at offset `i` of `f`, if it lies within `f`.
pub open spec fn ipv4_at(f: Seq<u8>, i: int) -> Option<Ipv4Header> {
    if fits(f.len() as int, i, IP_HDR_LEN as int) {
        Some(Ipv4Header { protocol: f[i + 9] })
    } else {
        None
    }
}

/// The UDP header at offset `i` of `f`, if it lies within `f`.
pub open spec fn udp_at(f: Seq<u8>, i: int) -> Option<UdpHeader> {
    if fits(f.len() as int, i, UDP_HDR_LEN as int) {
        Some(
            UdpHeader {
                source_port: be16(f, i) as u16,
                destination_port: be16(f, i + 2) as u16,
                length: be16(f, i + 4) as u16,
            },
        )
    } else {
        None
    }
}

/// The fixed DHCP header at offset `i` of `f`, if it lies within `f`.
pub open spec fn dhcp_at(f: Seq<u8>, i: int) -> Option<DhcpPacket> {
    if fits(f.len() as int, i, DHCP_FIXED_LEN as int) {
        Some(
            DhcpPacket {
                operation_type: f[i],
                hardware_type: f[i + 1],
                hardware_address_length: f[i + 2],
                hops: f[i + 3],
                transaction_id: be32(f, i + 4) as u32,
                seconds_elapsed: be16(f, i + 8) as u16,
                flags: be16(f, i + 10) as u16,
                client_address: be32(f, i + 12) as u32,
                your_address: be32(f, i + 16) as u32,
                next_server_address: be32(f, i + 20) as u32,
                relay_agent_address: be32(f, i + 24) as u32,
                client_hardware_address: be48(f, i + 28) as u64,
                magic_cookie: be32(f, i + 236) as u32,
            },
        )
    } else {
        None
    }
}

impl EthernetHeader {
    /// Decodes the Ethernet header at `offset`, or `None` where it would
    /// run past the end of the frame.
    pub fn read(view: &BoundedView, offset: usize) -> (r: Option<EthernetHeader>)
        ensures
            r == ethernet_at(view@, offset as int),
    {
        if !view.fits(offset, ETH_HDR_LEN) {
            return None;
        }
        let destination = view.read_be48(offset).unwrap();
        let source = view.read_be48(offset + 6).unwrap();
        let ethertype = view.read_be16(offset + 12).unwrap();
        Some(EthernetHeader { destination, source, ethertype })
    }
}

impl Ipv4Header {
    /// Decodes the IPv4 header at `offset`, or `None` where it would run
    /// past the end of the frame.
    pub fn read(view: &BoundedView, offset: usize) -> (r: Option<Ipv4Header>)
        ensures
            r == ipv4_at(view@, offset as int),
    {
        if !view.fits(offset, IP_HDR_LEN) {
            return None;
        }
        let protocol = view.read_u8(offset + 9).unwrap();
        Some(Ipv4Header { protocol })
    }
}

impl UdpHeader {
    /// Decodes the UDP header at `offset`, or `None` where it would run
    /// past the end of the frame.
    pub fn read(view: &BoundedView, offset: usize) -> (r: Option<UdpHeader>)
        ensures
            r == udp_at(view@, offset as int),
    {
        if !view.fits(offset, UDP_HDR_LEN) {
            return None;
        }
        let source_port = view.read_be16(offset).unwrap();
        let destination_port = view.read_be16(offset + 2).unwrap();
        let length = view.read_be16(offset + 4).unwrap();
        Some(UdpHeader { source_port, destination_port, length })
    }

    /// Length of the UDP payload as the header declares it; zero where the
    /// declared length is shorter than the header itself.
    pub fn payload_length(&self) -> (r: u16)
        ensures
            r == udp_payload_length(*self),
    {
        if self.length >= UDP_HDR_LEN as u16 {
            self.length - UDP_HDR_LEN as u16
        } else {
            0
        }
    }
}

/// The declared UDP length less the header, or zero where it is shorter.
pub open spec fn udp_payload_length(h: UdpHeader) -> int {
    if h.length >= UDP_HDR_LEN {
        h.length - UDP_HDR_LEN
    } else {
        0
    }
}

impl DhcpPacket {
    /// Decodes the fixed DHCP header at `offset` in one bounds-checked step,
    /// or `None` where it would run past the end of the frame.
    pub fn read(view: &BoundedView, offset: usize) -> (r: Option<DhcpPacket>)
        ensures
            r == dhcp_at(view@, offset as int),
    {
        if !view.fits(offset, DHCP_FIXED_LEN) {
            return None;
        }
        Some(
            DhcpPacket {
                operation_type: view.read_u8(offset).unwrap(),
                hardware_type: view.read_u8(offset + 1).unwrap(),
                hardware_address_length: view.read_u8(offset + 2).unwrap(),
                hops: view.read_u8(offset + 3).unwrap(),
                transaction_id: view.read_be32(offset + 4).unwrap(),
                seconds_elapsed: view.read_be16(offset + 8).unwrap(),
                flags: view.read_be16(offset + 10).unwrap(),
                client_address: view.read_be32(offset + 12).unwrap(),
                your_address: view.read_be32(offset + 16).unwrap(),
                next_server_address: view.read_be32(offset + 20).unwrap(),
                relay_agent_address: view.read_be32(offset + 24).unwrap(),
                client_hardware_address: view.read_be48(offset + 28).unwrap(),
                magic_cookie: view.read_be32(offset + 236).unwrap(),
            },
        )
    }
}

} // verus!
