use vstd::prelude::*;

verus! {

/// Length of an Ethernet header: two MAC addresses and the ethertype.
pub const ETH_HDR_LEN: usize = 14;

/// Length of an IPv4 header without options.
pub const IP_HDR_LEN: usize = 20;

/// Length of a UDP header.
pub const UDP_HDR_LEN: usize = 8;

/// Length of the fixed part of a DHCP message, magic cookie included.
pub const DHCP_FIXED_LEN: usize = 240;

/// Offset of the UDP payload (the DHCP message) within the frame.
pub const UDP_PAYLOAD_OFFSET: usize = ETH_HDR_LEN + IP_HDR_LEN + UDP_HDR_LEN;

/// Ethertype of IPv4.
pub const ETH_P_IP: u16 = 0x0800;

/// IP protocol number of UDP.
pub const IPPROTO_UDP: u8 = 17;

/// Well-known UDP port of a DHCP server.
pub const DHCP_SERVER_PORT: u16 = 67;

/// Option code that ends the DHCP option list.
pub const OPTION_END: u8 = 255;

/// Option code of the client host name.
pub const HOSTNAME_OPTION: u8 = 12;

/// Capacity of the capture buffer when none is configured.
pub const DEFAULT_CAPTURE_CAPACITY: u8 = 20;

/// Bound on the iterations of the option scan when none is configured.
pub const DEFAULT_MAX_ITERATIONS: usize = 70;

/// Whether `size` bytes starting at `offset` lie within `len` bytes.
pub open spec fn fits(len: int, offset: int, size: int) -> bool {
    0 <= offset && 0 <= size && offset + size <= len
}

/// The big-endian 16-bit integer at `i`.
pub open spec fn be16(s: Seq<u8>, i: int) -> int {
    s[i] * 0x100 + s[i + 1]
}

/// The big-endian 32-bit integer at `i`.
pub open spec fn be32(s: Seq<u8>, i: int) -> int {
    be16(s, i) * 0x1_0000 + be16(s, i + 2)
}

/// The six bytes at `i` read as a big-endian 48-bit integer (a MAC address).
pub open spec fn be48(s: Seq<u8>, i: int) -> int {
    be16(s, i) * 0x1_0000_0000 + be32(s, i + 2)
}

} // verus!
