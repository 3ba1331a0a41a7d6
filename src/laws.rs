use crate::headers::{udp_at, udp_payload_length};
use crate::inspect::{captured_option, dhcp_length, dhcp_stage, scan_end};
use crate::layout::{
    be16, DHCP_FIXED_LEN, DHCP_SERVER_PORT, ETH_HDR_LEN, ETH_P_IP, IPPROTO_UDP, IP_HDR_LEN,
    OPTION_END, UDP_PAYLOAD_OFFSET,
};
use crate::options::{scan_from, scan_region, ScanConfig, ScanEnd};
use vstd::prelude::*;

verus! {

/// `h` is an Ethernet, IPv4 and UDP header and a fixed DHCP header, with
/// no options yet, of a UDP datagram from the DHCP server port.
pub open spec fn is_reply_prefix(h: Seq<u8>) -> bool {
    &&& h.len() == UDP_PAYLOAD_OFFSET + DHCP_FIXED_LEN
    &&& be16(h, 12) == ETH_P_IP
    &&& h[ETH_HDR_LEN + 9] == IPPROTO_UDP
    &&& be16(h, (ETH_HDR_LEN + IP_HDR_LEN) as int) == DHCP_SERVER_PORT
}

/// The DHCP message length that the UDP header within `h` declares.
pub open spec fn declared_length(h: Seq<u8>) -> int {
    udp_payload_length(udp_at(h, (ETH_HDR_LEN + IP_HDR_LEN) as int)->0)
}

/// `k` options of code `c`, each of length zero.
pub open spec fn empty_options(c: u8, k: nat) -> Seq<u8> {
    Seq::new(2 * k, |j: int| if j % 2 == 0 { c } else { 0u8 })
}

/// A frame that starts with a reply prefix is a server reply whose DHCP
/// header is decoded, with the length that the prefix declares.
proof fn lemma_reply_frame(h: Seq<u8>, tail: Seq<u8>)
    requires
        is_reply_prefix(h),
    ensures
        dhcp_stage(h + tail) is Some,
        dhcp_length(h + tail) == declared_length(h),
{
    let f = h + tail;
    assert(f.subrange(0, h.len() as int) =~= h);
    assert forall|i: int| 0 <= i < h.len() implies f[i] == h[i] by {}
    assert(be16(f, 12) == be16(h, 12));
    assert(f[ETH_HDR_LEN + 9] == h[ETH_HDR_LEN + 9]);
    assert(be16(f, 34) == be16(h, 34));
    assert(be16(f, 36) == be16(h, 36));
    assert(be16(f, 38) == be16(h, 38));
}

/// Round trip of the capture: in a server reply whose option region starts
/// with the target option, holding `value`, the inspection captures
/// `value`, zero-filled to the capture capacity where it is shorter and cut
/// to the capacity where it is longer.
pub proof fn lemma_option_round_trip(h: Seq<u8>, value: Seq<u8>, rest: Seq<u8>, cfg: ScanConfig)
    requires
        is_reply_prefix(h),
        declared_length(h) > DHCP_FIXED_LEN,
        value.len() <= 255,
        cfg.target_option != OPTION_END,
        cfg.max_iterations > 0,
    ensures
        ({
            let f = h + seq![cfg.target_option, value.len() as u8] + value + rest;
            &&& scan_end(f, cfg) == Some(ScanEnd::Captured)
            &&& value.len() <= cfg.capture_capacity ==> captured_option(f, cfg) == Some(
                value + Seq::new((cfg.capture_capacity - value.len()) as nat, |k: int| 0u8),
            )
            &&& value.len() > cfg.capture_capacity ==> captured_option(f, cfg) == Some(
                value.take(cfg.capture_capacity as int),
            )
        }),
{
    let opt = seq![cfg.target_option, value.len() as u8];
    let f = h + opt + value + rest;
    assert(f =~= h + (opt + value + rest));
    lemma_reply_frame(h, opt + value + rest);
    let at = UDP_PAYLOAD_OFFSET + DHCP_FIXED_LEN;
    assert(f[at] == cfg.target_option);
    assert(f[at + 1] == value.len() as u8);
    assert(scan_region(f, dhcp_length(f), cfg) == (ScanEnd::Captured, DHCP_FIXED_LEN as int, 0int));
    let cap = cfg.capture_capacity as int;
    if value.len() <= cap {
        assert(f.subrange(at + 2, at + 2 + value.len()) =~= value);
    } else {
        assert(f.subrange(at + 2, at + 2 + cap) =~= value.take(cap));
    }
}

/// Steps over the remaining options of length zero, up to the bound.
proof fn lemma_empty_options_from(f: Seq<u8>, plen: int, cfg: ScanConfig, c: u8, i: int)
    requires
        0 <= i <= cfg.max_iterations,
        plen > DHCP_FIXED_LEN + 2 * cfg.max_iterations,
        f.len() >= UDP_PAYLOAD_OFFSET + DHCP_FIXED_LEN + 2 * cfg.max_iterations,
        c != cfg.target_option,
        c != OPTION_END,
        forall|j: int|
            0 <= j < cfg.max_iterations ==> #[trigger] f[UDP_PAYLOAD_OFFSET + DHCP_FIXED_LEN + 2
                * j] == c && f[UDP_PAYLOAD_OFFSET + DHCP_FIXED_LEN + 2 * j + 1] == 0,
    ensures
        scan_from(f, plen, cfg, DHCP_FIXED_LEN + 2 * i, i) == (
            ScanEnd::IterationCap,
            DHCP_FIXED_LEN + 2 * cfg.max_iterations,
            cfg.max_iterations as int,
        ),
    decreases cfg.max_iterations - i,
{
    if i < cfg.max_iterations {
        assert(f[UDP_PAYLOAD_OFFSET + DHCP_FIXED_LEN + 2 * i] == c);
        lemma_empty_options_from(f, plen, cfg, c, i + 1);
        assert(DHCP_FIXED_LEN + 2 * i + 2 + 0 == DHCP_FIXED_LEN + 2 * (i + 1));
    }
}

/// The scan ends: an option region of more options of length zero than the
/// bound on iterations, none of them the target or the end code, stops at
/// the bound, with nothing captured.
pub proof fn lemma_iteration_cap(h: Seq<u8>, c: u8, k: nat, rest: Seq<u8>, cfg: ScanConfig)
    requires
        is_reply_prefix(h),
        declared_length(h) > DHCP_FIXED_LEN + 2 * cfg.max_iterations,
        k > cfg.max_iterations,
        c != cfg.target_option,
        c != OPTION_END,
    ensures
        scan_end(h + empty_options(c, k) + rest, cfg) == Some(ScanEnd::IterationCap),
        captured_option(h + empty_options(c, k) + rest, cfg) is None,
{
    let opts = empty_options(c, k);
    let f = h + opts + rest;
    assert(f =~= h + (opts + rest));
    lemma_reply_frame(h, opts + rest);
    let base = UDP_PAYLOAD_OFFSET + DHCP_FIXED_LEN;
    assert forall|j: int| 0 <= j < cfg.max_iterations implies #[trigger] f[base + 2 * j] == c
        && f[base + 2 * j + 1] == 0 by {
        assert((2 * j) % 2 == 0);
        assert((2 * j + 1) % 2 == 1);
        assert(f[base + 2 * j] == opts[2 * j]);
        assert(f[base + 2 * j + 1] == opts[2 * j + 1]);
    }
    lemma_empty_options_from(f, dhcp_length(f), cfg, c, 0);
}

/// An option region that begins with the end code stops the scan at its
/// first option, with nothing captured.
pub proof fn lemma_sentinel_first(h: Seq<u8>, rest: Seq<u8>, cfg: ScanConfig)
    requires
        is_reply_prefix(h),
        declared_length(h) > DHCP_FIXED_LEN,
        cfg.max_iterations > 0,
    ensures
        scan_region(h + seq![OPTION_END] + rest, dhcp_length(h + seq![OPTION_END] + rest), cfg)
            == (ScanEnd::Sentinel, DHCP_FIXED_LEN as int, 0int),
        scan_end(h + seq![OPTION_END] + rest, cfg) == Some(ScanEnd::Sentinel),
        captured_option(h + seq![OPTION_END] + rest, cfg) is None,
{
    let f = h + seq![OPTION_END] + rest;
    assert(f =~= h + (seq![OPTION_END] + rest));
    lemma_reply_frame(h, seq![OPTION_END] + rest);
    assert(f[UDP_PAYLOAD_OFFSET + DHCP_FIXED_LEN] == OPTION_END);
}

} // verus!
