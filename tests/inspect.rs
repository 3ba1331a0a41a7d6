use dhcp_ebpf::{
    inspect, BoundedView, DhcpPacket, EthernetHeader, ScanConfig, ScanEnd, UdpHeader, Verdict,
    DEFAULT_CAPTURE_CAPACITY, DEFAULT_MAX_ITERATIONS, HOSTNAME_OPTION, UDP_PAYLOAD_OFFSET,
};

const DST_MAC: [u8; 6] = [0xAA, 0xBB, 0xCC, 0xDD, 0xEE, 0xFF];
const SRC_MAC: [u8; 6] = [0x11, 0x22, 0x33, 0x44, 0x55, 0x66];

/// Ethernet + IPv4 + UDP + fixed DHCP header, with the given ethertype, IP
/// protocol, ports and UDP length, followed by `options`.
fn frame_with(ethertype: u16, protocol: u8, src: u16, dst: u16, udp_len: u16, options: &[u8]) -> Vec<u8> {
    let mut f = Vec::new();
    f.extend_from_slice(&DST_MAC);
    f.extend_from_slice(&SRC_MAC);
    f.extend_from_slice(&ethertype.to_be_bytes());
    let mut ip = [0u8; 20];
    ip[0] = 0x45;
    ip[9] = protocol;
    f.extend_from_slice(&ip);
    f.extend_from_slice(&src.to_be_bytes());
    f.extend_from_slice(&dst.to_be_bytes());
    f.extend_from_slice(&udp_len.to_be_bytes());
    f.extend_from_slice(&[0, 0]);
    let mut dhcp = [0u8; 240];
    dhcp[0] = 2;
    dhcp[1] = 1;
    dhcp[2] = 6;
    dhcp[3] = 0;
    dhcp[4..8].copy_from_slice(&0x3903_F326u32.to_be_bytes());
    dhcp[8..10].copy_from_slice(&5u16.to_be_bytes());
    dhcp[10..12].copy_from_slice(&0x8000u16.to_be_bytes());
    dhcp[12..16].copy_from_slice(&[0, 0, 0, 0]);
    dhcp[16..20].copy_from_slice(&[192, 168, 1, 100]);
    dhcp[20..24].copy_from_slice(&[192, 168, 1, 1]);
    dhcp[24..28].copy_from_slice(&[10, 0, 0, 1]);
    dhcp[28..34].copy_from_slice(&[0x00, 0x0C, 0x29, 0x3E, 0x53, 0xF7]);
    dhcp[236..240].copy_from_slice(&[0x63, 0x82, 0x53, 0x63]);
    f.extend_from_slice(&dhcp);
    f.extend_from_slice(options);
    f
}

/// A server reply whose UDP length covers exactly the fixed header and
/// `options`.
fn reply(options: &[u8]) -> Vec<u8> {
    frame_with(0x0800, 17, 67, 68, (8 + 240 + options.len()) as u16, options)
}

fn captured(frame: &[u8], cfg: &ScanConfig) -> Option<Vec<u8>> {
    let r = inspect(frame, cfg);
    r.scan.and_then(|s| s.captured).map(|c| c.value)
}

#[test]
fn concrete_hostname_reply() {
    let options = [12, 4, 0x68, 0x6f, 0x73, 0x74, 255];
    let frame = frame_with(0x0800, 17, 67, 68, 8 + 240 + 6, &options);
    let cfg = ScanConfig::hostname();
    let r = inspect(&frame, &cfg);
    assert_eq!(r.verdict, Verdict::Continue);
    assert_eq!(r.verdict.action_code(), 2);
    let eth = r.ethernet.unwrap();
    assert_eq!(eth.source, 0x112233445566);
    assert_eq!(eth.destination, 0xAABBCCDDEEFF);
    assert_eq!(eth.ethertype, 0x0800);
    let udp = r.udp.unwrap();
    assert_eq!(udp.source_port, 67);
    assert_eq!(udp.destination_port, 68);
    assert_eq!(udp.length, 254);
    assert_eq!(r.dhcp.unwrap().operation_type, 2);
    let scan = r.scan.unwrap();
    assert_eq!(scan.end, ScanEnd::Captured);
    let c = scan.captured.unwrap();
    assert_eq!(c.code, 12);
    assert_eq!(c.declared_length, 4);
    let mut expected = vec![0x68, 0x6f, 0x73, 0x74];
    expected.resize(20, 0);
    assert_eq!(c.value, expected);
}

#[test]
fn fixed_header_fields_are_decoded() {
    let frame = reply(&[255]);
    let d = inspect(&frame, &ScanConfig::hostname()).dhcp.unwrap();
    assert_eq!(
        d,
        DhcpPacket {
            operation_type: 2,
            hardware_type: 1,
            hardware_address_length: 6,
            hops: 0,
            transaction_id: 0x3903_F326,
            seconds_elapsed: 5,
            flags: 0x8000,
            client_address: 0,
            your_address: 0xC0A8_0164,
            next_server_address: 0xC0A8_0101,
            relay_agent_address: 0x0A00_0001,
            client_hardware_address: 0x000C_293E_53F7,
            magic_cookie: 0x6382_5363,
        }
    );
}

#[test]
fn view_refuses_reads_past_the_end() {
    let bytes = [1u8, 2, 3, 4, 5, 6, 7];
    let v = BoundedView::new(&bytes);
    assert_eq!(v.len(), 7);
    assert_eq!(v.read_u8(6), Some(7));
    assert_eq!(v.read_u8(7), None);
    assert_eq!(v.read_be16(5), Some(0x0607));
    assert_eq!(v.read_be16(6), None);
    assert_eq!(v.read_be32(3), Some(0x0405_0607));
    assert_eq!(v.read_be32(4), None);
    assert_eq!(v.read_be48(1), Some(0x0203_0405_0607));
    assert_eq!(v.read_be48(2), None);
    assert_eq!(v.read_bytes(2, 5), Some(vec![3, 4, 5, 6, 7]));
    assert_eq!(v.read_bytes(2, 6), None);
    assert_eq!(v.read_bytes(7, 0), Some(vec![]));
    assert_eq!(v.read_bytes(8, 0), None);
    assert_eq!(v.read_u8(usize::MAX), None);
    assert_eq!(v.read_bytes(1, usize::MAX), None);
    assert!(!v.fits(usize::MAX, 2));
}

#[test]
fn view_of_empty_frame_reads_nothing() {
    let v = BoundedView::new(&[]);
    assert_eq!(v.len(), 0);
    assert_eq!(v.read_u8(0), None);
    assert_eq!(v.read_be16(0), None);
    assert_eq!(v.read_bytes(0, 0), Some(vec![]));
}

#[test]
fn truncated_frames_at_every_cut_point() {
    let frame = reply(&[12, 4, 0x68, 0x6f, 0x73, 0x74, 255]);
    let cfg = ScanConfig::hostname();
    for cut in 0..=frame.len() {
        let r = inspect(&frame[..cut], &cfg);
        assert_eq!(r.verdict, Verdict::Continue);
        assert_eq!(r.ethernet.is_some(), cut >= 14);
        assert_eq!(r.ipv4.is_some(), cut >= 34);
        assert_eq!(r.udp.is_some(), cut >= 42);
        assert_eq!(r.dhcp.is_some(), cut >= 282);
        let got = r.scan.as_ref().and_then(|s| s.captured.as_ref()).is_some();
        assert_eq!(got, cut >= 288, "cut {}", cut);
        if cut >= 282 && cut < 288 {
            assert_eq!(r.scan.unwrap().end, ScanEnd::OutOfBounds);
        }
    }
}

#[test]
fn non_ipv4_stops_after_ethernet() {
    let frame = frame_with(0x86DD, 17, 67, 68, 254, &[12, 4, 1, 2, 3, 4, 255]);
    let r = inspect(&frame, &ScanConfig::hostname());
    assert_eq!(r.verdict, Verdict::Continue);
    assert_eq!(r.ethernet.unwrap().ethertype, 0x86DD);
    assert!(r.ipv4.is_none());
    assert!(r.udp.is_none());
    assert!(r.dhcp.is_none());
    assert!(r.scan.is_none());
}

#[test]
fn non_udp_stops_after_ipv4() {
    let frame = frame_with(0x0800, 6, 67, 68, 254, &[12, 4, 1, 2, 3, 4, 255]);
    let r = inspect(&frame, &ScanConfig::hostname());
    assert_eq!(r.verdict, Verdict::Continue);
    assert_eq!(r.ipv4.unwrap().protocol, 6);
    assert!(r.udp.is_none());
    assert!(r.dhcp.is_none());
    assert!(r.scan.is_none());
}

#[test]
fn client_request_stops_after_udp() {
    let frame = frame_with(0x0800, 17, 68, 67, 254, &[12, 4, 1, 2, 3, 4, 255]);
    let r = inspect(&frame, &ScanConfig::hostname());
    assert_eq!(r.verdict, Verdict::Continue);
    assert_eq!(
        r.udp,
        Some(UdpHeader { source_port: 68, destination_port: 67, length: 254 })
    );
    assert!(r.dhcp.is_none());
    assert!(r.scan.is_none());
}

#[test]
fn short_frame_decodes_nothing() {
    let r = inspect(&[0u8; 13], &ScanConfig::hostname());
    assert_eq!(r.verdict, Verdict::Continue);
    assert!(r.ethernet.is_none());
    let r = inspect(&[], &ScanConfig::hostname());
    assert!(r.ethernet.is_none());
}

#[test]
fn option_round_trip_for_every_length_up_to_capacity() {
    let cfg = ScanConfig::hostname();
    for len in 0..=20u8 {
        let value: Vec<u8> = (0..len).map(|i| 0x41 + i).collect();
        let mut options = vec![12, len];
        options.extend_from_slice(&value);
        let got = captured(&reply(&options), &cfg).unwrap();
        let mut expected = value.clone();
        expected.resize(20, 0);
        assert_eq!(got, expected, "length {}", len);
    }
}

#[test]
fn oversized_option_is_truncated() {
    let cfg = ScanConfig::hostname();
    let value: Vec<u8> = (1..=30u8).collect();
    let mut options = vec![12, 30];
    options.extend_from_slice(&value);
    let got = captured(&reply(&options), &cfg).unwrap();
    assert_eq!(got, value[..20].to_vec());
}

#[test]
fn oversized_option_cut_short_by_the_frame_is_still_captured() {
    let cfg = ScanConfig::hostname();
    let value: Vec<u8> = (1..=20u8).collect();
    let mut options = vec![12, 200];
    options.extend_from_slice(&value);
    let frame = frame_with(0x0800, 17, 67, 68, 8 + 240 + 202, &options);
    assert_eq!(captured(&frame, &cfg).unwrap(), value);
}

#[test]
fn option_value_running_past_the_frame_is_not_read() {
    let cfg = ScanConfig::hostname();
    let options = [12, 10, 1, 2, 3];
    let frame = frame_with(0x0800, 17, 67, 68, 8 + 240 + 12, &options);
    let r = inspect(&frame, &cfg);
    let scan = r.scan.unwrap();
    assert_eq!(scan.end, ScanEnd::OutOfBounds);
    assert!(scan.captured.is_none());
}

#[test]
fn many_empty_options_stop_at_the_iteration_cap() {
    let cfg = ScanConfig::hostname();
    let mut options = Vec::new();
    for _ in 0..100 {
        options.extend_from_slice(&[3, 0]);
    }
    options.extend_from_slice(&[12, 1, 9]);
    let frame = reply(&options);
    let scan = inspect(&frame, &cfg).scan.unwrap();
    assert_eq!(scan.end, ScanEnd::IterationCap);
    assert_eq!(scan.iterations, DEFAULT_MAX_ITERATIONS);
    assert_eq!(scan.offset, 240 + 2 * DEFAULT_MAX_ITERATIONS);
    assert!(scan.captured.is_none());
}

#[test]
fn sentinel_first_ends_the_scan() {
    let frame = reply(&[255, 12, 4, 1, 2, 3, 4]);
    let scan = inspect(&frame, &ScanConfig::hostname()).scan.unwrap();
    assert_eq!(scan.end, ScanEnd::Sentinel);
    assert_eq!(scan.iterations, 0);
    assert_eq!(scan.offset, 240);
    assert!(scan.captured.is_none());
}

#[test]
fn other_options_are_stepped_over() {
    let frame = reply(&[53, 1, 5, 54, 4, 192, 168, 1, 1, 12, 2, 0x61, 0x62, 255]);
    let scan = inspect(&frame, &ScanConfig::hostname()).scan.unwrap();
    assert_eq!(scan.end, ScanEnd::Captured);
    assert_eq!(scan.iterations, 2);
    assert_eq!(scan.offset, 240 + 3 + 6);
    let mut expected = vec![0x61, 0x62];
    expected.resize(20, 0);
    assert_eq!(scan.captured.unwrap().value, expected);
}

#[test]
fn only_the_first_occurrence_is_captured() {
    let frame = reply(&[12, 1, 0x61, 12, 1, 0x62, 255]);
    let got = captured(&frame, &ScanConfig::hostname()).unwrap();
    assert_eq!(got[0], 0x61);
}

#[test]
fn target_option_code_is_configurable() {
    let frame = reply(&[12, 2, 0x61, 0x62, 15, 3, 0x6c, 0x61, 0x6e, 255]);
    let by_domain = captured(&frame, &ScanConfig::for_option(15)).unwrap();
    let mut expected = vec![0x6c, 0x61, 0x6e];
    expected.resize(20, 0);
    assert_eq!(by_domain, expected);
    let scan = inspect(&frame, &ScanConfig::for_option(15)).scan.unwrap();
    assert_eq!(scan.iterations, 1);
    let absent = inspect(&frame, &ScanConfig::for_option(81)).scan.unwrap();
    assert_eq!(absent.end, ScanEnd::Sentinel);
    assert!(absent.captured.is_none());
}

#[test]
fn capacity_and_iteration_bound_are_configurable() {
    let frame = reply(&[3, 0, 3, 0, 12, 3, 1, 2, 3, 255]);
    let small = ScanConfig::new(HOSTNAME_OPTION, 2, 70);
    assert_eq!(captured(&frame, &small).unwrap(), vec![1, 2]);
    let none = ScanConfig::new(HOSTNAME_OPTION, 0, 70);
    assert_eq!(captured(&frame, &none).unwrap(), Vec::<u8>::new());
    let tight = ScanConfig::new(HOSTNAME_OPTION, 20, 2);
    let scan = inspect(&frame, &tight).scan.unwrap();
    assert_eq!(scan.end, ScanEnd::IterationCap);
    assert_eq!(scan.iterations, 2);
    let zero = ScanConfig::new(HOSTNAME_OPTION, 20, 0);
    assert_eq!(inspect(&frame, &zero).scan.unwrap().end, ScanEnd::IterationCap);
}

#[test]
fn scan_stays_within_the_declared_payload() {
    let options = [12, 4, 0x68, 0x6f, 0x73, 0x74, 255];
    let frame = frame_with(0x0800, 17, 67, 68, 8 + 240, &options);
    let scan = inspect(&frame, &ScanConfig::hostname()).scan.unwrap();
    assert_eq!(scan.end, ScanEnd::RegionExhausted);
    assert!(scan.captured.is_none());
    let frame = frame_with(0x0800, 17, 67, 68, 3, &options);
    let scan = inspect(&frame, &ScanConfig::hostname()).scan.unwrap();
    assert_eq!(scan.end, ScanEnd::RegionExhausted);
    assert_eq!(scan.offset, 240);
}

#[test]
fn udp_payload_length_saturates() {
    let h = UdpHeader { source_port: 67, destination_port: 68, length: 254 };
    assert_eq!(h.payload_length(), 246);
    let h = UdpHeader { source_port: 67, destination_port: 68, length: 5 };
    assert_eq!(h.payload_length(), 0);
}

#[test]
fn header_decoders_respect_offsets() {
    let frame = reply(&[255]);
    let v = BoundedView::new(&frame);
    let eth = EthernetHeader::read(&v, 0).unwrap();
    assert_eq!(eth.destination, 0xAABBCCDDEEFF);
    assert!(EthernetHeader::read(&v, frame.len() - 13).is_none());
    assert!(DhcpPacket::read(&v, UDP_PAYLOAD_OFFSET).is_some());
    assert!(DhcpPacket::read(&v, UDP_PAYLOAD_OFFSET + 2).is_none());
}

#[test]
fn verdict_action_codes() {
    assert_eq!(Verdict::Continue.action_code(), 2);
    assert_eq!(Verdict::Drop.action_code(), 1);
    assert_eq!(Verdict::Error.action_code(), 0);
}

#[test]
fn default_configuration() {
    let cfg = ScanConfig::hostname();
    assert_eq!(cfg.target_option, 12);
    assert_eq!(cfg.capture_capacity, DEFAULT_CAPTURE_CAPACITY);
    assert_eq!(cfg.capture_capacity, 20);
    assert_eq!(cfg.max_iterations, 70);
}
