use uefi::snp::{
    state_from_raw, InterruptStatus, IpAddress, MacAddress, NetworkMode, NetworkState,
    NetworkStats, Request, SimpleNetwork, STATS_TABLE_SIZE,
};
use uefi::status::{Error, Status};

const ERROR_BIT: usize = 1usize << (usize::BITS - 1);
const DEVICE_ERROR: Status = Status(ERROR_BIT | 7);

fn mac(first: [u8; 6]) -> MacAddress {
    let mut a = [0u8; 32];
    a[..6].copy_from_slice(&first);
    MacAddress(a)
}

#[test]
fn interrupt_bits_0101() {
    let s = InterruptStatus::from_bits(0b0101);
    assert!(s.receive_interrupt());
    assert!(!s.transmit_interrupt());
    assert!(s.command_interrupt());
    assert!(!s.software_interrupt());
}

#[test]
fn interrupt_bits_clear() {
    let s = InterruptStatus::new();
    assert_eq!(s.bits(), 0);
    assert!(!s.receive_interrupt());
    assert!(!s.transmit_interrupt());
    assert!(!s.command_interrupt());
    assert!(!s.software_interrupt());
    let t = InterruptStatus::from_bits(0b1010 | 0xF0);
    assert!(!t.receive_interrupt());
    assert!(t.transmit_interrupt());
    assert!(!t.command_interrupt());
    assert!(t.software_interrupt());
}

#[test]
fn stats_sentinel_means_unsupported() {
    let mut c = [0u64; 26];
    c[0] = u64::MAX;
    c[1] = 0;
    c[2] = 42;
    c[25] = u64::MAX - 1;
    let s = NetworkStats::from_counters(c);
    assert_eq!(s.rx_total_frames(), None);
    assert_eq!(s.rx_good_frames(), Some(0));
    assert_eq!(s.rx_undersize_frames(), Some(42));
    assert_eq!(s.tx_retry_frames(), Some(u64::MAX - 1));
    assert_eq!(s.to_counters(), c);
}

#[test]
fn stats_every_accessor_reads_its_counter() {
    let mut c = [0u64; 26];
    for (i, v) in c.iter_mut().enumerate() {
        *v = 100 + i as u64;
    }
    let s = NetworkStats::from_counters(c);
    let got = [
        s.rx_total_frames(), s.rx_good_frames(), s.rx_undersize_frames(), s.rx_oversize_frames(),
        s.rx_dropped_frames(), s.rx_unicast_frames(), s.rx_broadcast_frames(),
        s.rx_multicast_frames(), s.rx_crc_error_frames(), s.rx_total_bytes(),
        s.tx_total_frames(), s.tx_good_frames(), s.tx_undersize_frames(), s.tx_oversize_frames(),
        s.tx_dropped_frames(), s.tx_unicast_frames(), s.tx_broadcast_frames(),
        s.tx_multicast_frames(), s.tx_crc_error_frames(), s.tx_total_bytes(), s.collisions(),
        s.unsupported_protocol(), s.rx_duplicated_frames(), s.rx_decrypt_error_frames(),
        s.tx_error_frames(), s.tx_retry_frames(),
    ];
    for (i, g) in got.iter().enumerate() {
        assert_eq!(*g, Some(100 + i as u64));
    }
    let none = NetworkStats::from_counters([u64::MAX; 26]);
    assert_eq!(none.collisions(), None);
    assert_eq!(none.tx_total_bytes(), None);
}

#[test]
fn collect_statistics_error_is_not_data() {
    let net = SimpleNetwork::new(NetworkState::Initialized);
    let (req, table) = net.collect_statistics();
    assert!(matches!(req, Request::Statistics { reset: false, stats_size } if stats_size == STATS_TABLE_SIZE));
    assert_eq!(STATS_TABLE_SIZE, 208);
    assert_eq!(table.to_counters(), [0u64; 26]);
    assert!(matches!(
        net.complete_collect_statistics(DEVICE_ERROR, table),
        Err(Error::Firmware(s)) if s == DEVICE_ERROR
    ));
    let (_, table) = net.collect_statistics();
    let ok = net.complete_collect_statistics(Status(0), table).unwrap();
    assert_eq!(ok.rx_total_frames(), Some(0));
}

#[test]
fn reset_statistics_passes_no_table() {
    let net = SimpleNetwork::new(NetworkState::Initialized);
    assert!(matches!(net.reset_statistics(), Request::Statistics { reset: true, stats_size: 0 }));
}

#[test]
fn end_to_end_start_initialize_transmit_receive() {
    let mut net = SimpleNetwork::new(NetworkState::Stopped);
    let req = net.start();
    assert!(matches!(req, Request::Start));
    assert_eq!(net.complete(&req, Status(0)), Ok(()));
    assert_eq!(net.state(), NetworkState::Started);

    let req = net.initialize(None, None);
    assert!(matches!(
        req,
        Request::Initialize { extra_rx_buffer_size: 0, extra_tx_buffer_size: 0 }
    ));
    assert_eq!(net.complete(&req, Status(0)), Ok(()));
    assert_eq!(net.state(), NetworkState::Initialized);

    let payload = [0xABu8; 46];
    let req = net.transmit(14, &payload, None, None, None).unwrap();
    match &req {
        Request::Transmit { header_size, buffer_size, src_addr, dest_addr, protocol } => {
            assert_eq!(*header_size, 14);
            assert_eq!(*buffer_size, 60);
            assert!(src_addr.is_none() && dest_addr.is_none() && protocol.is_none());
        }
        _ => panic!("not a transmit request"),
    }
    assert_eq!(net.complete(&req, Status(0)), Ok(()));
    assert_eq!(net.state(), NetworkState::Initialized);

    let buffer = [0u8; 64];
    let req = net.receive(&buffer, false, false, false, false);
    assert!(matches!(req, Request::Receive { buffer_size: 64, .. }));
    let n = net.complete_receive(Status(0), 64, 60).unwrap();
    assert!(n <= 64);
    assert_eq!(n, 60);
}

#[test]
fn receive_error_and_overlong_length() {
    let net = SimpleNetwork::new(NetworkState::Initialized);
    let buffer_too_small = Status(ERROR_BIT | 5);
    assert_eq!(
        net.complete_receive(buffer_too_small, 64, 1514),
        Err(Error::Firmware(buffer_too_small))
    );
    assert_eq!(net.complete_receive(Status(0), 64, 65), Err(Error::BadLength));
    assert_eq!(net.complete_receive(Status(0), 64, 64), Ok(64));
}

#[test]
fn failed_call_keeps_state() {
    let mut net = SimpleNetwork::new(NetworkState::Stopped);
    let req = net.initialize(Some(4096), None);
    assert!(matches!(
        req,
        Request::Initialize { extra_rx_buffer_size: 4096, extra_tx_buffer_size: 0 }
    ));
    assert_eq!(net.complete(&req, DEVICE_ERROR), Err(Error::Firmware(DEVICE_ERROR)));
    assert_eq!(net.state(), NetworkState::Stopped);
}

#[test]
fn stop_shutdown_reset_states() {
    let mut net = SimpleNetwork::new(NetworkState::Initialized);
    let req = net.reset(true);
    assert!(matches!(req, Request::Reset { extended_verification: true }));
    net.complete(&req, Status(0)).unwrap();
    assert_eq!(net.state(), NetworkState::Initialized);
    let req = net.shutdown();
    net.complete(&req, Status(0)).unwrap();
    assert_eq!(net.state(), NetworkState::Stopped);
    let req = net.start();
    net.complete(&req, Status(0)).unwrap();
    let req = net.stop();
    net.complete(&req, Status(0)).unwrap();
    assert_eq!(net.state(), NetworkState::Stopped);
}

#[test]
fn transmit_size_overflow_is_rejected() {
    let net = SimpleNetwork::new(NetworkState::Initialized);
    let payload = [0u8; 2];
    assert!(matches!(
        net.transmit(usize::MAX - 1, &payload, None, None, None),
        Err(Error::InvalidArgument)
    ));
    let src = mac([2, 0, 0, 0, 0, 1]);
    let proto = 0x0800u16;
    let req = net.transmit(usize::MAX - 2, &payload, Some(&src), None, Some(&proto)).unwrap();
    match req {
        Request::Transmit { buffer_size, src_addr, protocol, .. } => {
            assert_eq!(buffer_size, usize::MAX);
            assert_eq!(src_addr, Some(src));
            assert_eq!(protocol, Some(0x0800));
        }
        _ => panic!("not a transmit request"),
    }
}

#[test]
fn receive_filters_checks_the_list() {
    let net = SimpleNetwork::new(NetworkState::Initialized);
    let list = [mac([1, 0, 0x5e, 0, 0, 1]), mac([1, 0, 0x5e, 0, 0, 2])];
    assert!(matches!(
        net.receive_filters(1, 0, false, Some(3), Some(&list)),
        Err(Error::InvalidArgument)
    ));
    assert!(matches!(net.receive_filters(1, 0, false, Some(2), None), Err(Error::InvalidArgument)));
    assert!(matches!(net.receive_filters(1, 0, false, None, Some(&list)), Err(Error::InvalidArgument)));
    let big = [mac([1, 0, 0x5e, 0, 0, 3]); 17];
    assert!(matches!(
        net.receive_filters(1, 0, false, Some(17), Some(&big)),
        Err(Error::InvalidArgument)
    ));
    match net.receive_filters(0x4, 0x8, true, Some(2), Some(&list)).unwrap() {
        Request::ReceiveFilters { enable, disable, reset_mcast_filter, mcast_filter_count, mcast_filter } => {
            assert_eq!((enable, disable, reset_mcast_filter, mcast_filter_count), (0x4, 0x8, true, 2));
            assert_eq!(mcast_filter.unwrap(), list.to_vec());
        }
        _ => panic!("not a receive filters request"),
    }
    match net.receive_filters(0x1, 0, false, None, None).unwrap() {
        Request::ReceiveFilters { mcast_filter_count, mcast_filter, .. } => {
            assert_eq!(mcast_filter_count, 0);
            assert!(mcast_filter.is_none());
        }
        _ => panic!("not a receive filters request"),
    }
}

#[test]
fn mcast_ip_to_mac_passes_firmware_answer() {
    let net = SimpleNetwork::new(NetworkState::Initialized);
    let mut ip = [0u8; 16];
    ip[..4].copy_from_slice(&[224, 0, 0, 251]);
    let req = net.mcast_ip_to_mac(false, IpAddress(ip));
    assert!(matches!(req, Request::McastIpToMac { ipv6: false, ip: IpAddress(a) } if a == ip));
    let answer = mac([0x01, 0x00, 0x5e, 0x00, 0x00, 0xfb]);
    let got = net.complete_mcast_ip_to_mac(Status(0), answer).unwrap();
    assert_eq!(&got.0[..3], &[0x01, 0x00, 0x5e]);
    assert_eq!(net.complete_mcast_ip_to_mac(DEVICE_ERROR, answer), Err(Error::Firmware(DEVICE_ERROR)));
}

#[test]
fn station_address_and_nv_data_requests() {
    let net = SimpleNetwork::new(NetworkState::Initialized);
    let a = mac([2, 1, 2, 3, 4, 5]);
    assert!(matches!(net.station_address(false, Some(&a)), Request::StationAddress { reset: false, new: Some(x) } if x == a));
    assert!(matches!(net.station_address(true, None), Request::StationAddress { reset: true, new: None }));
    let buf = [0u8; 12];
    assert!(matches!(net.read_nv_data(8, &buf), Request::NvData { read_write: true, offset: 8, buffer_size: 12 }));
    assert!(matches!(net.write_nv_data(4, &buf[..6]), Request::NvData { read_write: false, offset: 4, buffer_size: 6 }));
}

#[test]
fn get_status_requests_and_completions() {
    let net = SimpleNetwork::new(NetworkState::Initialized);
    assert!(matches!(net.get_interrupt_status(), Request::GetStatus { interrupt_status: true, tx_buf: false }));
    assert!(matches!(
        net.get_recycled_transmit_buffer_status(),
        Request::GetStatus { interrupt_status: false, tx_buf: true }
    ));
    let s = net.complete_get_interrupt_status(Status(0), 0b0010).unwrap();
    assert!(s.transmit_interrupt() && !s.receive_interrupt());
    assert!(net.complete_get_interrupt_status(DEVICE_ERROR, 1).is_err());
    assert_eq!(net.complete_get_recycled_transmit_buffer_status(Status(0), 0), Ok(None));
    assert_eq!(net.complete_get_recycled_transmit_buffer_status(Status(0), 0x8000), Ok(Some(0x8000)));
    assert_eq!(
        net.complete_get_recycled_transmit_buffer_status(DEVICE_ERROR, 0x8000),
        Err(Error::Firmware(DEVICE_ERROR))
    );
}

#[test]
fn mode_snapshot() {
    let mut filters = [mac([0; 6]); 16];
    filters[0] = mac([1, 0, 0x5e, 0, 0, 1]);
    filters[1] = mac([1, 0, 0x5e, 0, 0, 2]);
    let mut mode = NetworkMode {
        state: 2,
        hw_address_size: 6,
        media_header_size: 14,
        max_packet_size: 1500,
        nv_ram_size: 0,
        nv_ram_access_size: 0,
        receive_filter_mask: 0x1f,
        receive_filter_setting: 0x3,
        max_mcast_filter_count: 16,
        mcast_filter_count: 2,
        mcast_filter: filters,
        current_address: mac([2, 0, 0, 0, 0, 1]),
        broadcast_address: mac([0xff; 6]),
        permanent_address: mac([2, 0, 0, 0, 0, 1]),
        if_type: 1,
        mac_address_changeable: true,
        multiple_tx_supported: false,
        media_present_supported: true,
        media_present: true,
    };
    assert!(mode.is_consistent());
    assert_eq!(mode.network_state(), Some(NetworkState::Initialized));
    assert_eq!(mode.active_mcast_filters().unwrap(), filters[..2].to_vec());
    mode.mcast_filter_count = 17;
    assert!(!mode.is_consistent());
    assert!(mode.active_mcast_filters().is_none());
    assert_eq!(state_from_raw(0), Some(NetworkState::Stopped));
    assert_eq!(state_from_raw(1), Some(NetworkState::Started));
    assert_eq!(state_from_raw(4), None);
}
