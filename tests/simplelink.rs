use cc3200::controller::{configure_default_start, configure_default_step, ReconcileAction,
                         ReconcileError, ReconcileEvent, ReconcileState};
use cc3200::error::{EnumKind, OsiError, SimpleLinkError, WlanError};
use cc3200::events::{DeviceEventReport, NetAppEventReport, SlDeviceEvent, SlNetAppEvent,
                     SlSockEvent, SlWlanConnectInfo, SlWlanEvent, SockEventReport,
                     WlanEventReport};
use cc3200::simplelink::{check_fs, poll_step, PingOutcome, PollStep, SimpleLink};
use cc3200::error::FileSystemError;
use cc3200::types::{SlPingReport, SlVersionFull, WlanMode};

fn ssid_buf(name: &[u8]) -> [u8; 32] {
    let mut b = [0u8; 32];
    b[..name.len()].copy_from_slice(name);
    b
}

fn wlan_event(event_type: i32, ssid: &[u8], bssid: [u8; 6], reason_code: u8) -> SlWlanEvent {
    SlWlanEvent {
        event_type,
        info: SlWlanConnectInfo {
            ssid_len: ssid.len() as u8,
            ssid_name: ssid_buf(ssid),
            bssid,
            reason_code,
        },
    }
}

fn ping_report(packets_rcvd: u32) -> SlPingReport {
    SlPingReport {
        packets_sent: 5,
        packets_rcvd,
        min_round_time: 1,
        max_round_time: 3,
        avg_round_time: 2,
        test_time: 100,
    }
}

#[test]
fn ping_round_trip() {
    let mut sl = SimpleLink::new();
    sl.clear_ping_done();
    assert!(!sl.is_ping_done());
    assert_eq!(sl.ping_outcome(), None);
    sl.on_ping_report(&ping_report(5));
    assert!(sl.is_ping_done());
    assert_eq!(sl.ping_packets_received(), 5);
    assert_eq!(sl.ping_outcome(), Some(PingOutcome::Received(5)));
    sl.clear_ping_done();
    assert!(!sl.is_ping_done());
    assert_eq!(sl.ping_packets_received(), 5);
}

#[test]
fn ping_with_no_answer_fails() {
    let mut sl = SimpleLink::new();
    sl.on_ping_report(&ping_report(0));
    assert_eq!(sl.ping_outcome(), Some(PingOutcome::Failed));
}

#[test]
fn connect_publishes_ssid_and_bssid_with_the_flag() {
    let mut sl = SimpleLink::new();
    let bssid = [1, 2, 3, 4, 5, 6];
    let report = sl.on_wlan_event(&wlan_event(1, b"home-net", bssid, 0));
    assert!(matches!(report, WlanEventReport::Connected));
    assert!(sl.is_connected());
    assert!(!sl.is_ip_acquired());
    assert_eq!(sl.connection_ssid(), b"home-net".to_vec());
    assert_eq!(sl.connection_bssid(), bssid);
}

#[test]
fn overlong_ssid_length_is_cut_to_the_buffer() {
    let mut sl = SimpleLink::new();
    let mut ev = wlan_event(1, b"x", [0; 6], 0);
    ev.info.ssid_len = 200;
    sl.on_wlan_event(&ev);
    assert_eq!(sl.connection_ssid().len(), 32);
}

#[test]
fn ip_lease_then_disconnect() {
    let mut sl = SimpleLink::new();
    sl.on_wlan_event(&wlan_event(1, b"cafe", [9; 6], 0));
    let r = sl.on_netapp_event(&SlNetAppEvent { event: 1, ip: 0x0a000002, gateway: 0x0a000001 });
    assert_eq!(r, NetAppEventReport::IpAcquired { ip: 0x0a000002, gateway: 0x0a000001 });
    assert!(sl.is_ip_acquired());
    assert_eq!(sl.gateway_ip(), 0x0a000001);

    let r = sl.on_wlan_event(&wlan_event(2, b"cafe", [9; 6], 200));
    match r {
        WlanEventReport::Disconnected { user_initiated, ssid, bssid } => {
            assert!(user_initiated);
            assert_eq!(ssid, b"cafe".to_vec());
            assert_eq!(bssid, [9; 6]);
        }
        _ => panic!("expected a disconnect report"),
    }
    assert!(!sl.is_connected());
    assert!(!sl.is_ip_acquired());
    assert!(sl.connection_ssid().is_empty());
    assert_eq!(sl.connection_bssid(), [0; 6]);
    assert_eq!(sl.gateway_ip(), 0x0a000001);
}

#[test]
fn disconnect_on_error() {
    let mut sl = SimpleLink::new();
    sl.on_wlan_event(&wlan_event(1, b"cafe", [9; 6], 0));
    match sl.on_wlan_event(&wlan_event(2, b"", [0; 6], 7)) {
        WlanEventReport::Disconnected { user_initiated, .. } => assert!(!user_initiated),
        _ => panic!("expected a disconnect report"),
    }
}

#[test]
fn unknown_events_change_nothing() {
    let mut sl = SimpleLink::new();
    sl.on_wlan_event(&wlan_event(1, b"cafe", [9; 6], 0));
    let r = sl.on_wlan_event(&wlan_event(77, b"other", [1; 6], 0));
    assert!(matches!(r, WlanEventReport::Unexpected(77)));
    assert_eq!(sl.connection_ssid(), b"cafe".to_vec());
    assert!(sl.is_connected());
    let r = sl.on_netapp_event(&SlNetAppEvent { event: 3, ip: 1, gateway: 2 });
    assert_eq!(r, NetAppEventReport::Unexpected(3));
    assert!(!sl.is_ip_acquired());
    assert_eq!(sl.gateway_ip(), 0);
}

#[test]
fn reset_twice_gives_the_cleared_state() {
    let mut sl = SimpleLink::new();
    sl.on_wlan_event(&wlan_event(1, b"cafe", [9; 6], 0));
    sl.on_netapp_event(&SlNetAppEvent { event: 1, ip: 1, gateway: 2 });
    sl.on_ping_report(&ping_report(3));
    for _ in 0..2 {
        sl.init_app_variables();
        assert!(!sl.is_connected());
        assert!(!sl.is_ip_acquired());
        assert!(!sl.is_ping_done());
        assert_eq!(sl.gateway_ip(), 0);
        assert_eq!(sl.ping_packets_received(), 0);
        assert!(sl.connection_ssid().is_empty());
        assert_eq!(sl.connection_bssid(), [0; 6]);
    }
}

#[test]
fn device_and_socket_reports() {
    let dev = |n: i32| SlDeviceEvent { event_num: n, status: -3, sender: 4, abort_type: 5, abort_data: 6, info: 7 };
    assert_eq!(SimpleLink::on_device_event(&dev(1)), DeviceEventReport::General { status: -3, sender: 4 });
    assert_eq!(SimpleLink::on_device_event(&dev(2)), DeviceEventReport::Abort { abort_type: 5, abort_data: 6 });
    assert_eq!(SimpleLink::on_device_event(&dev(4)), DeviceEventReport::DriverError { event_num: 4, info: 7 });
    assert_eq!(SimpleLink::on_device_event(&dev(99)), DeviceEventReport::Unknown(99));

    let sock = |n: i32, status: i16| SlSockEvent { event_num: n, sd: 3, status };
    assert_eq!(SimpleLink::on_socket_event(&sock(1, -15)), SockEventReport::CloseFailed { sd: 3 });
    assert_eq!(SimpleLink::on_socket_event(&sock(1, -11)), SockEventReport::TxFailed { sd: 3, status: -11 });
    assert_eq!(SimpleLink::on_socket_event(&sock(2, 0)), SockEventReport::Async);
    assert_eq!(SimpleLink::on_socket_event(&sock(0x55, 0)), SockEventReport::Unexpected(0x55));
}

#[test]
fn start_decodes_mode_or_error() {
    assert_eq!(SimpleLink::start(0), Ok(WlanMode::ROLE_STA));
    assert_eq!(SimpleLink::start(2), Ok(WlanMode::ROLE_AP));
    assert_eq!(SimpleLink::stop(3), Ok(WlanMode::ROLE_P2P));
    assert_eq!(SimpleLink::start(9), Err(SimpleLinkError::ValueError(EnumKind::WlanMode, 9)));
    assert_eq!(SimpleLink::wlan_set_mode(-71), Err(SimpleLinkError::Wlan(WlanError::INVALID_ROLE)));
    assert_eq!(SimpleLink::start(-4), Err(SimpleLinkError::ValueError(EnumKind::WlanError, -4)));
}

#[test]
fn unit_calls_and_lookups() {
    assert_eq!(SimpleLink::wlan_disconnect(-129), Err(SimpleLinkError::Wlan(WlanError::WIFI_ALREADY_DISCONNECTED)));
    assert_eq!(SimpleLink::wlan_connect(0), Ok(()));
    assert_eq!(SimpleLink::wlan_set(5), Ok(()));
    assert_eq!(SimpleLink::wlan_set_policy(-97), Err(SimpleLinkError::Wlan(WlanError::INVALID_POLICY_TYPE)));
    assert_eq!(SimpleLink::wlan_delete_profile(0), Ok(()));
    assert_eq!(SimpleLink::wlan_rx_filter(-1), Err(SimpleLinkError::Wlan(WlanError::ROLE_STA_ERR)));
    assert_eq!(SimpleLink::netapp_ping_start(0), Ok(()));
    assert_eq!(SimpleLink::netapp_mdns_unregister_service(-91), Err(SimpleLinkError::Wlan(WlanError::SSID_LEN_ERROR)));
    assert_eq!(SimpleLink::netcfg_set(0), Ok(()));
    assert_eq!(SimpleLink::netapp_get_host_by_name(0, 0x01020304), Ok(0x01020304));
    assert_eq!(SimpleLink::netapp_get_host_by_name(-59, 7), Err(SimpleLinkError::Wlan(WlanError::WIFI_NOT_CONNECTED)));
    assert_eq!(SimpleLink::netcfg_get(0, 4, 6), Ok(4));
    assert_eq!(SimpleLink::netcfg_get(0, 40, 6), Ok(6));
    assert_eq!(SimpleLink::netcfg_get_mac_addr(0, [1, 2, 3, 4, 5, 6]), Ok([1, 2, 3, 4, 5, 6]));
    assert_eq!(SimpleLink::start_spawn_task(-6), Err(SimpleLinkError::Osi(OsiError::OSI_TIMEOUT)));
    assert_eq!(SimpleLink::start_spawn_task(0), Ok(()));
    assert_eq!(check_fs(-11), Err(SimpleLinkError::FileSystem(FileSystemError::FILE_NOT_EXISTS)));
    assert_eq!(check_fs(-100), Err(SimpleLinkError::ValueError(EnumKind::FileSystemError, -100)));
    assert_eq!(check_fs(12), Ok(12));
}

#[test]
fn unique_id_from_mac() {
    assert_eq!(SimpleLink::unique_id(Some([0x00, 0x1a, 0x2b, 0x3c, 0x4d, 0x5e])), 0x001a2b3c4d5e);
    assert_eq!(SimpleLink::unique_id(Some([0xff; 6])), 0xffffffffffff);
    assert_eq!(SimpleLink::unique_id(None), 0);
}

#[test]
fn polling_bound() {
    assert_eq!(poll_step(true, 100, Some(3)), PollStep::Done);
    assert_eq!(poll_step(false, 2, Some(3)), PollStep::Wait);
    assert_eq!(poll_step(false, 3, Some(3)), PollStep::GiveUp);
    assert_eq!(poll_step(false, u32::MAX, None), PollStep::Wait);
}

#[test]
fn station_boot_needs_nothing_more() {
    let (s, a) = configure_default_start();
    assert_eq!(a, ReconcileAction::Start);
    let (s, a) = configure_default_step(s, ReconcileEvent::Started(Ok(WlanMode::ROLE_STA)), None);
    assert_eq!(s, ReconcileState::Finished(Ok(())));
    assert_eq!(a, ReconcileAction::Done(Ok(())));
}

#[test]
fn access_point_boot_waits_for_ip_then_restarts() {
    let (s, _) = configure_default_start();
    let (s, a) = configure_default_step(s, ReconcileEvent::Started(Ok(WlanMode::ROLE_AP)), None);
    assert_eq!(a, ReconcileAction::PollIpAcquired);
    let (s, a) = configure_default_step(s, ReconcileEvent::IpAcquired(false), None);
    assert_eq!(s, ReconcileState::WaitingForIp(1));
    assert_eq!(a, ReconcileAction::PollIpAcquired);
    let (s, a) = configure_default_step(s, ReconcileEvent::IpAcquired(true), None);
    assert_eq!(a, ReconcileAction::SetStationMode);
    let (s, a) = configure_default_step(s, ReconcileEvent::ModeSet(Ok(WlanMode::ROLE_STA)), None);
    assert_eq!(a, ReconcileAction::Stop);
    let (s, a) = configure_default_step(s, ReconcileEvent::Stopped(Ok(WlanMode::ROLE_AP)), None);
    assert_eq!(a, ReconcileAction::Start);
    let (_, a) = configure_default_step(s, ReconcileEvent::Started(Ok(WlanMode::ROLE_STA)), None);
    assert_eq!(a, ReconcileAction::Done(Ok(())));
}

#[test]
fn restart_in_wrong_mode_or_vendor_failure() {
    let (s, a) = configure_default_step(ReconcileState::Restarting, ReconcileEvent::Started(Ok(WlanMode::ROLE_P2P)), None);
    assert_eq!(a, ReconcileAction::Done(Err(ReconcileError::NotInStationMode)));
    assert_eq!(s, ReconcileState::Finished(Err(ReconcileError::NotInStationMode)));
    let e = SimpleLinkError::Wlan(WlanError::INVALID_ROLE);
    let (_, a) = configure_default_step(ReconcileState::SwitchingMode, ReconcileEvent::ModeSet(Err(e)), None);
    assert_eq!(a, ReconcileAction::Done(Err(ReconcileError::Vendor(e))));
    // An unknown mode skips the wait for an IP lease.
    let (_, a) = configure_default_step(ReconcileState::Starting, ReconcileEvent::Started(Ok(WlanMode::ROLE_UNKNOWN)), None);
    assert_eq!(a, ReconcileAction::SetStationMode);
    // An event that does not answer the pending action asks for it again.
    let (s, a) = configure_default_step(ReconcileState::Stopping, ReconcileEvent::IpAcquired(true), None);
    assert_eq!((s, a), (ReconcileState::Stopping, ReconcileAction::Stop));
}

fn wlan_record(tag: u32, ssid: &[u8], bssid: [u8; 6], reason: u8) -> Vec<u8> {
    let mut b = vec![0u8; 80];
    b[0..4].copy_from_slice(&tag.to_le_bytes());
    b[5] = ssid.len() as u8;
    b[6..6 + ssid.len()].copy_from_slice(ssid);
    b[71..77].copy_from_slice(&bssid);
    b[77] = reason;
    b
}

#[test]
fn events_decoded_from_driver_records() {
    let rec = wlan_record(1, b"lab", [0xaa, 0xbb, 0xcc, 0xdd, 0xee, 0xff], 0);
    let ev = SlWlanEvent::from_bytes(&rec).unwrap();
    assert_eq!(ev.event_type, 1);
    assert_eq!(ev.info.ssid_len, 3);
    assert_eq!(&ev.info.ssid_name[..3], b"lab");
    assert_eq!(ev.info.bssid, [0xaa, 0xbb, 0xcc, 0xdd, 0xee, 0xff]);
    let mut sl = SimpleLink::new();
    sl.on_wlan_event(&ev);
    assert_eq!(sl.connection_ssid(), b"lab".to_vec());

    let rec = wlan_record(0xffff_fffe, b"", [0; 6], 200);
    assert_eq!(SlWlanEvent::from_bytes(&rec).unwrap().event_type, -2);
    assert_eq!(SlWlanEvent::from_bytes(&rec).unwrap().info.reason_code, 200);
    assert!(SlWlanEvent::from_bytes(&rec[..79]).is_none());

    let mut n = vec![0u8; 16];
    n[0] = 1;
    n[4..8].copy_from_slice(&0x0a00_0002u32.to_le_bytes());
    n[8..12].copy_from_slice(&0x0a00_0001u32.to_le_bytes());
    let ev = SlNetAppEvent::from_bytes(&n).unwrap();
    assert_eq!((ev.event, ev.ip, ev.gateway), (1, 0x0a00_0002, 0x0a00_0001));
    assert!(SlNetAppEvent::from_bytes(&n[..15]).is_none());

    let mut p = vec![0u8; 20];
    p[0] = 4;
    p[4] = 3;
    p[8] = 10;
    p[10] = 30;
    p[12] = 20;
    p[16..20].copy_from_slice(&1000u32.to_le_bytes());
    let r = SlPingReport::from_bytes(&p).unwrap();
    assert_eq!((r.packets_sent, r.packets_rcvd, r.min_round_time, r.max_round_time, r.avg_round_time, r.test_time),
               (4, 3, 10, 30, 20, 1000));
    assert!(SlPingReport::from_bytes(&p[..19]).is_none());
}

#[test]
fn version_record_decoded() {
    let mut b = vec![0u8; 44];
    b[0..4].copy_from_slice(&0x0403_0201u32.to_le_bytes());
    for i in 0..4 {
        b[4 + 4 * i..8 + 4 * i].copy_from_slice(&(10 + i as u32).to_le_bytes());
        b[24 + 4 * i..28 + 4 * i].copy_from_slice(&(20 + i as u32).to_le_bytes());
    }
    b[20..24].copy_from_slice(&[1, 2, 3, 4]);
    b[40..42].copy_from_slice(&0x1234u16.to_le_bytes());
    let v = SlVersionFull::from_bytes(&b).unwrap();
    assert_eq!(v.chip_id, 0x0403_0201);
    assert_eq!(v.fw_version, [10, 11, 12, 13]);
    assert_eq!(v.phy_version, [1, 2, 3, 4]);
    assert_eq!(v.nwp_version, [20, 21, 22, 23]);
    assert_eq!(v.rom_version, 0x1234);
    assert!(SlVersionFull::from_bytes(&b[..43]).is_none());
}

#[test]
fn ip_wait_gives_up_after_its_budget() {
    let (s, a) = configure_default_step(ReconcileState::Starting, ReconcileEvent::Started(Ok(WlanMode::ROLE_AP)), Some(2));
    assert_eq!((s, a), (ReconcileState::WaitingForIp(0), ReconcileAction::PollIpAcquired));
    let (s, a) = configure_default_step(s, ReconcileEvent::IpAcquired(false), Some(2));
    assert_eq!((s, a), (ReconcileState::WaitingForIp(1), ReconcileAction::PollIpAcquired));
    let (s, a) = configure_default_step(s, ReconcileEvent::IpAcquired(false), Some(2));
    assert_eq!(s, ReconcileState::Finished(Err(ReconcileError::IpTimeout)));
    assert_eq!(a, ReconcileAction::Done(Err(ReconcileError::IpTimeout)));
    // Seeing the lease on the last allowed poll still proceeds.
    let (_, a) = configure_default_step(ReconcileState::WaitingForIp(1), ReconcileEvent::IpAcquired(true), Some(2));
    assert_eq!(a, ReconcileAction::SetStationMode);
    // Without a bound the count stops at its largest value.
    let (s, _) = configure_default_step(ReconcileState::WaitingForIp(u32::MAX), ReconcileEvent::IpAcquired(false), None);
    assert_eq!(s, ReconcileState::WaitingForIp(u32::MAX));
}
