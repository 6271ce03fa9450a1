use cc3200::error::{EnumKind, FileSystemError, OsiError, SimpleLinkError, SocketError, WlanError};
use cc3200::events::WlanEvent;
use cc3200::socket::size_or_error;
use cc3200::types::{NetConfigSet, Policy, StatusBit, WlanConfig, WlanMode, split_selector};

#[test]
fn every_wlan_error_round_trips() {
    let all = [
        WlanError::ROLE_STA_ERR, WlanError::ROLE_AP_ERR, WlanError::KEY_ERROR,
        WlanError::INVALID_ROLE, WlanError::INVALID_SECURITY_TYPE,
        WlanError::PASSPHRASE_TOO_LONG, WlanError::WPS_NO_PIN_OR_WRONG_PIN_LEN,
        WlanError::EAP_WRONG_METHOD, WlanError::PASSWORD_ERROR,
        WlanError::EAP_ANONYMOUS_LEN_ERROR, WlanError::SSID_LEN_ERROR,
        WlanError::USER_ID_LEN_ERROR, WlanError::ILLEGAL_WEP_KEY_INDEX,
        WlanError::INVALID_DWELL_TIME_VALUES, WlanError::INVALID_POLICY_TYPE,
        WlanError::PM_POLICY_INVALID_OPTION, WlanError::PM_POLICY_INVALID_PARAMS,
        WlanError::WIFI_ALREADY_DISCONNECTED, WlanError::WIFI_NOT_CONNECTED,
    ];
    for e in all.iter() {
        assert_eq!(WlanError::try_from_code(e.code()), Ok(*e));
    }
    assert_eq!(WlanError::WIFI_NOT_CONNECTED.code(), -59);
}

#[test]
fn every_mode_round_trips() {
    for m in [WlanMode::ROLE_STA, WlanMode::ROLE_UNKNOWN, WlanMode::ROLE_AP, WlanMode::ROLE_P2P] {
        assert_eq!(WlanMode::try_from_code(m.code()), Ok(m));
    }
    assert_eq!(WlanMode::try_from_code(4), Err(SimpleLinkError::ValueError(EnumKind::WlanMode, 4)));
    assert_eq!(WlanMode::try_from_code(-1), Err(SimpleLinkError::ValueError(EnumKind::WlanMode, -1)));
}

#[test]
fn every_code_in_range_decodes_or_carries_the_value() {
    for v in -600..600 {
        match FileSystemError::try_from_code(v) {
            Ok(e) => assert_eq!(e.code(), v),
            Err(err) => assert_eq!(err, SimpleLinkError::ValueError(EnumKind::FileSystemError, v)),
        }
        match SocketError::try_from_code(v) {
            Ok(e) => assert_eq!(e.code(), v),
            Err(err) => assert_eq!(err, SimpleLinkError::ValueError(EnumKind::SocketError, v)),
        }
        match OsiError::try_from_code(v) {
            Ok(e) => assert_eq!(e.code(), v),
            Err(err) => assert_eq!(err, SimpleLinkError::ValueError(EnumKind::OsiError, v)),
        }
    }
    assert_eq!(FileSystemError::try_from_code(-67), Ok(FileSystemError::EMPTY_SFLASH));
    assert_eq!(FileSystemError::try_from_code(-68), Err(SimpleLinkError::ValueError(EnumKind::FileSystemError, -68)));
    assert_eq!(SocketError::try_from_code(-462), Ok(SocketError::ESECHANDSHAKETIMEDOUT));
    assert_eq!(OsiError::try_from_code(0), Err(SimpleLinkError::ValueError(EnumKind::OsiError, 0)));
}

#[test]
fn unknown_value_names_its_enum() {
    assert_eq!(EnumKind::WlanError.name(), "WlanError");
    assert_eq!(EnumKind::FileSystemError.name(), "FileSystemError");
    assert_eq!(WlanEvent::try_from_code(3), Err(SimpleLinkError::ValueError(EnumKind::WlanEvent, 3)));
}

#[test]
fn status_bits_and_selectors() {
    assert_eq!(StatusBit::STATUS_BIT_PING_DONE.code(), 8);
    assert_eq!(StatusBit::try_from_code(3), Ok(StatusBit::STATUS_BIT_IP_ACQUIRED));
    assert_eq!(Policy::ConnectionDefault.selector(), (0x10, 0x11));
    assert_eq!(Policy::PowerNormal.selector(), (0x30, 0x00));
    assert_eq!(NetConfigSet::Ipv4StaP2pClientDhcpEnable.selector(), (0x04, 0x01));
    assert_eq!(WlanConfig::GeneralStaTxPower.selector(), (0x01, 0x0a));
    assert_eq!(split_selector(0x1234), (0x12, 0x34));
}

#[test]
fn socket_counts_and_errors() {
    assert_eq!(size_or_error(12), Ok(12));
    assert_eq!(size_or_error(0), Ok(0));
    assert_eq!(size_or_error(-11), Err(SimpleLinkError::Socket(SocketError::EAGAIN)));
    assert_eq!(size_or_error(-2), Err(SimpleLinkError::ValueError(EnumKind::SocketError, -2)));
}

#[test]
fn every_enum_kind_has_its_name() {
    assert_eq!(EnumKind::OsiError.name(), "OsiError");
    assert_eq!(EnumKind::SocketError.name(), "SocketError");
    assert_eq!(EnumKind::WlanDisconnectReason.name(), "WlanDisconnectReason");
}
