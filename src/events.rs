//! The events the network processor delivers, copied into owned records,
//! and what the handlers report about each for logging.
use vstd::prelude::*;
use crate::bytes::{le_u32, read_array32, read_array6, read_le_u32};
use crate::error::{EnumKind, SimpleLinkError};

verus! {

/// Kinds of WLAN events the network processor delivers.
#[allow(non_camel_case_types)]
#[derive(Clone, Copy, Debug, PartialEq, Eq, Structural)]
pub enum WlanEvent {
    SL_WLAN_CONNECT_EVENT,
    SL_WLAN_DISCONNECT_EVENT,
}

impl WlanEvent {
    /// The vendor's numeric code for this value.
    pub open spec fn spec_code(self) -> int {
        match self {
            WlanEvent::SL_WLAN_CONNECT_EVENT => 1,
            WlanEvent::SL_WLAN_DISCONNECT_EVENT => 2,
        }
    }

    /// The vendor's numeric code for this value.
    pub fn code(self) -> (r: i32)
        ensures
            r == self.spec_code(),
    {
        match self {
            WlanEvent::SL_WLAN_CONNECT_EVENT => 1,
            WlanEvent::SL_WLAN_DISCONNECT_EVENT => 2,
        }
    }

    /// What decoding `v` gives: the value whose code is `v`, or a
    /// `ValueError` that carries `v` when there is none.
    pub open spec fn decoded(v: i32) -> Result<WlanEvent, SimpleLinkError> {
        if exists|e: WlanEvent| e.spec_code() == v {
            Ok(choose|e: WlanEvent| e.spec_code() == v)
        } else {
            Err(SimpleLinkError::ValueError(EnumKind::WlanEvent, v))
        }
    }

    spec fn by_code(v: int) -> Option<WlanEvent> {
        if v == 1 {
            Some(WlanEvent::SL_WLAN_CONNECT_EVENT)
        } else if v == 2 {
            Some(WlanEvent::SL_WLAN_DISCONNECT_EVENT)
        } else {
            None
        }
    }

    /// Decodes a vendor code. Every code outside the set is an error that
    /// carries the code, never a guess at a nearby variant.
    pub fn try_from_code(v: i32) -> (r: Result<WlanEvent, SimpleLinkError>)
        ensures
            r == WlanEvent::decoded(v),
    {
        let r = match v {
            1 => Ok(WlanEvent::SL_WLAN_CONNECT_EVENT),
            2 => Ok(WlanEvent::SL_WLAN_DISCONNECT_EVENT),
            _ => Err(SimpleLinkError::ValueError(EnumKind::WlanEvent, v)),
        };
        proof {
            if let Ok(e) = r {
                WlanEvent::lemma_decode_code(e);
            }
        }
        r
    }

    /// Every variant decodes back from its own code.
    pub proof fn lemma_decode_code(e: WlanEvent)
        ensures
            WlanEvent::decoded(e.spec_code() as i32) == Ok::<WlanEvent, SimpleLinkError>(e),
    {
        assert(WlanEvent::by_code(e.spec_code()) == Some(e));
        assert forall|e2: WlanEvent| e2.spec_code() == e.spec_code() implies e2 == e by {
            assert(WlanEvent::by_code(e2.spec_code()) == Some(e2));
        }
    }

    /// A code that no variant has decodes to a `ValueError` carrying it.
    pub proof fn lemma_decode_unknown(v: i32)
        requires
            forall|e: WlanEvent| e.spec_code() != v,
        ensures
            WlanEvent::decoded(v) == Err::<WlanEvent, SimpleLinkError>(SimpleLinkError::ValueError(EnumKind::WlanEvent, v)),
    {
    }
}

/// Kinds of network-application events the network processor delivers.
#[allow(non_camel_case_types)]
#[derive(Clone, Copy, Debug, PartialEq, Eq, Structural)]
pub enum NetAppEvent {
    SL_NETAPP_IPV4_IPACQUIRED_EVENT,
}

impl NetAppEvent {
    /// The vendor's numeric code for this value.
    pub open spec fn spec_code(self) -> int {
        match self {
            NetAppEvent::SL_NETAPP_IPV4_IPACQUIRED_EVENT => 1,
        }
    }

    /// The vendor's numeric code for this value.
    pub fn code(self) -> (r: i32)
        ensures
            r == self.spec_code(),
    {
        match self {
            NetAppEvent::SL_NETAPP_IPV4_IPACQUIRED_EVENT => 1,
        }
    }

    /// What decoding `v` gives: the value whose code is `v`, or a
    /// `ValueError` that carries `v` when there is none.
    pub open spec fn decoded(v: i32) -> Result<NetAppEvent, SimpleLinkError> {
        if exists|e: NetAppEvent| e.spec_code() == v {
            Ok(choose|e: NetAppEvent| e.spec_code() == v)
        } else {
            Err(SimpleLinkError::ValueError(EnumKind::NetAppEvent, v))
        }
    }

    spec fn by_code(v: int) -> Option<NetAppEvent> {
        if v == 1 {
            Some(NetAppEvent::SL_NETAPP_IPV4_IPACQUIRED_EVENT)
        } else {
            None
        }
    }

    /// Decodes a vendor code. Every code outside the set is an error that
    /// carries the code, never a guess at a nearby variant.
    pub fn try_from_code(v: i32) -> (r: Result<NetAppEvent, SimpleLinkError>)
        ensures
            r == NetAppEvent::decoded(v),
    {
        let r = match v {
            1 => Ok(NetAppEvent::SL_NETAPP_IPV4_IPACQUIRED_EVENT),
            _ => Err(SimpleLinkError::ValueError(EnumKind::NetAppEvent, v)),
        };
        proof {
            if let Ok(e) = r {
                NetAppEvent::lemma_decode_code(e);
            }
        }
        r
    }

    /// Every variant decodes back from its own code.
    pub proof fn lemma_decode_code(e: NetAppEvent)
        ensures
            NetAppEvent::decoded(e.spec_code() as i32) == Ok::<NetAppEvent, SimpleLinkError>(e),
    {
        assert(NetAppEvent::by_code(e.spec_code()) == Some(e));
        assert forall|e2: NetAppEvent| e2.spec_code() == e.spec_code() implies e2 == e by {
            assert(NetAppEvent::by_code(e2.spec_code()) == Some(e2));
        }
    }

    /// A code that no variant has decodes to a `ValueError` carrying it.
    pub proof fn lemma_decode_unknown(v: i32)
        requires
            forall|e: NetAppEvent| e.spec_code() != v,
        ensures
            NetAppEvent::decoded(v) == Err::<NetAppEvent, SimpleLinkError>(SimpleLinkError::ValueError(EnumKind::NetAppEvent, v)),
    {
    }
}

/// Kinds of device events: general and abort errors of the network processor, and errors the host driver raises.
#[allow(non_camel_case_types)]
#[derive(Clone, Copy, Debug, PartialEq, Eq, Structural)]
pub enum SlDeviceDriverError {
    SL_DEVICE_GENERAL_ERROR_EVENT,
    SL_DEVICE_ABORT_ERROR_EVENT,
    SL_DEVICE_DRIVER_ASSERT_ERROR_EVENT,
    SL_DEVICE_DRIVER_TIMEOUT_CMD_COMPLETE,
    SL_DEVICE_DRIVER_TIMEOUT_SYNC_PATTERN,
    SL_DEVICE_DRIVER_TIMEOUT_ASYNC_EVENT,
}

impl SlDeviceDriverError {
    /// The vendor's numeric code for this value.
    pub open spec fn spec_code(self) -> int {
        match self {
            SlDeviceDriverError::SL_DEVICE_GENERAL_ERROR_EVENT => 1,
            SlDeviceDriverError::SL_DEVICE_ABORT_ERROR_EVENT => 2,
            SlDeviceDriverError::SL_DEVICE_DRIVER_ASSERT_ERROR_EVENT => 3,
            SlDeviceDriverError::SL_DEVICE_DRIVER_TIMEOUT_CMD_COMPLETE => 4,
            SlDeviceDriverError::SL_DEVICE_DRIVER_TIMEOUT_SYNC_PATTERN => 5,
            SlDeviceDriverError::SL_DEVICE_DRIVER_TIMEOUT_ASYNC_EVENT => 6,
        }
    }

    /// The vendor's numeric code for this value.
    pub fn code(self) -> (r: i32)
        ensures
            r == self.spec_code(),
    {
        match self {
            SlDeviceDriverError::SL_DEVICE_GENERAL_ERROR_EVENT => 1,
            SlDeviceDriverError::SL_DEVICE_ABORT_ERROR_EVENT => 2,
            SlDeviceDriverError::SL_DEVICE_DRIVER_ASSERT_ERROR_EVENT => 3,
            SlDeviceDriverError::SL_DEVICE_DRIVER_TIMEOUT_CMD_COMPLETE => 4,
            SlDeviceDriverError::SL_DEVICE_DRIVER_TIMEOUT_SYNC_PATTERN => 5,
            SlDeviceDriverError::SL_DEVICE_DRIVER_TIMEOUT_ASYNC_EVENT => 6,
        }
    }

    /// What decoding `v` gives: the value whose code is `v`, or a
    /// `ValueError` that carries `v` when there is none.
    pub open spec fn decoded(v: i32) -> Result<SlDeviceDriverError, SimpleLinkError> {
        if exists|e: SlDeviceDriverError| e.spec_code() == v {
            Ok(choose|e: SlDeviceDriverError| e.spec_code() == v)
        } else {
            Err(SimpleLinkError::ValueError(EnumKind::SlDeviceDriverError, v))
        }
    }

    spec fn by_code(v: int) -> Option<SlDeviceDriverError> {
        if v == 1 {
            Some(SlDeviceDriverError::SL_DEVICE_GENERAL_ERROR_EVENT)
        } else if v == 2 {
            Some(SlDeviceDriverError::SL_DEVICE_ABORT_ERROR_EVENT)
        } else if v == 3 {
            Some(SlDeviceDriverError::SL_DEVICE_DRIVER_ASSERT_ERROR_EVENT)
        } else if v == 4 {
            Some(SlDeviceDriverError::SL_DEVICE_DRIVER_TIMEOUT_CMD_COMPLETE)
        } else if v == 5 {
            Some(SlDeviceDriverError::SL_DEVICE_DRIVER_TIMEOUT_SYNC_PATTERN)
        } else if v == 6 {
            Some(SlDeviceDriverError::SL_DEVICE_DRIVER_TIMEOUT_ASYNC_EVENT)
        } else {
            None
        }
    }

    /// Decodes a vendor code. Every code outside the set is an error that
    /// carries the code, never a guess at a nearby variant.
    pub fn try_from_code(v: i32) -> (r: Result<SlDeviceDriverError, SimpleLinkError>)
        ensures
            r == SlDeviceDriverError::decoded(v),
    {
        let r = match v {
            1 => Ok(SlDeviceDriverError::SL_DEVICE_GENERAL_ERROR_EVENT),
            2 => Ok(SlDeviceDriverError::SL_DEVICE_ABORT_ERROR_EVENT),
            3 => Ok(SlDeviceDriverError::SL_DEVICE_DRIVER_ASSERT_ERROR_EVENT),
            4 => Ok(SlDeviceDriverError::SL_DEVICE_DRIVER_TIMEOUT_CMD_COMPLETE),
            5 => Ok(SlDeviceDriverError::SL_DEVICE_DRIVER_TIMEOUT_SYNC_PATTERN),
            6 => Ok(SlDeviceDriverError::SL_DEVICE_DRIVER_TIMEOUT_ASYNC_EVENT),
            _ => Err(SimpleLinkError::ValueError(EnumKind::SlDeviceDriverError, v)),
        };
        proof {
            if let Ok(e) = r {
                SlDeviceDriverError::lemma_decode_code(e);
            }
        }
        r
    }

    /// Every variant decodes back from its own code.
    pub proof fn lemma_decode_code(e: SlDeviceDriverError)
        ensures
            SlDeviceDriverError::decoded(e.spec_code() as i32) == Ok::<SlDeviceDriverError, SimpleLinkError>(e),
    {
        assert(SlDeviceDriverError::by_code(e.spec_code()) == Some(e));
        assert forall|e2: SlDeviceDriverError| e2.spec_code() == e.spec_code() implies e2 == e by {
            assert(SlDeviceDriverError::by_code(e2.spec_code()) == Some(e2));
        }
    }

    /// A code that no variant has decodes to a `ValueError` carrying it.
    pub proof fn lemma_decode_unknown(v: i32)
        requires
            forall|e: SlDeviceDriverError| e.spec_code() != v,
        ensures
            SlDeviceDriverError::decoded(v) == Err::<SlDeviceDriverError, SimpleLinkError>(SimpleLinkError::ValueError(EnumKind::SlDeviceDriverError, v)),
    {
    }
}

/// Kinds of socket events the network processor delivers.
#[allow(non_camel_case_types)]
#[derive(Clone, Copy, Debug, PartialEq, Eq, Structural)]
pub enum SlSocketEventNum {
    SL_SOCKET_TX_FAILED_EVENT,
    SL_SOCKET_ASYNC_EVENT,
}

impl SlSocketEventNum {
    /// The vendor's numeric code for this value.
    pub open spec fn spec_code(self) -> int {
        match self {
            SlSocketEventNum::SL_SOCKET_TX_FAILED_EVENT => 1,
            SlSocketEventNum::SL_SOCKET_ASYNC_EVENT => 2,
        }
    }

    /// The vendor's numeric code for this value.
    pub fn code(self) -> (r: i32)
        ensures
            r == self.spec_code(),
    {
        match self {
            SlSocketEventNum::SL_SOCKET_TX_FAILED_EVENT => 1,
            SlSocketEventNum::SL_SOCKET_ASYNC_EVENT => 2,
        }
    }

    /// What decoding `v` gives: the value whose code is `v`, or a
    /// `ValueError` that carries `v` when there is none.
    pub open spec fn decoded(v: i32) -> Result<SlSocketEventNum, SimpleLinkError> {
        if exists|e: SlSocketEventNum| e.spec_code() == v {
            Ok(choose|e: SlSocketEventNum| e.spec_code() == v)
        } else {
            Err(SimpleLinkError::ValueError(EnumKind::SlSocketEventNum, v))
        }
    }

    spec fn by_code(v: int) -> Option<SlSocketEventNum> {
        if v == 1 {
            Some(SlSocketEventNum::SL_SOCKET_TX_FAILED_EVENT)
        } else if v == 2 {
            Some(SlSocketEventNum::SL_SOCKET_ASYNC_EVENT)
        } else {
            None
        }
    }

    /// Decodes a vendor code. Every code outside the set is an error that
    /// carries the code, never a guess at a nearby variant.
    pub fn try_from_code(v: i32) -> (r: Result<SlSocketEventNum, SimpleLinkError>)
        ensures
            r == SlSocketEventNum::decoded(v),
    {
        let r = match v {
            1 => Ok(SlSocketEventNum::SL_SOCKET_TX_FAILED_EVENT),
            2 => Ok(SlSocketEventNum::SL_SOCKET_ASYNC_EVENT),
            _ => Err(SimpleLinkError::ValueError(EnumKind::SlSocketEventNum, v)),
        };
        proof {
            if let Ok(e) = r {
                SlSocketEventNum::lemma_decode_code(e);
            }
        }
        r
    }

    /// Every variant decodes back from its own code.
    pub proof fn lemma_decode_code(e: SlSocketEventNum)
        ensures
            SlSocketEventNum::decoded(e.spec_code() as i32) == Ok::<SlSocketEventNum, SimpleLinkError>(e),
    {
        assert(SlSocketEventNum::by_code(e.spec_code()) == Some(e));
        assert forall|e2: SlSocketEventNum| e2.spec_code() == e.spec_code() implies e2 == e by {
            assert(SlSocketEventNum::by_code(e2.spec_code()) == Some(e2));
        }
    }

    /// A code that no variant has decodes to a `ValueError` carrying it.
    pub proof fn lemma_decode_unknown(v: i32)
        requires
            forall|e: SlSocketEventNum| e.spec_code() != v,
        ensures
            SlSocketEventNum::decoded(v) == Err::<SlSocketEventNum, SimpleLinkError>(SimpleLinkError::ValueError(EnumKind::SlSocketEventNum, v)),
    {
    }
}

/// Reasons given for a WLAN disconnection that this library tells apart.
#[allow(non_camel_case_types)]
#[derive(Clone, Copy, Debug, PartialEq, Eq, Structural)]
pub enum WlanDisconnectReason {
    SL_WLAN_DISCONNECT_USER_INITIATED_DISCONNECTION,
}

impl WlanDisconnectReason {
    /// The vendor's numeric code for this value.
    pub open spec fn spec_code(self) -> int {
        match self {
            WlanDisconnectReason::SL_WLAN_DISCONNECT_USER_INITIATED_DISCONNECTION => 200,
        }
    }

    /// The vendor's numeric code for this value.
    pub fn code(self) -> (r: i32)
        ensures
            r == self.spec_code(),
    {
        match self {
            WlanDisconnectReason::SL_WLAN_DISCONNECT_USER_INITIATED_DISCONNECTION => 200,
        }
    }

    /// What decoding `v` gives: the value whose code is `v`, or a
    /// `ValueError` that carries `v` when there is none.
    pub open spec fn decoded(v: i32) -> Result<WlanDisconnectReason, SimpleLinkError> {
        if exists|e: WlanDisconnectReason| e.spec_code() == v {
            Ok(choose|e: WlanDisconnectReason| e.spec_code() == v)
        } else {
            Err(SimpleLinkError::ValueError(EnumKind::WlanDisconnectReason, v))
        }
    }

    spec fn by_code(v: int) -> Option<WlanDisconnectReason> {
        if v == 200 {
            Some(WlanDisconnectReason::SL_WLAN_DISCONNECT_USER_INITIATED_DISCONNECTION)
        } else {
            None
        }
    }

    /// Decodes a vendor code. Every code outside the set is an error that
    /// carries the code, never a guess at a nearby variant.
    pub fn try_from_code(v: i32) -> (r: Result<WlanDisconnectReason, SimpleLinkError>)
        ensures
            r == WlanDisconnectReason::decoded(v),
    {
        let r = match v {
            200 => Ok(WlanDisconnectReason::SL_WLAN_DISCONNECT_USER_INITIATED_DISCONNECTION),
            _ => Err(SimpleLinkError::ValueError(EnumKind::WlanDisconnectReason, v)),
        };
        proof {
            if let Ok(e) = r {
                WlanDisconnectReason::lemma_decode_code(e);
            }
        }
        r
    }

    /// Every variant decodes back from its own code.
    pub proof fn lemma_decode_code(e: WlanDisconnectReason)
        ensures
            WlanDisconnectReason::decoded(e.spec_code() as i32) == Ok::<WlanDisconnectReason, SimpleLinkError>(e),
    {
        assert(WlanDisconnectReason::by_code(e.spec_code()) == Some(e));
        assert forall|e2: WlanDisconnectReason| e2.spec_code() == e.spec_code() implies e2 == e by {
            assert(WlanDisconnectReason::by_code(e2.spec_code()) == Some(e2));
        }
    }

    /// A code that no variant has decodes to a `ValueError` carrying it.
    pub proof fn lemma_decode_unknown(v: i32)
        requires
            forall|e: WlanDisconnectReason| e.spec_code() != v,
        ensures
            WlanDisconnectReason::decoded(v) == Err::<WlanDisconnectReason, SimpleLinkError>(SimpleLinkError::ValueError(EnumKind::WlanDisconnectReason, v)),
    {
    }
}


/// Connection details carried by a WLAN connect or disconnect event.
#[derive(Clone, Copy, Debug)]
pub struct SlWlanConnectInfo {
    pub ssid_len: u8,
    pub ssid_name: [u8; 32],
    pub bssid: [u8; 6],
    /// Why the connection ended; set on disconnect events only.
    pub reason_code: u8,
}

/// A WLAN event: its kind tag and its payload.
#[derive(Clone, Copy, Debug)]
pub struct SlWlanEvent {
    pub event_type: i32,
    pub info: SlWlanConnectInfo,
}

/// A network-application event: its kind tag and the addresses of an IPv4
/// lease.
#[derive(Clone, Copy, Debug)]
pub struct SlNetAppEvent {
    pub event: i32,
    pub ip: u32,
    pub gateway: u32,
}

/// A device event: its kind tag and the fields of each kind's payload.
#[derive(Clone, Copy, Debug)]
pub struct SlDeviceEvent {
    pub event_num: i32,
    pub status: i8,
    pub sender: u8,
    pub abort_type: u32,
    pub abort_data: u32,
    pub info: u32,
}

/// A socket event: its kind tag, the socket, and the status of a failed
/// transmission.
#[derive(Clone, Copy, Debug)]
pub struct SlSockEvent {
    pub event_num: i32,
    pub sd: i16,
    pub status: i16,
}

/// What a WLAN event did, for the log.
#[derive(Debug)]
pub enum WlanEventReport {
    /// Connected; the SSID and BSSID are now in the connection context.
    Connected,
    /// Disconnected from the access point named here, on the application's
    /// request or on an error.
    Disconnected { user_initiated: bool, ssid: Vec<u8>, bssid: [u8; 6] },
    /// An event kind this library does not handle; nothing changed.
    Unexpected(i32),
}

/// What a network-application event did, for the log.
#[derive(Clone, Copy, Debug, PartialEq, Eq, Structural)]
pub enum NetAppEventReport {
    IpAcquired { ip: u32, gateway: u32 },
    Unexpected(i32),
}

/// What a device event says, for the log.
#[derive(Clone, Copy, Debug, PartialEq, Eq, Structural)]
pub enum DeviceEventReport {
    General { status: i8, sender: u8 },
    Abort { abort_type: u32, abort_data: u32 },
    DriverError { event_num: i32, info: u32 },
    Unknown(i32),
}

/// What a socket event says, for the log.
#[derive(Clone, Copy, Debug, PartialEq, Eq, Structural)]
pub enum SockEventReport {
    /// Closing the socket failed to send all queued packets.
    CloseFailed { sd: i16 },
    TxFailed { sd: i16, status: i16 },
    Async,
    Unexpected(i32),
}

/// Size of a WLAN event record: the kind, then connection type, SSID length,
/// 32 SSID bytes, peer name length, 32 peer name bytes, 6 BSSID bytes, the
/// reason, and 2 bytes of padding.
pub const WLAN_EVENT_SIZE: usize = 80;

/// Size of a network-application event record: the kind, then the IP,
/// gateway and DNS addresses of an IPv4 lease.
pub const NETAPP_EVENT_SIZE: usize = 16;

impl SlWlanEvent {
    /// Copies a WLAN event out of the bytes of the driver's record
    /// (little-endian); `None` when the buffer is too short.
    pub fn from_bytes(b: &[u8]) -> (r: Option<SlWlanEvent>)
        ensures
            r is Some <==> b@.len() >= WLAN_EVENT_SIZE,
            r matches Some(e) ==> {
                &&& e.event_type as int == (if le_u32(b@, 0) < 0x80000000 {
                    le_u32(b@, 0)
                } else {
                    le_u32(b@, 0) - 0x100000000
                })
                &&& e.info.ssid_len == b@[5]
                &&& e.info.ssid_name@ == b@.subrange(6, 38)
                &&& e.info.bssid@ == b@.subrange(71, 77)
                &&& e.info.reason_code == b@[77]
            },
    {
        if b.len() < WLAN_EVENT_SIZE {
            return None;
        }
        let tag = read_le_u32(b, 0);
        let event_type: i32 = if tag < 0x80000000 {
            tag as i32
        } else {
            (tag as i64 - 0x100000000) as i32
        };
        Some(
            SlWlanEvent {
                event_type,
                info: SlWlanConnectInfo {
                    ssid_len: b[5],
                    ssid_name: read_array32(b, 6),
                    bssid: read_array6(b, 71),
                    reason_code: b[77],
                },
            },
        )
    }
}

impl SlNetAppEvent {
    /// Copies a network-application event out of the bytes of the driver's
    /// record (little-endian); `None` when the buffer is too short.
    pub fn from_bytes(b: &[u8]) -> (r: Option<SlNetAppEvent>)
        ensures
            r is Some <==> b@.len() >= NETAPP_EVENT_SIZE,
            r matches Some(e) ==> {
                &&& e.event as int == (if le_u32(b@, 0) < 0x80000000 {
                    le_u32(b@, 0)
                } else {
                    le_u32(b@, 0) - 0x100000000
                })
                &&& e.ip == le_u32(b@, 4)
                &&& e.gateway == le_u32(b@, 8)
            },
    {
        if b.len() < NETAPP_EVENT_SIZE {
            return None;
        }
        let tag = read_le_u32(b, 0);
        let event: i32 = if tag < 0x80000000 {
            tag as i32
        } else {
            (tag as i64 - 0x100000000) as i32
        };
        Some(SlNetAppEvent { event, ip: read_le_u32(b, 4), gateway: read_le_u32(b, 8) })
    }
}

} // verus!
