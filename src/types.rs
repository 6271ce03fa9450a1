//! Vendor enumerations of modes, flags and configuration selectors.
use vstd::prelude::*;
use crate::error::{EnumKind, SimpleLinkError};
use crate::bytes::{le_u16, le_u32, read_le_u16, read_le_u32};
use crate::format::repeat;
use vstd::string::StringSliceAdditionalSpecFns;

verus! {

/// The 802.11 role of the device, as `start`, `stop` and `set_mode` report it.
#[allow(non_camel_case_types)]
#[derive(Clone, Copy, Debug, PartialEq, Eq, Structural)]
pub enum WlanMode {
    ROLE_STA,
    ROLE_UNKNOWN,
    ROLE_AP,
    ROLE_P2P,
}

impl WlanMode {
    /// The vendor's numeric code for this value.
    pub open spec fn spec_code(self) -> int {
        match self {
            WlanMode::ROLE_STA => 0,
            WlanMode::ROLE_UNKNOWN => 1,
            WlanMode::ROLE_AP => 2,
            WlanMode::ROLE_P2P => 3,
        }
    }

    /// The vendor's numeric code for this value.
    pub fn code(self) -> (r: i32)
        ensures
            r == self.spec_code(),
    {
        match self {
            WlanMode::ROLE_STA => 0,
            WlanMode::ROLE_UNKNOWN => 1,
            WlanMode::ROLE_AP => 2,
            WlanMode::ROLE_P2P => 3,
        }
    }

    /// What decoding `v` gives: the value whose code is `v`, or a
    /// `ValueError` that carries `v` when there is none.
    pub open spec fn decoded(v: i32) -> Result<WlanMode, SimpleLinkError> {
        if exists|e: WlanMode| e.spec_code() == v {
            Ok(choose|e: WlanMode| e.spec_code() == v)
        } else {
            Err(SimpleLinkError::ValueError(EnumKind::WlanMode, v))
        }
    }

    spec fn by_code(v: int) -> Option<WlanMode> {
        if v == 0 {
            Some(WlanMode::ROLE_STA)
        } else if v == 1 {
            Some(WlanMode::ROLE_UNKNOWN)
        } else if v == 2 {
            Some(WlanMode::ROLE_AP)
        } else if v == 3 {
            Some(WlanMode::ROLE_P2P)
        } else {
            None
        }
    }

    /// Decodes a vendor code. Every code outside the set is an error that
    /// carries the code, never a guess at a nearby variant.
    pub fn try_from_code(v: i32) -> (r: Result<WlanMode, SimpleLinkError>)
        ensures
            r == WlanMode::decoded(v),
    {
        let r = match v {
            0 => Ok(WlanMode::ROLE_STA),
            1 => Ok(WlanMode::ROLE_UNKNOWN),
            2 => Ok(WlanMode::ROLE_AP),
            3 => Ok(WlanMode::ROLE_P2P),
            _ => Err(SimpleLinkError::ValueError(EnumKind::WlanMode, v)),
        };
        proof {
            if let Ok(e) = r {
                WlanMode::lemma_decode_code(e);
            }
        }
        r
    }

    /// Every variant decodes back from its own code.
    pub proof fn lemma_decode_code(e: WlanMode)
        ensures
            WlanMode::decoded(e.spec_code() as i32) == Ok::<WlanMode, SimpleLinkError>(e),
    {
        assert(WlanMode::by_code(e.spec_code()) == Some(e));
        assert forall|e2: WlanMode| e2.spec_code() == e.spec_code() implies e2 == e by {
            assert(WlanMode::by_code(e2.spec_code()) == Some(e2));
        }
    }

    /// A code that no variant has decodes to a `ValueError` carrying it.
    pub proof fn lemma_decode_unknown(v: i32)
        requires
            forall|e: WlanMode| e.spec_code() != v,
        ensures
            WlanMode::decoded(v) == Err::<WlanMode, SimpleLinkError>(SimpleLinkError::ValueError(EnumKind::WlanMode, v)),
    {
    }
}

/// Address families the vendor's network layer takes.
#[allow(non_camel_case_types)]
#[derive(Clone, Copy, Debug, PartialEq, Eq, Structural)]
pub enum SocketFamily {
    AF_INET,
    AF_INET6,
    AF_INET6_EUI_48,
    AF_RF,
    AF_PACKET,
}

impl SocketFamily {
    /// The vendor's numeric code for this value.
    pub open spec fn spec_code(self) -> int {
        match self {
            SocketFamily::AF_INET => 2,
            SocketFamily::AF_INET6 => 3,
            SocketFamily::AF_INET6_EUI_48 => 9,
            SocketFamily::AF_RF => 6,
            SocketFamily::AF_PACKET => 17,
        }
    }

    /// The vendor's numeric code for this value.
    pub fn code(self) -> (r: i32)
        ensures
            r == self.spec_code(),
    {
        match self {
            SocketFamily::AF_INET => 2,
            SocketFamily::AF_INET6 => 3,
            SocketFamily::AF_INET6_EUI_48 => 9,
            SocketFamily::AF_RF => 6,
            SocketFamily::AF_PACKET => 17,
        }
    }

    /// What decoding `v` gives: the value whose code is `v`, or a
    /// `ValueError` that carries `v` when there is none.
    pub open spec fn decoded(v: i32) -> Result<SocketFamily, SimpleLinkError> {
        if exists|e: SocketFamily| e.spec_code() == v {
            Ok(choose|e: SocketFamily| e.spec_code() == v)
        } else {
            Err(SimpleLinkError::ValueError(EnumKind::SocketFamily, v))
        }
    }

    spec fn by_code(v: int) -> Option<SocketFamily> {
        if v == 2 {
            Some(SocketFamily::AF_INET)
        } else if v == 3 {
            Some(SocketFamily::AF_INET6)
        } else if v == 9 {
            Some(SocketFamily::AF_INET6_EUI_48)
        } else if v == 6 {
            Some(SocketFamily::AF_RF)
        } else if v == 17 {
            Some(SocketFamily::AF_PACKET)
        } else {
            None
        }
    }

    /// Decodes a vendor code. Every code outside the set is an error that
    /// carries the code, never a guess at a nearby variant.
    pub fn try_from_code(v: i32) -> (r: Result<SocketFamily, SimpleLinkError>)
        ensures
            r == SocketFamily::decoded(v),
    {
        let r = match v {
            2 => Ok(SocketFamily::AF_INET),
            3 => Ok(SocketFamily::AF_INET6),
            9 => Ok(SocketFamily::AF_INET6_EUI_48),
            6 => Ok(SocketFamily::AF_RF),
            17 => Ok(SocketFamily::AF_PACKET),
            _ => Err(SimpleLinkError::ValueError(EnumKind::SocketFamily, v)),
        };
        proof {
            if let Ok(e) = r {
                SocketFamily::lemma_decode_code(e);
            }
        }
        r
    }

    /// Every variant decodes back from its own code.
    pub proof fn lemma_decode_code(e: SocketFamily)
        ensures
            SocketFamily::decoded(e.spec_code() as i32) == Ok::<SocketFamily, SimpleLinkError>(e),
    {
        assert(SocketFamily::by_code(e.spec_code()) == Some(e));
        assert forall|e2: SocketFamily| e2.spec_code() == e.spec_code() implies e2 == e by {
            assert(SocketFamily::by_code(e2.spec_code()) == Some(e2));
        }
    }

    /// A code that no variant has decodes to a `ValueError` carrying it.
    pub proof fn lemma_decode_unknown(v: i32)
        requires
            forall|e: SocketFamily| e.spec_code() != v,
        ensures
            SocketFamily::decoded(v) == Err::<SocketFamily, SimpleLinkError>(SimpleLinkError::ValueError(EnumKind::SocketFamily, v)),
    {
    }
}

/// The flags of the shared status register, by bit position.
#[allow(non_camel_case_types)]
#[derive(Clone, Copy, Debug, PartialEq, Eq, Structural)]
pub enum StatusBit {
    STATUS_BIT_NWP_INIT,
    STATUS_BIT_CONNECTION,
    STATUS_BIT_IP_LEASED,
    STATUS_BIT_IP_ACQUIRED,
    STATUS_BIT_SMARTCONFIG_START,
    STATUS_BIT_P2P_DEV_FOUND,
    STATUS_BIT_P2P_REQ_RECEIVED,
    STATUS_BIT_CONNECTION_FAILED,
    STATUS_BIT_PING_DONE,
}

impl StatusBit {
    /// The vendor's numeric code for this value.
    pub open spec fn spec_code(self) -> int {
        match self {
            StatusBit::STATUS_BIT_NWP_INIT => 0,
            StatusBit::STATUS_BIT_CONNECTION => 1,
            StatusBit::STATUS_BIT_IP_LEASED => 2,
            StatusBit::STATUS_BIT_IP_ACQUIRED => 3,
            StatusBit::STATUS_BIT_SMARTCONFIG_START => 4,
            StatusBit::STATUS_BIT_P2P_DEV_FOUND => 5,
            StatusBit::STATUS_BIT_P2P_REQ_RECEIVED => 6,
            StatusBit::STATUS_BIT_CONNECTION_FAILED => 7,
            StatusBit::STATUS_BIT_PING_DONE => 8,
        }
    }

    /// The vendor's numeric code for this value.
    pub fn code(self) -> (r: i32)
        ensures
            r == self.spec_code(),
    {
        match self {
            StatusBit::STATUS_BIT_NWP_INIT => 0,
            StatusBit::STATUS_BIT_CONNECTION => 1,
            StatusBit::STATUS_BIT_IP_LEASED => 2,
            StatusBit::STATUS_BIT_IP_ACQUIRED => 3,
            StatusBit::STATUS_BIT_SMARTCONFIG_START => 4,
            StatusBit::STATUS_BIT_P2P_DEV_FOUND => 5,
            StatusBit::STATUS_BIT_P2P_REQ_RECEIVED => 6,
            StatusBit::STATUS_BIT_CONNECTION_FAILED => 7,
            StatusBit::STATUS_BIT_PING_DONE => 8,
        }
    }

    /// What decoding `v` gives: the value whose code is `v`, or a
    /// `ValueError` that carries `v` when there is none.
    pub open spec fn decoded(v: i32) -> Result<StatusBit, SimpleLinkError> {
        if exists|e: StatusBit| e.spec_code() == v {
            Ok(choose|e: StatusBit| e.spec_code() == v)
        } else {
            Err(SimpleLinkError::ValueError(EnumKind::StatusBit, v))
        }
    }

    spec fn by_code(v: int) -> Option<StatusBit> {
        if v == 0 {
            Some(StatusBit::STATUS_BIT_NWP_INIT)
        } else if v == 1 {
            Some(StatusBit::STATUS_BIT_CONNECTION)
        } else if v == 2 {
            Some(StatusBit::STATUS_BIT_IP_LEASED)
        } else if v == 3 {
            Some(StatusBit::STATUS_BIT_IP_ACQUIRED)
        } else if v == 4 {
            Some(StatusBit::STATUS_BIT_SMARTCONFIG_START)
        } else if v == 5 {
            Some(StatusBit::STATUS_BIT_P2P_DEV_FOUND)
        } else if v == 6 {
            Some(StatusBit::STATUS_BIT_P2P_REQ_RECEIVED)
        } else if v == 7 {
            Some(StatusBit::STATUS_BIT_CONNECTION_FAILED)
        } else if v == 8 {
            Some(StatusBit::STATUS_BIT_PING_DONE)
        } else {
            None
        }
    }

    /// Decodes a vendor code. Every code outside the set is an error that
    /// carries the code, never a guess at a nearby variant.
    pub fn try_from_code(v: i32) -> (r: Result<StatusBit, SimpleLinkError>)
        ensures
            r == StatusBit::decoded(v),
    {
        let r = match v {
            0 => Ok(StatusBit::STATUS_BIT_NWP_INIT),
            1 => Ok(StatusBit::STATUS_BIT_CONNECTION),
            2 => Ok(StatusBit::STATUS_BIT_IP_LEASED),
            3 => Ok(StatusBit::STATUS_BIT_IP_ACQUIRED),
            4 => Ok(StatusBit::STATUS_BIT_SMARTCONFIG_START),
            5 => Ok(StatusBit::STATUS_BIT_P2P_DEV_FOUND),
            6 => Ok(StatusBit::STATUS_BIT_P2P_REQ_RECEIVED),
            7 => Ok(StatusBit::STATUS_BIT_CONNECTION_FAILED),
            8 => Ok(StatusBit::STATUS_BIT_PING_DONE),
            _ => Err(SimpleLinkError::ValueError(EnumKind::StatusBit, v)),
        };
        proof {
            if let Ok(e) = r {
                StatusBit::lemma_decode_code(e);
            }
        }
        r
    }

    /// Every variant decodes back from its own code.
    pub proof fn lemma_decode_code(e: StatusBit)
        ensures
            StatusBit::decoded(e.spec_code() as i32) == Ok::<StatusBit, SimpleLinkError>(e),
    {
        assert(StatusBit::by_code(e.spec_code()) == Some(e));
        assert forall|e2: StatusBit| e2.spec_code() == e.spec_code() implies e2 == e by {
            assert(StatusBit::by_code(e2.spec_code()) == Some(e2));
        }
    }

    /// A code that no variant has decodes to a `ValueError` carrying it.
    pub proof fn lemma_decode_unknown(v: i32)
        requires
            forall|e: StatusBit| e.spec_code() != v,
        ensures
            StatusBit::decoded(v) == Err::<StatusBit, SimpleLinkError>(SimpleLinkError::ValueError(EnumKind::StatusBit, v)),
    {
    }
}

/// WLAN policies, each a policy type (bits 8 to 15) and an option (bits 0 to 7).
#[allow(non_camel_case_types)]
#[derive(Clone, Copy, Debug, PartialEq, Eq, Structural)]
pub enum Policy {
    ConnectionDefault,
    ScanDisable,
    ScanEnable,
    PowerNormal,
    PowerLowLatency,
    PowerLowPower,
    PowerAlwaysOn,
    PowerLongSleepInterval,
}

impl Policy {
    /// The vendor's numeric code for this value.
    pub open spec fn spec_code(self) -> int {
        match self {
            Policy::ConnectionDefault => 4113,
            Policy::ScanDisable => 8192,
            Policy::ScanEnable => 8193,
            Policy::PowerNormal => 12288,
            Policy::PowerLowLatency => 12289,
            Policy::PowerLowPower => 12290,
            Policy::PowerAlwaysOn => 12291,
            Policy::PowerLongSleepInterval => 12292,
        }
    }

    /// The vendor's numeric code for this value.
    pub fn code(self) -> (r: i32)
        ensures
            r == self.spec_code(),
    {
        match self {
            Policy::ConnectionDefault => 4113,
            Policy::ScanDisable => 8192,
            Policy::ScanEnable => 8193,
            Policy::PowerNormal => 12288,
            Policy::PowerLowLatency => 12289,
            Policy::PowerLowPower => 12290,
            Policy::PowerAlwaysOn => 12291,
            Policy::PowerLongSleepInterval => 12292,
        }
    }

    /// What decoding `v` gives: the value whose code is `v`, or a
    /// `ValueError` that carries `v` when there is none.
    pub open spec fn decoded(v: i32) -> Result<Policy, SimpleLinkError> {
        if exists|e: Policy| e.spec_code() == v {
            Ok(choose|e: Policy| e.spec_code() == v)
        } else {
            Err(SimpleLinkError::ValueError(EnumKind::Policy, v))
        }
    }

    spec fn by_code(v: int) -> Option<Policy> {
        if v == 4113 {
            Some(Policy::ConnectionDefault)
        } else if v == 8192 {
            Some(Policy::ScanDisable)
        } else if v == 8193 {
            Some(Policy::ScanEnable)
        } else if v == 12288 {
            Some(Policy::PowerNormal)
        } else if v == 12289 {
            Some(Policy::PowerLowLatency)
        } else if v == 12290 {
            Some(Policy::PowerLowPower)
        } else if v == 12291 {
            Some(Policy::PowerAlwaysOn)
        } else if v == 12292 {
            Some(Policy::PowerLongSleepInterval)
        } else {
            None
        }
    }

    /// Decodes a vendor code. Every code outside the set is an error that
    /// carries the code, never a guess at a nearby variant.
    pub fn try_from_code(v: i32) -> (r: Result<Policy, SimpleLinkError>)
        ensures
            r == Policy::decoded(v),
    {
        let r = match v {
            4113 => Ok(Policy::ConnectionDefault),
            8192 => Ok(Policy::ScanDisable),
            8193 => Ok(Policy::ScanEnable),
            12288 => Ok(Policy::PowerNormal),
            12289 => Ok(Policy::PowerLowLatency),
            12290 => Ok(Policy::PowerLowPower),
            12291 => Ok(Policy::PowerAlwaysOn),
            12292 => Ok(Policy::PowerLongSleepInterval),
            _ => Err(SimpleLinkError::ValueError(EnumKind::Policy, v)),
        };
        proof {
            if let Ok(e) = r {
                Policy::lemma_decode_code(e);
            }
        }
        r
    }

    /// Every variant decodes back from its own code.
    pub proof fn lemma_decode_code(e: Policy)
        ensures
            Policy::decoded(e.spec_code() as i32) == Ok::<Policy, SimpleLinkError>(e),
    {
        assert(Policy::by_code(e.spec_code()) == Some(e));
        assert forall|e2: Policy| e2.spec_code() == e.spec_code() implies e2 == e by {
            assert(Policy::by_code(e2.spec_code()) == Some(e2));
        }
    }

    /// A code that no variant has decodes to a `ValueError` carrying it.
    pub proof fn lemma_decode_unknown(v: i32)
        requires
            forall|e: Policy| e.spec_code() != v,
        ensures
            Policy::decoded(v) == Err::<Policy, SimpleLinkError>(SimpleLinkError::ValueError(EnumKind::Policy, v)),
    {
    }
}

/// Network settings that can be written, each a configuration id (bits 8 to 15) and an option (bits 0 to 7).
#[allow(non_camel_case_types)]
#[derive(Clone, Copy, Debug, PartialEq, Eq, Structural)]
pub enum NetConfigSet {
    MacAddress,
    Ipv4StaP2pClientDhcpEnable,
    Ipv4StaP2pClientStaticEnable,
    Ipv4ApP2pGoStaticEnable,
    SetHostRxAggr,
    Ipv4DnsClient,
    Ipv4ArpFlush,
}

impl NetConfigSet {
    /// The vendor's numeric code for this value.
    pub open spec fn spec_code(self) -> int {
        match self {
            NetConfigSet::MacAddress => 257,
            NetConfigSet::Ipv4StaP2pClientDhcpEnable => 1025,
            NetConfigSet::Ipv4StaP2pClientStaticEnable => 1281,
            NetConfigSet::Ipv4ApP2pGoStaticEnable => 1793,
            NetConfigSet::SetHostRxAggr => 2048,
            NetConfigSet::Ipv4DnsClient => 2560,
            NetConfigSet::Ipv4ArpFlush => 2816,
        }
    }

    /// The vendor's numeric code for this value.
    pub fn code(self) -> (r: i32)
        ensures
            r == self.spec_code(),
    {
        match self {
            NetConfigSet::MacAddress => 257,
            NetConfigSet::Ipv4StaP2pClientDhcpEnable => 1025,
            NetConfigSet::Ipv4StaP2pClientStaticEnable => 1281,
            NetConfigSet::Ipv4ApP2pGoStaticEnable => 1793,
            NetConfigSet::SetHostRxAggr => 2048,
            NetConfigSet::Ipv4DnsClient => 2560,
            NetConfigSet::Ipv4ArpFlush => 2816,
        }
    }

    /// What decoding `v` gives: the value whose code is `v`, or a
    /// `ValueError` that carries `v` when there is none.
    pub open spec fn decoded(v: i32) -> Result<NetConfigSet, SimpleLinkError> {
        if exists|e: NetConfigSet| e.spec_code() == v {
            Ok(choose|e: NetConfigSet| e.spec_code() == v)
        } else {
            Err(SimpleLinkError::ValueError(EnumKind::NetConfigSet, v))
        }
    }

    spec fn by_code(v: int) -> Option<NetConfigSet> {
        if v == 257 {
            Some(NetConfigSet::MacAddress)
        } else if v == 1025 {
            Some(NetConfigSet::Ipv4StaP2pClientDhcpEnable)
        } else if v == 1281 {
            Some(NetConfigSet::Ipv4StaP2pClientStaticEnable)
        } else if v == 1793 {
            Some(NetConfigSet::Ipv4ApP2pGoStaticEnable)
        } else if v == 2048 {
            Some(NetConfigSet::SetHostRxAggr)
        } else if v == 2560 {
            Some(NetConfigSet::Ipv4DnsClient)
        } else if v == 2816 {
            Some(NetConfigSet::Ipv4ArpFlush)
        } else {
            None
        }
    }

    /// Decodes a vendor code. Every code outside the set is an error that
    /// carries the code, never a guess at a nearby variant.
    pub fn try_from_code(v: i32) -> (r: Result<NetConfigSet, SimpleLinkError>)
        ensures
            r == NetConfigSet::decoded(v),
    {
        let r = match v {
            257 => Ok(NetConfigSet::MacAddress),
            1025 => Ok(NetConfigSet::Ipv4StaP2pClientDhcpEnable),
            1281 => Ok(NetConfigSet::Ipv4StaP2pClientStaticEnable),
            1793 => Ok(NetConfigSet::Ipv4ApP2pGoStaticEnable),
            2048 => Ok(NetConfigSet::SetHostRxAggr),
            2560 => Ok(NetConfigSet::Ipv4DnsClient),
            2816 => Ok(NetConfigSet::Ipv4ArpFlush),
            _ => Err(SimpleLinkError::ValueError(EnumKind::NetConfigSet, v)),
        };
        proof {
            if let Ok(e) = r {
                NetConfigSet::lemma_decode_code(e);
            }
        }
        r
    }

    /// Every variant decodes back from its own code.
    pub proof fn lemma_decode_code(e: NetConfigSet)
        ensures
            NetConfigSet::decoded(e.spec_code() as i32) == Ok::<NetConfigSet, SimpleLinkError>(e),
    {
        assert(NetConfigSet::by_code(e.spec_code()) == Some(e));
        assert forall|e2: NetConfigSet| e2.spec_code() == e.spec_code() implies e2 == e by {
            assert(NetConfigSet::by_code(e2.spec_code()) == Some(e2));
        }
    }

    /// A code that no variant has decodes to a `ValueError` carrying it.
    pub proof fn lemma_decode_unknown(v: i32)
        requires
            forall|e: NetConfigSet| e.spec_code() != v,
        ensures
            NetConfigSet::decoded(v) == Err::<NetConfigSet, SimpleLinkError>(SimpleLinkError::ValueError(EnumKind::NetConfigSet, v)),
    {
    }
}

/// Network settings that can be read, by configuration id.
#[allow(non_camel_case_types)]
#[derive(Clone, Copy, Debug, PartialEq, Eq, Structural)]
pub enum NetConfigGet {
    MacAddress,
    Ipv4StaP2pClientGetInfo,
    Ipv4ApP2pGoGetInfo,
    Ipv4DhcpClient,
    Ipv4DnsClient,
}

impl NetConfigGet {
    /// The vendor's numeric code for this value.
    pub open spec fn spec_code(self) -> int {
        match self {
            NetConfigGet::MacAddress => 2,
            NetConfigGet::Ipv4StaP2pClientGetInfo => 3,
            NetConfigGet::Ipv4ApP2pGoGetInfo => 6,
            NetConfigGet::Ipv4DhcpClient => 9,
            NetConfigGet::Ipv4DnsClient => 10,
        }
    }

    /// The vendor's numeric code for this value.
    pub fn code(self) -> (r: i32)
        ensures
            r == self.spec_code(),
    {
        match self {
            NetConfigGet::MacAddress => 2,
            NetConfigGet::Ipv4StaP2pClientGetInfo => 3,
            NetConfigGet::Ipv4ApP2pGoGetInfo => 6,
            NetConfigGet::Ipv4DhcpClient => 9,
            NetConfigGet::Ipv4DnsClient => 10,
        }
    }

    /// What decoding `v` gives: the value whose code is `v`, or a
    /// `ValueError` that carries `v` when there is none.
    pub open spec fn decoded(v: i32) -> Result<NetConfigGet, SimpleLinkError> {
        if exists|e: NetConfigGet| e.spec_code() == v {
            Ok(choose|e: NetConfigGet| e.spec_code() == v)
        } else {
            Err(SimpleLinkError::ValueError(EnumKind::NetConfigGet, v))
        }
    }

    spec fn by_code(v: int) -> Option<NetConfigGet> {
        if v == 2 {
            Some(NetConfigGet::MacAddress)
        } else if v == 3 {
            Some(NetConfigGet::Ipv4StaP2pClientGetInfo)
        } else if v == 6 {
            Some(NetConfigGet::Ipv4ApP2pGoGetInfo)
        } else if v == 9 {
            Some(NetConfigGet::Ipv4DhcpClient)
        } else if v == 10 {
            Some(NetConfigGet::Ipv4DnsClient)
        } else {
            None
        }
    }

    /// Decodes a vendor code. Every code outside the set is an error that
    /// carries the code, never a guess at a nearby variant.
    pub fn try_from_code(v: i32) -> (r: Result<NetConfigGet, SimpleLinkError>)
        ensures
            r == NetConfigGet::decoded(v),
    {
        let r = match v {
            2 => Ok(NetConfigGet::MacAddress),
            3 => Ok(NetConfigGet::Ipv4StaP2pClientGetInfo),
            6 => Ok(NetConfigGet::Ipv4ApP2pGoGetInfo),
            9 => Ok(NetConfigGet::Ipv4DhcpClient),
            10 => Ok(NetConfigGet::Ipv4DnsClient),
            _ => Err(SimpleLinkError::ValueError(EnumKind::NetConfigGet, v)),
        };
        proof {
            if let Ok(e) = r {
                NetConfigGet::lemma_decode_code(e);
            }
        }
        r
    }

    /// Every variant decodes back from its own code.
    pub proof fn lemma_decode_code(e: NetConfigGet)
        ensures
            NetConfigGet::decoded(e.spec_code() as i32) == Ok::<NetConfigGet, SimpleLinkError>(e),
    {
        assert(NetConfigGet::by_code(e.spec_code()) == Some(e));
        assert forall|e2: NetConfigGet| e2.spec_code() == e.spec_code() implies e2 == e by {
            assert(NetConfigGet::by_code(e2.spec_code()) == Some(e2));
        }
    }

    /// A code that no variant has decodes to a `ValueError` carrying it.
    pub proof fn lemma_decode_unknown(v: i32)
        requires
            forall|e: NetConfigGet| e.spec_code() != v,
        ensures
            NetConfigGet::decoded(v) == Err::<NetConfigGet, SimpleLinkError>(SimpleLinkError::ValueError(EnumKind::NetConfigGet, v)),
    {
    }
}

/// WLAN settings, each a configuration id (bits 8 to 15) and an option (bits 0 to 7).
#[allow(non_camel_case_types)]
#[derive(Clone, Copy, Debug, PartialEq, Eq, Structural)]
pub enum WlanConfig {
    ApSsid,
    ApChannel,
    ApHiddenSsid,
    ApSecurityType,
    ApPassword,
    GeneralCountryCode,
    GeneralStaTxPower,
    GeneralApTxPower,
    P2pDevName,
    P2pDevType,
    P2pChannelRegs,
    GeneralInfoElement,
    GeneralScanParams,
}

impl WlanConfig {
    /// The vendor's numeric code for this value.
    pub open spec fn spec_code(self) -> int {
        match self {
            WlanConfig::ApSsid => 0,
            WlanConfig::ApChannel => 3,
            WlanConfig::ApHiddenSsid => 4,
            WlanConfig::ApSecurityType => 6,
            WlanConfig::ApPassword => 7,
            WlanConfig::GeneralCountryCode => 265,
            WlanConfig::GeneralStaTxPower => 266,
            WlanConfig::GeneralApTxPower => 267,
            WlanConfig::P2pDevName => 524,
            WlanConfig::P2pDevType => 525,
            WlanConfig::P2pChannelRegs => 526,
            WlanConfig::GeneralInfoElement => 272,
            WlanConfig::GeneralScanParams => 274,
        }
    }

    /// The vendor's numeric code for this value.
    pub fn code(self) -> (r: i32)
        ensures
            r == self.spec_code(),
    {
        match self {
            WlanConfig::ApSsid => 0,
            WlanConfig::ApChannel => 3,
            WlanConfig::ApHiddenSsid => 4,
            WlanConfig::ApSecurityType => 6,
            WlanConfig::ApPassword => 7,
            WlanConfig::GeneralCountryCode => 265,
            WlanConfig::GeneralStaTxPower => 266,
            WlanConfig::GeneralApTxPower => 267,
            WlanConfig::P2pDevName => 524,
            WlanConfig::P2pDevType => 525,
            WlanConfig::P2pChannelRegs => 526,
            WlanConfig::GeneralInfoElement => 272,
            WlanConfig::GeneralScanParams => 274,
        }
    }

    /// What decoding `v` gives: the value whose code is `v`, or a
    /// `ValueError` that carries `v` when there is none.
    pub open spec fn decoded(v: i32) -> Result<WlanConfig, SimpleLinkError> {
        if exists|e: WlanConfig| e.spec_code() == v {
            Ok(choose|e: WlanConfig| e.spec_code() == v)
        } else {
            Err(SimpleLinkError::ValueError(EnumKind::WlanConfig, v))
        }
    }

    spec fn by_code(v: int) -> Option<WlanConfig> {
        if v == 0 {
            Some(WlanConfig::ApSsid)
        } else if v == 3 {
            Some(WlanConfig::ApChannel)
        } else if v == 4 {
            Some(WlanConfig::ApHiddenSsid)
        } else if v == 6 {
            Some(WlanConfig::ApSecurityType)
        } else if v == 7 {
            Some(WlanConfig::ApPassword)
        } else if v == 265 {
            Some(WlanConfig::GeneralCountryCode)
        } else if v == 266 {
            Some(WlanConfig::GeneralStaTxPower)
        } else if v == 267 {
            Some(WlanConfig::GeneralApTxPower)
        } else if v == 524 {
            Some(WlanConfig::P2pDevName)
        } else if v == 525 {
            Some(WlanConfig::P2pDevType)
        } else if v == 526 {
            Some(WlanConfig::P2pChannelRegs)
        } else if v == 272 {
            Some(WlanConfig::GeneralInfoElement)
        } else if v == 274 {
            Some(WlanConfig::GeneralScanParams)
        } else {
            None
        }
    }

    /// Decodes a vendor code. Every code outside the set is an error that
    /// carries the code, never a guess at a nearby variant.
    pub fn try_from_code(v: i32) -> (r: Result<WlanConfig, SimpleLinkError>)
        ensures
            r == WlanConfig::decoded(v),
    {
        let r = match v {
            0 => Ok(WlanConfig::ApSsid),
            3 => Ok(WlanConfig::ApChannel),
            4 => Ok(WlanConfig::ApHiddenSsid),
            6 => Ok(WlanConfig::ApSecurityType),
            7 => Ok(WlanConfig::ApPassword),
            265 => Ok(WlanConfig::GeneralCountryCode),
            266 => Ok(WlanConfig::GeneralStaTxPower),
            267 => Ok(WlanConfig::GeneralApTxPower),
            524 => Ok(WlanConfig::P2pDevName),
            525 => Ok(WlanConfig::P2pDevType),
            526 => Ok(WlanConfig::P2pChannelRegs),
            272 => Ok(WlanConfig::GeneralInfoElement),
            274 => Ok(WlanConfig::GeneralScanParams),
            _ => Err(SimpleLinkError::ValueError(EnumKind::WlanConfig, v)),
        };
        proof {
            if let Ok(e) = r {
                WlanConfig::lemma_decode_code(e);
            }
        }
        r
    }

    /// Every variant decodes back from its own code.
    pub proof fn lemma_decode_code(e: WlanConfig)
        ensures
            WlanConfig::decoded(e.spec_code() as i32) == Ok::<WlanConfig, SimpleLinkError>(e),
    {
        assert(WlanConfig::by_code(e.spec_code()) == Some(e));
        assert forall|e2: WlanConfig| e2.spec_code() == e.spec_code() implies e2 == e by {
            assert(WlanConfig::by_code(e2.spec_code()) == Some(e2));
        }
    }

    /// A code that no variant has decodes to a `ValueError` carrying it.
    pub proof fn lemma_decode_unknown(v: i32)
        requires
            forall|e: WlanConfig| e.spec_code() != v,
        ensures
            WlanConfig::decoded(v) == Err::<WlanConfig, SimpleLinkError>(SimpleLinkError::ValueError(EnumKind::WlanConfig, v)),
    {
    }
}

/// Operations on the receive filters.
#[allow(non_camel_case_types)]
#[derive(Clone, Copy, Debug, PartialEq, Eq, Structural)]
pub enum WlanRxFilterOp {
    EnableDisable,
    Remove,
    Store,
}

impl WlanRxFilterOp {
    /// The vendor's numeric code for this value.
    pub open spec fn spec_code(self) -> int {
        match self {
            WlanRxFilterOp::EnableDisable => 0,
            WlanRxFilterOp::Remove => 1,
            WlanRxFilterOp::Store => 2,
        }
    }

    /// The vendor's numeric code for this value.
    pub fn code(self) -> (r: i32)
        ensures
            r == self.spec_code(),
    {
        match self {
            WlanRxFilterOp::EnableDisable => 0,
            WlanRxFilterOp::Remove => 1,
            WlanRxFilterOp::Store => 2,
        }
    }

    /// What decoding `v` gives: the value whose code is `v`, or a
    /// `ValueError` that carries `v` when there is none.
    pub open spec fn decoded(v: i32) -> Result<WlanRxFilterOp, SimpleLinkError> {
        if exists|e: WlanRxFilterOp| e.spec_code() == v {
            Ok(choose|e: WlanRxFilterOp| e.spec_code() == v)
        } else {
            Err(SimpleLinkError::ValueError(EnumKind::WlanRxFilterOp, v))
        }
    }

    spec fn by_code(v: int) -> Option<WlanRxFilterOp> {
        if v == 0 {
            Some(WlanRxFilterOp::EnableDisable)
        } else if v == 1 {
            Some(WlanRxFilterOp::Remove)
        } else if v == 2 {
            Some(WlanRxFilterOp::Store)
        } else {
            None
        }
    }

    /// Decodes a vendor code. Every code outside the set is an error that
    /// carries the code, never a guess at a nearby variant.
    pub fn try_from_code(v: i32) -> (r: Result<WlanRxFilterOp, SimpleLinkError>)
        ensures
            r == WlanRxFilterOp::decoded(v),
    {
        let r = match v {
            0 => Ok(WlanRxFilterOp::EnableDisable),
            1 => Ok(WlanRxFilterOp::Remove),
            2 => Ok(WlanRxFilterOp::Store),
            _ => Err(SimpleLinkError::ValueError(EnumKind::WlanRxFilterOp, v)),
        };
        proof {
            if let Ok(e) = r {
                WlanRxFilterOp::lemma_decode_code(e);
            }
        }
        r
    }

    /// Every variant decodes back from its own code.
    pub proof fn lemma_decode_code(e: WlanRxFilterOp)
        ensures
            WlanRxFilterOp::decoded(e.spec_code() as i32) == Ok::<WlanRxFilterOp, SimpleLinkError>(e),
    {
        assert(WlanRxFilterOp::by_code(e.spec_code()) == Some(e));
        assert forall|e2: WlanRxFilterOp| e2.spec_code() == e.spec_code() implies e2 == e by {
            assert(WlanRxFilterOp::by_code(e2.spec_code()) == Some(e2));
        }
    }

    /// A code that no variant has decodes to a `ValueError` carrying it.
    pub proof fn lemma_decode_unknown(v: i32)
        requires
            forall|e: WlanRxFilterOp| e.spec_code() != v,
        ensures
            WlanRxFilterOp::decoded(v) == Err::<WlanRxFilterOp, SimpleLinkError>(SimpleLinkError::ValueError(EnumKind::WlanRxFilterOp, v)),
    {
    }
}

/// Security types of a WLAN connection.
#[allow(non_camel_case_types)]
#[derive(Clone, Copy, Debug, PartialEq, Eq, Structural)]
pub enum SecurityType {
    Open,
    Wep,
    Wpa2,
    WpsPushButtonConfig,
    WpsPin,
    WpaEnterprise,
    P2pPushButtonConfig,
    P2pPinKeypad,
    P2pPinDisplay,
}

impl SecurityType {
    /// The vendor's numeric code for this value.
    pub open spec fn spec_code(self) -> int {
        match self {
            SecurityType::Open => 0,
            SecurityType::Wep => 1,
            SecurityType::Wpa2 => 2,
            SecurityType::WpsPushButtonConfig => 3,
            SecurityType::WpsPin => 4,
            SecurityType::WpaEnterprise => 5,
            SecurityType::P2pPushButtonConfig => 6,
            SecurityType::P2pPinKeypad => 7,
            SecurityType::P2pPinDisplay => 8,
        }
    }

    /// The vendor's numeric code for this value.
    pub fn code(self) -> (r: i32)
        ensures
            r == self.spec_code(),
    {
        match self {
            SecurityType::Open => 0,
            SecurityType::Wep => 1,
            SecurityType::Wpa2 => 2,
            SecurityType::WpsPushButtonConfig => 3,
            SecurityType::WpsPin => 4,
            SecurityType::WpaEnterprise => 5,
            SecurityType::P2pPushButtonConfig => 6,
            SecurityType::P2pPinKeypad => 7,
            SecurityType::P2pPinDisplay => 8,
        }
    }

    /// What decoding `v` gives: the value whose code is `v`, or a
    /// `ValueError` that carries `v` when there is none.
    pub open spec fn decoded(v: i32) -> Result<SecurityType, SimpleLinkError> {
        if exists|e: SecurityType| e.spec_code() == v {
            Ok(choose|e: SecurityType| e.spec_code() == v)
        } else {
            Err(SimpleLinkError::ValueError(EnumKind::SecurityType, v))
        }
    }

    spec fn by_code(v: int) -> Option<SecurityType> {
        if v == 0 {
            Some(SecurityType::Open)
        } else if v == 1 {
            Some(SecurityType::Wep)
        } else if v == 2 {
            Some(SecurityType::Wpa2)
        } else if v == 3 {
            Some(SecurityType::WpsPushButtonConfig)
        } else if v == 4 {
            Some(SecurityType::WpsPin)
        } else if v == 5 {
            Some(SecurityType::WpaEnterprise)
        } else if v == 6 {
            Some(SecurityType::P2pPushButtonConfig)
        } else if v == 7 {
            Some(SecurityType::P2pPinKeypad)
        } else if v == 8 {
            Some(SecurityType::P2pPinDisplay)
        } else {
            None
        }
    }

    /// Decodes a vendor code. Every code outside the set is an error that
    /// carries the code, never a guess at a nearby variant.
    pub fn try_from_code(v: i32) -> (r: Result<SecurityType, SimpleLinkError>)
        ensures
            r == SecurityType::decoded(v),
    {
        let r = match v {
            0 => Ok(SecurityType::Open),
            1 => Ok(SecurityType::Wep),
            2 => Ok(SecurityType::Wpa2),
            3 => Ok(SecurityType::WpsPushButtonConfig),
            4 => Ok(SecurityType::WpsPin),
            5 => Ok(SecurityType::WpaEnterprise),
            6 => Ok(SecurityType::P2pPushButtonConfig),
            7 => Ok(SecurityType::P2pPinKeypad),
            8 => Ok(SecurityType::P2pPinDisplay),
            _ => Err(SimpleLinkError::ValueError(EnumKind::SecurityType, v)),
        };
        proof {
            if let Ok(e) = r {
                SecurityType::lemma_decode_code(e);
            }
        }
        r
    }

    /// Every variant decodes back from its own code.
    pub proof fn lemma_decode_code(e: SecurityType)
        ensures
            SecurityType::decoded(e.spec_code() as i32) == Ok::<SecurityType, SimpleLinkError>(e),
    {
        assert(SecurityType::by_code(e.spec_code()) == Some(e));
        assert forall|e2: SecurityType| e2.spec_code() == e.spec_code() implies e2 == e by {
            assert(SecurityType::by_code(e2.spec_code()) == Some(e2));
        }
    }

    /// A code that no variant has decodes to a `ValueError` carrying it.
    pub proof fn lemma_decode_unknown(v: i32)
        requires
            forall|e: SecurityType| e.spec_code() != v,
        ensures
            SecurityType::decoded(v) == Err::<SecurityType, SimpleLinkError>(SimpleLinkError::ValueError(EnumKind::SecurityType, v)),
    {
    }
}


/// Priority of the task that delivers the network processor's events.
pub const SPAWN_TASK_PRIORITY: u32 = 9;

/// Time given to the network processor to stop, in milliseconds.
pub const SL_STOP_TIMEOUT: u16 = 200;

/// Length of a MAC address in bytes.
pub const SL_MAC_ADDR_LEN: usize = 6;

/// A configuration selector split into the two bytes the vendor calls take:
/// the id from bits 8 to 15 and the option from bits 0 to 7.
pub fn split_selector(code: i32) -> (r: (u8, u8))
    requires
        0 <= code < 65536,
    ensures
        r.0 == code / 256,
        r.1 == code % 256,
{
    ((code / 256) as u8, (code % 256) as u8)
}

impl Policy {
    /// The policy type and the policy option.
    pub fn selector(self) -> (r: (u8, u8))
        ensures
            r.0 == self.spec_code() / 256,
            r.1 == self.spec_code() % 256,
    {
        split_selector(self.code())
    }
}

impl NetConfigSet {
    /// The configuration id and the configuration option.
    pub fn selector(self) -> (r: (u8, u8))
        ensures
            r.0 == self.spec_code() / 256,
            r.1 == self.spec_code() % 256,
    {
        split_selector(self.code())
    }
}

impl WlanConfig {
    /// The configuration id and the configuration option.
    pub fn selector(self) -> (r: (u8, u8))
        ensures
            r.0 == self.spec_code() / 256,
            r.1 == self.spec_code() % 256,
    {
        split_selector(self.code())
    }
}

/// The mask of receive filters an operation applies to.
pub struct WlanRxFilterOpBuf {
    pub mask: [u8; 16],
    /// Bytes that follow the mask in the vendor's layout.
    pub padding: [u8; 4],
}

impl WlanRxFilterOpBuf {
    /// A mask that selects every filter.
    pub fn all_filters() -> (r: Self)
        ensures
            r.mask@ == repeat(255u8, 16),
            r.padding@ == repeat(0u8, 4),
    {
        let r = WlanRxFilterOpBuf { mask: [255u8; 16], padding: [0u8; 4] };
        assert(r.mask@ =~= repeat(255u8, 16));
        assert(r.padding@ =~= repeat(0u8, 4));
        r
    }
}

/// Security parameters of a WLAN connection.
pub struct SlSecParams {
    pub sec_type: u8,
    pub key: Vec<u8>,
    /// The key's length as the vendor takes it: one byte.
    pub key_len: u8,
}

impl SlSecParams {
    /// WPA2 parameters with the passphrase `key`.
    pub fn wpa2(key: &str) -> (r: Self)
        ensures
            r.sec_type == SecurityType::Wpa2.spec_code(),
            r.key@ == key.spec_bytes(),
            r.key_len == key.spec_bytes().len() % 256,
    {
        let bytes = key.as_bytes();
        let mut v: Vec<u8> = Vec::new();
        let mut i: usize = 0;
        while i < bytes.len()
            invariant
                i <= bytes@.len(),
                v@ == bytes@.subrange(0, i as int),
            decreases bytes@.len() - i,
        {
            v.push(bytes[i]);
            i = i + 1;
            assert(v@ =~= bytes@.subrange(0, i as int));
        }
        assert(v@ =~= bytes@);
        let len = bytes.len();
        SlSecParams { sec_type: SecurityType::Wpa2.code() as u8, key: v, key_len: (len % 256) as u8 }
    }
}

/// Extended (enterprise) security parameters of a WLAN connection.
pub struct SlSecParamsExt {
    pub user: Vec<u8>,
    pub user_len: u8,
    pub anon_user: Vec<u8>,
    pub anon_user_len: u8,
    /// Not supported by the network processor.
    pub cert_index: u8,
    pub eap_method: u32,
}

/// Versions of the chip and of its firmware.
pub struct SlVersionFull {
    pub chip_id: u32,
    pub fw_version: [u32; 4],
    pub phy_version: [u8; 4],
    pub nwp_version: [u32; 4],
    pub rom_version: u16,
}

/// The report of a finished ping run.
#[derive(Clone, Copy, Debug)]
pub struct SlPingReport {
    pub packets_sent: u32,
    pub packets_rcvd: u32,
    pub min_round_time: u16,
    pub max_round_time: u16,
    pub avg_round_time: u16,
    pub test_time: u32,
}

/// Parameters of a ping run.
#[derive(Clone, Copy, Debug)]
pub struct SlPingStartCommand {
    /// Delay between pings, in milliseconds.
    pub ping_interval_time: u32,
    /// Size of a ping packet, in bytes.
    pub ping_size: u16,
    /// Timeout of each ping, in milliseconds.
    pub ping_request_timeout: u16,
    /// Number of pings to send; zero sends forever.
    pub total_number_of_attempts: u32,
    /// Zero reports once at the end, one reports every ping, two stops after
    /// the first answer.
    pub flags: u32,
    /// IPv4 address.
    pub ip: u32,
    pub ip1_or_padding: u32,
    pub ip2_or_padding: u32,
    pub ip3_or_padding: u32,
}

/// What the file system knows of a file.
#[derive(Clone, Copy, Debug)]
pub struct SlFsFileInfo {
    pub flags: u16,
    pub file_length: u32,
    pub allocated_length: u32,
    pub token: [u32; 4],
}

/// Size of a ping report record: packets sent and received, minimum,
/// maximum and average round time, 2 bytes of padding, and the test time.
pub const PING_REPORT_SIZE: usize = 20;

/// Size of a version record: chip id, four firmware words, four PHY bytes,
/// four network-processor words, the ROM version and 2 bytes of padding.
pub const VERSION_SIZE: usize = 44;

impl SlPingReport {
    /// Copies a ping report out of the bytes of the driver's record
    /// (little-endian); `None` when the buffer is too short.
    pub fn from_bytes(b: &[u8]) -> (r: Option<SlPingReport>)
        ensures
            r is Some <==> b@.len() >= PING_REPORT_SIZE,
            r matches Some(p) ==> {
                &&& p.packets_sent == le_u32(b@, 0)
                &&& p.packets_rcvd == le_u32(b@, 4)
                &&& p.min_round_time == le_u16(b@, 8)
                &&& p.max_round_time == le_u16(b@, 10)
                &&& p.avg_round_time == le_u16(b@, 12)
                &&& p.test_time == le_u32(b@, 16)
            },
    {
        if b.len() < PING_REPORT_SIZE {
            return None;
        }
        Some(
            SlPingReport {
                packets_sent: read_le_u32(b, 0),
                packets_rcvd: read_le_u32(b, 4),
                min_round_time: read_le_u16(b, 8),
                max_round_time: read_le_u16(b, 10),
                avg_round_time: read_le_u16(b, 12),
                test_time: read_le_u32(b, 16),
            },
        )
    }
}

impl SlVersionFull {
    /// Copies the version record out of the bytes the device returned
    /// (little-endian); `None` when the buffer is too short.
    pub fn from_bytes(b: &[u8]) -> (r: Option<SlVersionFull>)
        ensures
            r is Some <==> b@.len() >= VERSION_SIZE,
            r matches Some(v) ==> {
                &&& v.chip_id == le_u32(b@, 0)
                &&& forall|i: int| 0 <= i < 4 ==> v.fw_version@[i] == le_u32(b@, 4 + 4 * i)
                &&& v.phy_version@ == b@.subrange(20, 24)
                &&& forall|i: int| 0 <= i < 4 ==> v.nwp_version@[i] == le_u32(b@, 24 + 4 * i)
                &&& v.rom_version == le_u16(b@, 40)
            },
    {
        if b.len() < VERSION_SIZE {
            return None;
        }
        let fw: [u32; 4] = [read_le_u32(b, 4), read_le_u32(b, 8), read_le_u32(b, 12), read_le_u32(b, 16)];
        let phy: [u8; 4] = [b[20], b[21], b[22], b[23]];
        let nwp: [u32; 4] = [read_le_u32(b, 24), read_le_u32(b, 28), read_le_u32(b, 32), read_le_u32(b, 36)];
        let v = SlVersionFull {
            chip_id: read_le_u32(b, 0),
            fw_version: fw,
            phy_version: phy,
            nwp_version: nwp,
            rom_version: read_le_u16(b, 40),
        };
        assert(v.phy_version@ =~= b@.subrange(20, 24));
        Some(v)
    }
}

} // verus!
