//! Types of the vendor's socket interface.
use vstd::prelude::*;
use crate::error::{SimpleLinkError, SocketError};

verus! {

/// A socket descriptor, or a negative error code where one is returned.
pub type RawSocket = i16;

/// A byte count, or a negative error code.
pub type SizeOrError = i16;

#[allow(non_camel_case_types)]
pub type SlSocklen_t = i16;

/// Socket address families.
#[allow(non_camel_case_types)]
#[derive(Clone, Copy, Debug, PartialEq, Eq, Structural)]
pub enum Family {
    AF_INET,
    AF_INET6,
    AF_RF,
    AF_INET6_EUI_48,
    AF_PACKET,
}

impl Family {
    /// The vendor's numeric code for this value.
    pub open spec fn spec_code(self) -> int {
        match self {
            Family::AF_INET => 2,
            Family::AF_INET6 => 3,
            Family::AF_RF => 6,
            Family::AF_INET6_EUI_48 => 9,
            Family::AF_PACKET => 17,
        }
    }

    /// The vendor's numeric code for this value.
    pub fn code(self) -> (r: i32)
        ensures
            r == self.spec_code(),
    {
        match self {
            Family::AF_INET => 2,
            Family::AF_INET6 => 3,
            Family::AF_RF => 6,
            Family::AF_INET6_EUI_48 => 9,
            Family::AF_PACKET => 17,
        }
    }
}

/// Socket protocols.
#[allow(non_camel_case_types)]
#[derive(Clone, Copy, Debug, PartialEq, Eq, Structural)]
pub enum Protocol {
    DEFAULT,
    IPPROTO_TCP,
    IPPROTO_UDP,
    IPPROTO_RAW,
}

impl Protocol {
    /// The vendor's numeric code for this value.
    pub open spec fn spec_code(self) -> int {
        match self {
            Protocol::DEFAULT => 0,
            Protocol::IPPROTO_TCP => 6,
            Protocol::IPPROTO_UDP => 17,
            Protocol::IPPROTO_RAW => 255,
        }
    }

    /// The vendor's numeric code for this value.
    pub fn code(self) -> (r: i32)
        ensures
            r == self.spec_code(),
    {
        match self {
            Protocol::DEFAULT => 0,
            Protocol::IPPROTO_TCP => 6,
            Protocol::IPPROTO_UDP => 17,
            Protocol::IPPROTO_RAW => 255,
        }
    }
}

/// Socket types.
#[allow(non_camel_case_types)]
#[derive(Clone, Copy, Debug, PartialEq, Eq, Structural)]
pub enum SocketType {
    SOCK_STREAM,
    SOCK_DGRAM,
    SOCK_RAW,
}

impl SocketType {
    /// The vendor's numeric code for this value.
    pub open spec fn spec_code(self) -> int {
        match self {
            SocketType::SOCK_STREAM => 1,
            SocketType::SOCK_DGRAM => 2,
            SocketType::SOCK_RAW => 3,
        }
    }

    /// The vendor's numeric code for this value.
    pub fn code(self) -> (r: i32)
        ensures
            r == self.spec_code(),
    {
        match self {
            SocketType::SOCK_STREAM => 1,
            SocketType::SOCK_DGRAM => 2,
            SocketType::SOCK_RAW => 3,
        }
    }
}

/// The truth values the socket layer returns.
#[allow(non_camel_case_types)]
#[derive(Clone, Copy, Debug, PartialEq, Eq, Structural)]
pub enum SlBoolean {
    True,
    False,
}

impl SlBoolean {
    /// The vendor's numeric code for this value.
    pub open spec fn spec_code(self) -> int {
        match self {
            SlBoolean::True => 1,
            SlBoolean::False => 0,
        }
    }

    /// The vendor's numeric code for this value.
    pub fn code(self) -> (r: i32)
        ensures
            r == self.spec_code(),
    {
        match self {
            SlBoolean::True => 1,
            SlBoolean::False => 0,
        }
    }
}

/// Categories of socket options.
#[allow(non_camel_case_types)]
#[derive(Clone, Copy, Debug, PartialEq, Eq, Structural)]
pub enum OptionLevel {
    SOL_SOCKET,
    IPPROTO_IP,
    SOL_PHY_OPT,
}

impl OptionLevel {
    /// The vendor's numeric code for this value.
    pub open spec fn spec_code(self) -> int {
        match self {
            OptionLevel::SOL_SOCKET => 1,
            OptionLevel::IPPROTO_IP => 2,
            OptionLevel::SOL_PHY_OPT => 3,
        }
    }

    /// The vendor's numeric code for this value.
    pub fn code(self) -> (r: i32)
        ensures
            r == self.spec_code(),
    {
        match self {
            OptionLevel::SOL_SOCKET => 1,
            OptionLevel::IPPROTO_IP => 2,
            OptionLevel::SOL_PHY_OPT => 3,
        }
    }
}

/// Socket options.
#[allow(non_camel_case_types)]
#[derive(Clone, Copy, Debug, PartialEq, Eq, Structural)]
pub enum OptionName {
    SO_RCVBUF,
    SO_KEEPALIVE,
    SO_RCVTIMEO,
    SO_NONBLOCKING,
    SO_SECMETHOD,
    SO_SECURE_MASK,
    SO_SECURE_FILES,
    SO_CHANGE_CHANNEL,
    SO_SECURE_FILES_PRIVATE_KEY_FILE_NAME,
    SO_SECURE_FILES_CERTIFICATE_FILE_NAME,
    SO_SECURE_FILES_CA_FILE_NAME,
    SO_SECURE_FILES_DH_KEY_FILE_NAME,
    SO_SECURE_DOMAIN_NAME_VERIFICATION,
    IP_MULTICAST_IF,
    IP_MULTICAST_TTL,
    IP_ADD_MEMBERSHIP,
    IP_DROP_MEMBERSHIP,
    IP_HDRINCL,
    IP_RAW_RX_NO_HEADER,
    IP_RAW_IPV6_HDRINCL,
    SO_PHY_RATE,
    SO_PHY_TX_POWER,
    SO_PHY_NUM_FRAMES_TO_TX,
    SO_PHY_PREAMBLE,
}

impl OptionName {
    /// The vendor's numeric code for this value.
    pub open spec fn spec_code(self) -> int {
        match self {
            OptionName::SO_RCVBUF => 8,
            OptionName::SO_KEEPALIVE => 9,
            OptionName::SO_RCVTIMEO => 20,
            OptionName::SO_NONBLOCKING => 24,
            OptionName::SO_SECMETHOD => 25,
            OptionName::SO_SECURE_MASK => 26,
            OptionName::SO_SECURE_FILES => 27,
            OptionName::SO_CHANGE_CHANNEL => 28,
            OptionName::SO_SECURE_FILES_PRIVATE_KEY_FILE_NAME => 30,
            OptionName::SO_SECURE_FILES_CERTIFICATE_FILE_NAME => 31,
            OptionName::SO_SECURE_FILES_CA_FILE_NAME => 32,
            OptionName::SO_SECURE_FILES_DH_KEY_FILE_NAME => 33,
            OptionName::SO_SECURE_DOMAIN_NAME_VERIFICATION => 35,
            OptionName::IP_MULTICAST_IF => 60,
            OptionName::IP_MULTICAST_TTL => 61,
            OptionName::IP_ADD_MEMBERSHIP => 65,
            OptionName::IP_DROP_MEMBERSHIP => 66,
            OptionName::IP_HDRINCL => 67,
            OptionName::IP_RAW_RX_NO_HEADER => 68,
            OptionName::IP_RAW_IPV6_HDRINCL => 69,
            OptionName::SO_PHY_RATE => 100,
            OptionName::SO_PHY_TX_POWER => 101,
            OptionName::SO_PHY_NUM_FRAMES_TO_TX => 102,
            OptionName::SO_PHY_PREAMBLE => 103,
        }
    }

    /// The vendor's numeric code for this value.
    pub fn code(self) -> (r: i32)
        ensures
            r == self.spec_code(),
    {
        match self {
            OptionName::SO_RCVBUF => 8,
            OptionName::SO_KEEPALIVE => 9,
            OptionName::SO_RCVTIMEO => 20,
            OptionName::SO_NONBLOCKING => 24,
            OptionName::SO_SECMETHOD => 25,
            OptionName::SO_SECURE_MASK => 26,
            OptionName::SO_SECURE_FILES => 27,
            OptionName::SO_CHANGE_CHANNEL => 28,
            OptionName::SO_SECURE_FILES_PRIVATE_KEY_FILE_NAME => 30,
            OptionName::SO_SECURE_FILES_CERTIFICATE_FILE_NAME => 31,
            OptionName::SO_SECURE_FILES_CA_FILE_NAME => 32,
            OptionName::SO_SECURE_FILES_DH_KEY_FILE_NAME => 33,
            OptionName::SO_SECURE_DOMAIN_NAME_VERIFICATION => 35,
            OptionName::IP_MULTICAST_IF => 60,
            OptionName::IP_MULTICAST_TTL => 61,
            OptionName::IP_ADD_MEMBERSHIP => 65,
            OptionName::IP_DROP_MEMBERSHIP => 66,
            OptionName::IP_HDRINCL => 67,
            OptionName::IP_RAW_RX_NO_HEADER => 68,
            OptionName::IP_RAW_IPV6_HDRINCL => 69,
            OptionName::SO_PHY_RATE => 100,
            OptionName::SO_PHY_TX_POWER => 101,
            OptionName::SO_PHY_NUM_FRAMES_TO_TX => 102,
            OptionName::SO_PHY_PREAMBLE => 103,
        }
    }
}


/// The error a negative socket code stands for.
pub open spec fn socket_failure(rc: i32) -> SimpleLinkError {
    match SocketError::decoded(rc) {
        Ok(e) => SimpleLinkError::Socket(e),
        Err(err) => err,
    }
}

/// A byte count from a call that returns a count or a negative error code.
pub fn size_or_error(v: SizeOrError) -> (r: Result<usize, SimpleLinkError>)
    ensures
        v >= 0 ==> r == Ok::<usize, SimpleLinkError>(v as usize),
        v < 0 ==> r == Err::<usize, SimpleLinkError>(socket_failure(v as i32)),
{
    if v >= 0 {
        Ok(v as usize)
    } else {
        match SocketError::try_from_code(v as i32) {
            Ok(e) => Err(SimpleLinkError::Socket(e)),
            Err(err) => Err(err),
        }
    }
}

/// A socket address of any family.
#[allow(non_camel_case_types)]
#[derive(Clone, Copy, Debug)]
pub struct SlSockAddr_t {
    pub family: Family,
    pub data: [u8; 14],
}

/// An IPv4 socket address.
#[allow(non_camel_case_types)]
#[derive(Clone, Copy, Debug)]
pub struct SlSockAddrIn_t {
    pub sin_family: Family,
    /// Port, in network byte order.
    pub sin_port: u16,
    /// Address, in network byte order.
    pub sin_addr: u32,
    pub sin_zero: [u8; 8],
}

/// A set of socket descriptors, one bit each.
#[allow(non_camel_case_types)]
#[derive(Clone, Copy, Debug)]
pub struct SlFdSet_t {
    pub fd_array: [u32; 1],
}

/// A timeout of a select call.
#[allow(non_camel_case_types)]
#[derive(Clone, Copy, Debug)]
pub struct SlTimeval_t {
    pub tv_sec: u32,
    pub tv_usec: u32,
}

} // verus!
