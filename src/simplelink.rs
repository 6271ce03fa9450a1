//! The SimpleLink status object: the event handlers that change it, the
//! queries the controller makes of it, and the meaning of what the vendor's
//! calls return.
//!
//! A `SimpleLink` is an explicit value rather than a process-wide global.
//! Every change is one call on `&mut SimpleLink`, which writes the flags and
//! the connection details together, so whoever shares it behind a lock sees
//! each event whole.
use vstd::prelude::*;
use crate::error::{EnumKind, FileSystemError, OsiError, SimpleLinkError, WlanError};
use crate::events::{
    DeviceEventReport, NetAppEvent, NetAppEventReport, SlDeviceDriverError, SlDeviceEvent,
    SlNetAppEvent, SlSockEvent, SlSocketEventNum, SlWlanEvent, SockEventReport,
    WlanDisconnectReason, WlanEvent, WlanEventReport,
};
use crate::error::SocketError;
use crate::format::repeat;
use crate::status::{ConnectionState, SimpleLinkGlobalsInner};
use crate::types::{SlPingReport, StatusBit, WlanMode};

verus! {

/// The SSID that a connect event reports: its first `ssid_len` bytes, at
/// most 32.
pub open spec fn event_ssid(e: SlWlanEvent) -> Seq<u8> {
    e.info.ssid_name@.subrange(
        0,
        if e.info.ssid_len <= 32 {
            e.info.ssid_len as int
        } else {
            32
        },
    )
}

/// The state after a WLAN event.
///
/// A connect event records the SSID and BSSID and sets the connection flag;
/// a disconnect event clears the connection and IP flags and forgets the
/// SSID and BSSID; any other kind changes nothing.
pub open spec fn wlan_event_next(s: ConnectionState, e: SlWlanEvent) -> ConnectionState {
    match WlanEvent::decoded(e.event_type) {
        Ok(WlanEvent::SL_WLAN_CONNECT_EVENT) => ConnectionState {
            flags: s.flags.insert(StatusBit::STATUS_BIT_CONNECTION),
            ssid: event_ssid(e),
            bssid: e.info.bssid@,
            ..s
        },
        Ok(WlanEvent::SL_WLAN_DISCONNECT_EVENT) => ConnectionState {
            flags: s.flags.remove(StatusBit::STATUS_BIT_CONNECTION).remove(
                StatusBit::STATUS_BIT_IP_ACQUIRED,
            ),
            ssid: Seq::empty(),
            bssid: repeat(0u8, 6),
            ..s
        },
        Err(_) => s,
    }
}

/// The state after a network-application event: an IPv4 lease records the
/// gateway and sets the IP flag; any other kind changes nothing.
pub open spec fn netapp_event_next(s: ConnectionState, e: SlNetAppEvent) -> ConnectionState {
    match NetAppEvent::decoded(e.event) {
        Ok(NetAppEvent::SL_NETAPP_IPV4_IPACQUIRED_EVENT) => ConnectionState {
            flags: s.flags.insert(StatusBit::STATUS_BIT_IP_ACQUIRED),
            gateway_ip: e.gateway,
            ..s
        },
        Err(_) => s,
    }
}

/// The state after a ping report: the packet count is recorded and the
/// ping flag set.
pub open spec fn ping_report_next(s: ConnectionState, report: SlPingReport) -> ConnectionState {
    ConnectionState {
        flags: s.flags.insert(StatusBit::STATUS_BIT_PING_DONE),
        ping_packets_received: report.packets_rcvd,
        ..s
    }
}

/// The state after a reset, whatever it was before.
pub open spec fn reset_next(s: ConnectionState) -> ConnectionState {
    ConnectionState::cleared()
}

/// The error a negative code of the WLAN layer stands for.
pub open spec fn wlan_failure(rc: i32) -> SimpleLinkError {
    match WlanError::decoded(rc) {
        Ok(e) => SimpleLinkError::Wlan(e),
        Err(err) => err,
    }
}

/// The error a negative code of the operating-system interface stands for.
pub open spec fn osi_failure(rc: i32) -> SimpleLinkError {
    match OsiError::decoded(rc) {
        Ok(e) => SimpleLinkError::Osi(e),
        Err(err) => err,
    }
}

/// The error a negative code of the file system stands for.
pub open spec fn fs_failure(rc: i32) -> SimpleLinkError {
    match FileSystemError::decoded(rc) {
        Ok(e) => SimpleLinkError::FileSystem(e),
        Err(err) => err,
    }
}

/// What a mode-returning WLAN call means: a negative code is an error, any
/// other is the mode.
pub open spec fn mode_result(rc: i16) -> Result<WlanMode, SimpleLinkError> {
    if rc < 0 {
        Err(wlan_failure(rc as i32))
    } else {
        WlanMode::decoded(rc as i32)
    }
}

/// What a WLAN call that returns no value means.
pub open spec fn unit_result(rc: int) -> Result<(), SimpleLinkError> {
    if rc < 0 {
        Err(wlan_failure(rc as i32))
    } else {
        Ok(())
    }
}

/// Checks the status code of a WLAN call: a negative code becomes its
/// error, any other is handed back.
pub fn check_wlan(rc: i32) -> (r: Result<i32, SimpleLinkError>)
    ensures
        rc < 0 ==> r == Err::<i32, SimpleLinkError>(wlan_failure(rc)),
        rc >= 0 ==> r == Ok::<i32, SimpleLinkError>(rc),
{
    if rc < 0 {
        match WlanError::try_from_code(rc) {
            Ok(e) => Err(SimpleLinkError::Wlan(e)),
            Err(err) => Err(err),
        }
    } else {
        Ok(rc)
    }
}

/// Checks the status code of a file-system call: a negative code becomes
/// its error, any other is handed back.
pub fn check_fs(rc: i32) -> (r: Result<i32, SimpleLinkError>)
    ensures
        rc < 0 ==> r == Err::<i32, SimpleLinkError>(fs_failure(rc)),
        rc >= 0 ==> r == Ok::<i32, SimpleLinkError>(rc),
{
    if rc < 0 {
        match FileSystemError::try_from_code(rc) {
            Ok(e) => Err(SimpleLinkError::FileSystem(e)),
            Err(err) => Err(err),
        }
    } else {
        Ok(rc)
    }
}

fn check_unit(rc: i32) -> (r: Result<(), SimpleLinkError>)
    ensures
        r == unit_result(rc as int),
{
    match check_wlan(rc) {
        Ok(_) => Ok(()),
        Err(e) => Err(e),
    }
}

fn check_mode(rc: i16) -> (r: Result<WlanMode, SimpleLinkError>)
    ensures
        r == mode_result(rc),
{
    match check_wlan(rc as i32) {
        Ok(v) => WlanMode::try_from_code(v),
        Err(e) => Err(e),
    }
}

/// The 48-bit number a MAC address spells, most significant byte first.
pub open spec fn mac_number(m: Seq<u8>) -> nat {
    m[0] as nat * 0x10000000000 + m[1] as nat * 0x100000000 + m[2] as nat * 0x1000000
        + m[3] as nat * 0x10000 + m[4] as nat * 0x100 + m[5] as nat
}

/// How a finished ping run went.
#[derive(Clone, Copy, Debug, PartialEq, Eq, Structural)]
pub enum PingOutcome {
    /// This many packets came back.
    Received(u32),
    /// The run finished with no packet back.
    Failed,
}

/// What a polling loop does next.
#[derive(Clone, Copy, Debug, PartialEq, Eq, Structural)]
pub enum PollStep {
    /// The awaited condition holds.
    Done,
    /// Sleep, then look again.
    Wait,
    /// The caller's bound on polls is used up.
    GiveUp,
}

/// Decides the next step of a loop that waits for a condition: done once it
/// is observed, otherwise wait, unless `max_polls` polls have already been
/// made. With no bound the loop waits for ever, as the vendor's flow does.
pub fn poll_step(observed: bool, polls_done: u32, max_polls: Option<u32>) -> (r: PollStep)
    ensures
        observed ==> r == PollStep::Done,
        !observed ==> (r == PollStep::GiveUp <==> (max_polls matches Some(m) && polls_done >= m)),
        !observed ==> (r == PollStep::Wait <==> !(max_polls matches Some(m) && polls_done >= m)),
{
    if observed {
        PollStep::Done
    } else {
        match max_polls {
            Some(m) => if polls_done >= m {
                PollStep::GiveUp
            } else {
                PollStep::Wait
            },
            None => PollStep::Wait,
        }
    }
}

/// The network processor's status as the host sees it.
pub struct SimpleLink {
    globals: SimpleLinkGlobalsInner,
}

impl View for SimpleLink {
    type V = ConnectionState;

    closed spec fn view(&self) -> ConnectionState {
        self.globals@
    }
}

impl SimpleLink {
    /// A status with nothing recorded.
    pub fn new() -> (r: Self)
        ensures
            r@ == ConnectionState::cleared(),
    {
        SimpleLink { globals: SimpleLinkGlobalsInner::new() }
    }

    /// Clears every flag and the connection context; done before each start
    /// of the network processor.
    pub fn init_app_variables(&mut self)
        ensures
            final(self)@ == reset_next(old(self)@),
    {
        self.globals.clear_all();
    }

    /// Whether an IP lease has been acquired since the last connection.
    pub fn is_ip_acquired(&self) -> (r: bool)
        ensures
            r == self@.flags.contains(StatusBit::STATUS_BIT_IP_ACQUIRED),
    {
        self.globals.get_status_bit(StatusBit::STATUS_BIT_IP_ACQUIRED)
    }

    /// Whether the device is connected to an access point.
    pub fn is_connected(&self) -> (r: bool)
        ensures
            r == self@.flags.contains(StatusBit::STATUS_BIT_CONNECTION),
    {
        self.globals.get_status_bit(StatusBit::STATUS_BIT_CONNECTION)
    }

    /// Whether the last ping run has reported.
    pub fn is_ping_done(&self) -> (r: bool)
        ensures
            r == self@.flags.contains(StatusBit::STATUS_BIT_PING_DONE),
    {
        self.globals.get_status_bit(StatusBit::STATUS_BIT_PING_DONE)
    }

    /// Re-arms the ping flag before a new run.
    pub fn clear_ping_done(&mut self)
        ensures
            final(self)@ == (ConnectionState {
                flags: old(self)@.flags.remove(StatusBit::STATUS_BIT_PING_DONE),
                ..old(self)@
            }),
    {
        self.globals.clear_status_bit(StatusBit::STATUS_BIT_PING_DONE)
    }

    /// The gateway address of the last IP lease.
    pub fn gateway_ip(&self) -> (r: u32)
        ensures
            r == self@.gateway_ip,
    {
        self.globals.gateway_ip()
    }

    /// Packets received in the last ping run.
    pub fn ping_packets_received(&self) -> (r: u32)
        ensures
            r == self@.ping_packets_received,
    {
        self.globals.ping_packets_received()
    }

    /// The SSID of the current connection.
    pub fn connection_ssid(&self) -> (r: Vec<u8>)
        ensures
            r@ == self@.ssid,
    {
        self.globals.connection_ssid()
    }

    /// The BSSID of the current connection.
    pub fn connection_bssid(&self) -> (r: [u8; 6])
        ensures
            r@ == self@.bssid,
    {
        self.globals.connection_bssid()
    }

    /// How the last ping run went, once it has finished.
    pub fn ping_outcome(&self) -> (r: Option<PingOutcome>)
        ensures
            !self@.flags.contains(StatusBit::STATUS_BIT_PING_DONE) ==> (r is None),
            self@.flags.contains(StatusBit::STATUS_BIT_PING_DONE) ==> r == Some(
                if self@.ping_packets_received == 0 {
                    PingOutcome::Failed
                } else {
                    PingOutcome::Received(self@.ping_packets_received)
                },
            ),
    {
        if !self.is_ping_done() {
            None
        } else {
            let n = self.ping_packets_received();
            if n == 0 {
                Some(PingOutcome::Failed)
            } else {
                Some(PingOutcome::Received(n))
            }
        }
    }

    /// Handles a WLAN event as `wlan_event_next` describes, and says what
    /// happened.
    pub fn on_wlan_event(&mut self, event: &SlWlanEvent) -> (r: WlanEventReport)
        ensures
            final(self)@ == wlan_event_next(old(self)@, *event),
            match WlanEvent::decoded(event.event_type) {
                Ok(WlanEvent::SL_WLAN_CONNECT_EVENT) => (r is Connected),
                Ok(WlanEvent::SL_WLAN_DISCONNECT_EVENT) => match r {
                    WlanEventReport::Disconnected { user_initiated, ssid, bssid } => {
                        &&& user_initiated == (WlanDisconnectReason::decoded(
                            event.info.reason_code as i32,
                        ) == Ok::<WlanDisconnectReason, SimpleLinkError>(
                            WlanDisconnectReason::SL_WLAN_DISCONNECT_USER_INITIATED_DISCONNECTION,
                        ))
                        &&& ssid@ == old(self)@.ssid
                        &&& bssid@ == old(self)@.bssid
                    },
                    _ => false,
                },
                Err(_) => r == WlanEventReport::Unexpected(event.event_type),
            },
    {
        match WlanEvent::try_from_code(event.event_type) {
            Ok(WlanEvent::SL_WLAN_CONNECT_EVENT) => {
                self.globals.set_connection(
                    event.info.ssid_len,
                    event.info.ssid_name,
                    event.info.bssid,
                );
                self.globals.set_status_bit(StatusBit::STATUS_BIT_CONNECTION);
                WlanEventReport::Connected
            },
            Ok(WlanEvent::SL_WLAN_DISCONNECT_EVENT) => {
                self.globals.clear_status_bit(StatusBit::STATUS_BIT_CONNECTION);
                self.globals.clear_status_bit(StatusBit::STATUS_BIT_IP_ACQUIRED);
                let user_initiated = match WlanDisconnectReason::try_from_code(
                    event.info.reason_code as i32,
                ) {
                    Ok(
                        WlanDisconnectReason::SL_WLAN_DISCONNECT_USER_INITIATED_DISCONNECTION,
                    ) => true,
                    Err(_) => false,
                };
                let ssid = self.globals.connection_ssid();
                let bssid = self.globals.connection_bssid();
                self.globals.clear_connection_ssid();
                self.globals.clear_connection_bssid();
                WlanEventReport::Disconnected { user_initiated, ssid, bssid }
            },
            Err(_) => WlanEventReport::Unexpected(event.event_type),
        }
    }

    /// Handles a network-application event as `netapp_event_next`
    /// describes, and says what happened.
    pub fn on_netapp_event(&mut self, event: &SlNetAppEvent) -> (r: NetAppEventReport)
        ensures
            final(self)@ == netapp_event_next(old(self)@, *event),
            (NetAppEvent::decoded(event.event) is Ok) ==> r == (NetAppEventReport::IpAcquired {
                ip: event.ip,
                gateway: event.gateway,
            }),
            (NetAppEvent::decoded(event.event) is Err) ==> r == NetAppEventReport::Unexpected(
                event.event,
            ),
    {
        match NetAppEvent::try_from_code(event.event) {
            Ok(NetAppEvent::SL_NETAPP_IPV4_IPACQUIRED_EVENT) => {
                self.globals.set_gateway_ip(event.gateway);
                self.globals.set_status_bit(StatusBit::STATUS_BIT_IP_ACQUIRED);
                NetAppEventReport::IpAcquired { ip: event.ip, gateway: event.gateway }
            },
            Err(_) => NetAppEventReport::Unexpected(event.event),
        }
    }

    /// Handles the report of a finished ping run as `ping_report_next`
    /// describes.
    pub fn on_ping_report(&mut self, report: &SlPingReport)
        ensures
            final(self)@ == ping_report_next(old(self)@, *report),
    {
        self.globals.set_ping_packets_received(report.packets_rcvd);
        self.globals.set_status_bit(StatusBit::STATUS_BIT_PING_DONE);
    }

    /// Says what a device event reports; device events change no state.
    pub fn on_device_event(event: &SlDeviceEvent) -> (r: DeviceEventReport)
        ensures
            r == match SlDeviceDriverError::decoded(event.event_num) {
                Ok(SlDeviceDriverError::SL_DEVICE_GENERAL_ERROR_EVENT) => DeviceEventReport::General {
                    status: event.status,
                    sender: event.sender,
                },
                Ok(SlDeviceDriverError::SL_DEVICE_ABORT_ERROR_EVENT) => DeviceEventReport::Abort {
                    abort_type: event.abort_type,
                    abort_data: event.abort_data,
                },
                Ok(_) => DeviceEventReport::DriverError {
                    event_num: event.event_num,
                    info: event.info,
                },
                Err(_) => DeviceEventReport::Unknown(event.event_num),
            },
    {
        match SlDeviceDriverError::try_from_code(event.event_num) {
            Ok(SlDeviceDriverError::SL_DEVICE_GENERAL_ERROR_EVENT) => DeviceEventReport::General {
                status: event.status,
                sender: event.sender,
            },
            Ok(SlDeviceDriverError::SL_DEVICE_ABORT_ERROR_EVENT) => DeviceEventReport::Abort {
                abort_type: event.abort_type,
                abort_data: event.abort_data,
            },
            Ok(_) => DeviceEventReport::DriverError { event_num: event.event_num, info: event.info },
            Err(_) => DeviceEventReport::Unknown(event.event_num),
        }
    }

    /// Says what a socket event reports; socket events change no state.
    pub fn on_socket_event(event: &SlSockEvent) -> (r: SockEventReport)
        ensures
            r == match SlSocketEventNum::decoded(event.event_num) {
                Ok(SlSocketEventNum::SL_SOCKET_TX_FAILED_EVENT) => if event.status
                    == SocketError::ECLOSE.spec_code() {
                    SockEventReport::CloseFailed { sd: event.sd }
                } else {
                    SockEventReport::TxFailed { sd: event.sd, status: event.status }
                },
                Ok(SlSocketEventNum::SL_SOCKET_ASYNC_EVENT) => SockEventReport::Async,
                Err(_) => SockEventReport::Unexpected(event.event_num),
            },
    {
        match SlSocketEventNum::try_from_code(event.event_num) {
            Ok(SlSocketEventNum::SL_SOCKET_TX_FAILED_EVENT) => {
                if event.status as i32 == SocketError::ECLOSE.code() {
                    SockEventReport::CloseFailed { sd: event.sd }
                } else {
                    SockEventReport::TxFailed { sd: event.sd, status: event.status }
                }
            },
            Ok(SlSocketEventNum::SL_SOCKET_ASYNC_EVENT) => SockEventReport::Async,
            Err(_) => SockEventReport::Unexpected(event.event_num),
        }
    }

    /// The outcome of starting the spawn task, from the code it returned.
    pub fn start_spawn_task(rc: i32) -> (r: Result<(), SimpleLinkError>)
        ensures
            rc < 0 ==> r == Err::<(), SimpleLinkError>(osi_failure(rc)),
            rc >= 0 ==> (r is Ok),
    {
        if rc < 0 {
            match OsiError::try_from_code(rc) {
                Ok(e) => Err(SimpleLinkError::Osi(e)),
                Err(err) => Err(err),
            }
        } else {
            Ok(())
        }
    }

    /// The mode the network processor started in, from the code its start
    /// call returned.
    pub fn start(rc: i16) -> (r: Result<WlanMode, SimpleLinkError>)
        ensures
            r == mode_result(rc),
    {
        check_mode(rc)
    }

    /// The mode the network processor stopped in, from the code its stop
    /// call returned.
    pub fn stop(rc: i16) -> (r: Result<WlanMode, SimpleLinkError>)
        ensures
            r == mode_result(rc),
    {
        check_mode(rc)
    }

    /// The new mode, from the code the set-mode call returned.
    pub fn wlan_set_mode(rc: i16) -> (r: Result<WlanMode, SimpleLinkError>)
        ensures
            r == mode_result(rc),
    {
        check_mode(rc)
    }

    /// A number unique to the device: its MAC address read as a 48-bit
    /// number, or zero when the address could not be read.
    pub fn unique_id(mac_addr: Option<[u8; 6]>) -> (r: u64)
        ensures
            r == match mac_addr {
                Some(m) => mac_number(m@),
                None => 0,
            },
    {
        match mac_addr {
            Some(m) => {
                (m[0] as u64) * 0x10000000000 + (m[1] as u64) * 0x100000000 + (m[2] as u64)
                    * 0x1000000 + (m[3] as u64) * 0x10000 + (m[4] as u64) * 0x100 + (m[5] as u64)
            },
            None => 0,
        }
    }

    /// The address a name resolved to, from the code the lookup returned
    /// and the address it wrote.
    pub fn netapp_get_host_by_name(rc: i16, out_ip_addr: u32) -> (r: Result<u32, SimpleLinkError>)
        ensures
            rc < 0 ==> r == Err::<u32, SimpleLinkError>(wlan_failure(rc as i32)),
            rc >= 0 ==> r == Ok::<u32, SimpleLinkError>(out_ip_addr),
    {
        match check_wlan(rc as i32) {
            Ok(_) => Ok(out_ip_addr),
            Err(e) => Err(e),
        }
    }

    /// The outcome of unregistering mDNS services.
    pub fn netapp_mdns_unregister_service(rc: i16) -> (r: Result<(), SimpleLinkError>)
        ensures
            r == unit_result(rc as int),
    {
        check_unit(rc as i32)
    }

    /// The outcome of starting a ping run; its report arrives as an event.
    pub fn netapp_ping_start(rc: i16) -> (r: Result<(), SimpleLinkError>)
        ensures
            r == unit_result(rc as int),
    {
        check_unit(rc as i32)
    }

    /// The outcome of writing a network setting.
    pub fn netcfg_set(rc: i32) -> (r: Result<(), SimpleLinkError>)
        ensures
            r == unit_result(rc as int),
    {
        check_unit(rc)
    }

    /// How many bytes of a `capacity`-byte result buffer a network-setting
    /// read filled, from its code and the length it reported; a reported
    /// length past the buffer is cut to the buffer.
    pub fn netcfg_get(rc: i32, result_len: u8, capacity: usize) -> (r: Result<usize, SimpleLinkError>)
        ensures
            rc < 0 ==> r == Err::<usize, SimpleLinkError>(wlan_failure(rc)),
            rc >= 0 ==> r == Ok::<usize, SimpleLinkError>(
                if (result_len as usize) < capacity {
                    result_len as usize
                } else {
                    capacity
                },
            ),
    {
        match check_wlan(rc) {
            Ok(_) => if (result_len as usize) < capacity {
                Ok(result_len as usize)
            } else {
                Ok(capacity)
            },
            Err(e) => Err(e),
        }
    }

    /// The MAC address, from the code of the read and the bytes it wrote.
    pub fn netcfg_get_mac_addr(rc: i32, mac_addr: [u8; 6]) -> (r: Result<[u8; 6], SimpleLinkError>)
        ensures
            rc < 0 ==> r == Err::<[u8; 6], SimpleLinkError>(wlan_failure(rc)),
            rc >= 0 ==> r == Ok::<[u8; 6], SimpleLinkError>(mac_addr),
    {
        match check_wlan(rc) {
            Ok(_) => Ok(mac_addr),
            Err(e) => Err(e),
        }
    }

    /// The outcome of deleting a stored profile.
    pub fn wlan_delete_profile(rc: i16) -> (r: Result<(), SimpleLinkError>)
        ensures
            r == unit_result(rc as int),
    {
        check_unit(rc as i32)
    }

    /// The outcome of a connect request. The request only starts the
    /// connection: its end arrives as a WLAN event.
    pub fn wlan_connect(rc: i16) -> (r: Result<(), SimpleLinkError>)
        ensures
            r == unit_result(rc as int),
    {
        check_unit(rc as i32)
    }

    /// The outcome of a disconnect request.
    pub fn wlan_disconnect(rc: i16) -> (r: Result<(), SimpleLinkError>)
        ensures
            r == unit_result(rc as int),
    {
        check_unit(rc as i32)
    }

    /// The outcome of writing a WLAN setting.
    pub fn wlan_set(rc: i16) -> (r: Result<(), SimpleLinkError>)
        ensures
            r == unit_result(rc as int),
    {
        check_unit(rc as i32)
    }

    /// The outcome of setting a WLAN policy.
    pub fn wlan_set_policy(rc: i16) -> (r: Result<(), SimpleLinkError>)
        ensures
            r == unit_result(rc as int),
    {
        check_unit(rc as i32)
    }

    /// The outcome of a receive-filter operation.
    pub fn wlan_rx_filter(rc: i16) -> (r: Result<(), SimpleLinkError>)
        ensures
            r == unit_result(rc as int),
    {
        check_unit(rc as i32)
    }
}

/// A consumer that sees the connection flag right after a connect event also
/// sees the SSID and BSSID of that same event: the handler writes all three
/// in one step.
pub proof fn lemma_connect_publishes_details(s: ConnectionState, e: SlWlanEvent)
    requires
        WlanEvent::decoded(e.event_type) == Ok::<WlanEvent, SimpleLinkError>(
            WlanEvent::SL_WLAN_CONNECT_EVENT,
        ),
    ensures
        wlan_event_next(s, e).flags.contains(StatusBit::STATUS_BIT_CONNECTION),
        wlan_event_next(s, e).ssid == event_ssid(e),
        wlan_event_next(s, e).bssid == e.info.bssid@,
{
}

/// A consumer that sees the IP flag right after an IPv4 lease event also
/// sees the gateway of that same event.
pub proof fn lemma_ip_lease_publishes_gateway(s: ConnectionState, e: SlNetAppEvent)
    requires
        NetAppEvent::decoded(e.event) is Ok,
    ensures
        netapp_event_next(s, e).flags.contains(StatusBit::STATUS_BIT_IP_ACQUIRED),
        netapp_event_next(s, e).gateway_ip == e.gateway,
{
}

/// A negative file-system code from -67 to -1 is reported as the
/// file-system error with that code; any code below -67 as a `ValueError`
/// that names the file-system enumeration and carries the code.
pub proof fn lemma_fs_failure_codes(rc: i32)
    requires
        rc < 0,
    ensures
        -67 <= rc ==> (fs_failure(rc) matches SimpleLinkError::FileSystem(e) && e.spec_code() == rc),
        rc < -67 ==> fs_failure(rc) == SimpleLinkError::ValueError(EnumKind::FileSystemError, rc),
{
    FileSystemError::lemma_codes_cover(rc);
    if -67 <= rc {
        let e = choose|e: FileSystemError| e.spec_code() == rc;
        FileSystemError::lemma_decode_code(e);
    } else {
        FileSystemError::lemma_decode_unknown(rc);
    }
}

/// Resetting twice in a row gives the same state as resetting once.
pub proof fn lemma_reset_idempotent(s: ConnectionState)
    ensures
        reset_next(reset_next(s)) == reset_next(s),
        reset_next(s) == ConnectionState::cleared(),
{
}

/// Events of a kind the handlers do not know leave the state as it was.
pub proof fn lemma_unknown_events_change_nothing(s: ConnectionState, w: SlWlanEvent, n: SlNetAppEvent)
    requires
        forall|k: WlanEvent| k.spec_code() != w.event_type,
        forall|k: NetAppEvent| k.spec_code() != n.event,
    ensures
        wlan_event_next(s, w) == s,
        netapp_event_next(s, n) == s,
{
    WlanEvent::lemma_decode_unknown(w.event_type);
    NetAppEvent::lemma_decode_unknown(n.event);
}

} // verus!
