//! Bringing the network processor up in station mode.
//!
//! The protocol alternates vendor calls, waits and decisions. The decisions
//! are a state machine here; the caller performs each action it asks for and
//! feeds back what came of it. A device that boots as an access point must
//! first see its IP lease, then switch to station mode, stop, start again,
//! and then be checked to be in station mode: switching while it serves DHCP
//! clients is unsafe. The wait for the lease can be bounded by a number of
//! polls.
use vstd::prelude::*;
use crate::error::SimpleLinkError;
use crate::types::WlanMode;

verus! {

/// Why bringing the device up in station mode failed.
#[derive(Clone, Copy, Debug, PartialEq, Eq, Structural)]
pub enum ReconcileError {
    /// A vendor call failed.
    Vendor(SimpleLinkError),
    /// After the restart the device was still not in station mode.
    NotInStationMode,
    /// The IP lease did not come within the allowed number of polls.
    IpTimeout,
}

/// Where the protocol stands.
#[derive(Clone, Copy, Debug, PartialEq, Eq)]
pub enum ReconcileState {
    /// Waiting for the result of the first start.
    Starting,
    /// Booted as an access point; waiting for the IP lease, after this many
    /// polls that did not see it.
    WaitingForIp(u32),
    /// Waiting for the result of switching to station mode.
    SwitchingMode,
    /// Waiting for the result of the stop.
    Stopping,
    /// Waiting for the result of the second start.
    Restarting,
    /// Done, with this outcome.
    Finished(Result<(), ReconcileError>),
}

/// What the caller does next.
#[derive(Clone, Copy, Debug, PartialEq, Eq)]
pub enum ReconcileAction {
    /// Start the network processor and report `Started`.
    Start,
    /// Sleep a while, then report whether the IP flag is set.
    PollIpAcquired,
    /// Set station mode and report `ModeSet`.
    SetStationMode,
    /// Stop the network processor and report `Stopped`.
    Stop,
    /// Nothing more to do.
    Done(Result<(), ReconcileError>),
}

/// What came of the last action.
#[derive(Clone, Copy, Debug, PartialEq, Eq)]
pub enum ReconcileEvent {
    Started(Result<WlanMode, SimpleLinkError>),
    IpAcquired(bool),
    ModeSet(Result<WlanMode, SimpleLinkError>),
    Stopped(Result<WlanMode, SimpleLinkError>),
}

/// The action each state waits on the result of.
pub open spec fn pending_action(s: ReconcileState) -> ReconcileAction {
    match s {
        ReconcileState::Starting => ReconcileAction::Start,
        ReconcileState::WaitingForIp(_) => ReconcileAction::PollIpAcquired,
        ReconcileState::SwitchingMode => ReconcileAction::SetStationMode,
        ReconcileState::Stopping => ReconcileAction::Stop,
        ReconcileState::Restarting => ReconcileAction::Start,
        ReconcileState::Finished(res) => ReconcileAction::Done(res),
    }
}

/// Moves to `s` and asks for the action it waits on.
pub open spec fn go(s: ReconcileState) -> (ReconcileState, ReconcileAction) {
    (s, pending_action(s))
}

/// Ends with `res`.
pub open spec fn finish(res: Result<(), ReconcileError>) -> (ReconcileState, ReconcileAction) {
    go(ReconcileState::Finished(res))
}

/// The poll count after one more poll, stopping at the largest count.
pub open spec fn next_poll_count(n: u32) -> u32 {
    if n < u32::MAX {
        (n + 1) as u32
    } else {
        n
    }
}

/// The protocol's transitions. While waiting for the IP lease, a poll that
/// does not see it ends the protocol with `IpTimeout` once `max_polls`
/// polls have been made, when a bound is given. An event that does not
/// answer the pending action changes nothing and asks for that action again.
pub open spec fn reconcile_next(s: ReconcileState, e: ReconcileEvent, max_polls: Option<u32>) -> (
    ReconcileState,
    ReconcileAction,
) {
    match (s, e) {
        (ReconcileState::Starting, ReconcileEvent::Started(Ok(m))) => if m
            == WlanMode::ROLE_STA {
            finish(Ok(()))
        } else if m == WlanMode::ROLE_AP {
            go(ReconcileState::WaitingForIp(0))
        } else {
            go(ReconcileState::SwitchingMode)
        },
        (ReconcileState::WaitingForIp(n), ReconcileEvent::IpAcquired(acquired)) => if acquired {
            go(ReconcileState::SwitchingMode)
        } else if max_polls matches Some(m) && n as int + 1 >= m {
            finish(Err(ReconcileError::IpTimeout))
        } else {
            go(ReconcileState::WaitingForIp(next_poll_count(n)))
        },
        (ReconcileState::SwitchingMode, ReconcileEvent::ModeSet(Ok(_))) => go(
            ReconcileState::Stopping,
        ),
        (ReconcileState::Stopping, ReconcileEvent::Stopped(Ok(_))) => go(
            ReconcileState::Restarting,
        ),
        (ReconcileState::Restarting, ReconcileEvent::Started(Ok(m))) => if m
            == WlanMode::ROLE_STA {
            finish(Ok(()))
        } else {
            finish(Err(ReconcileError::NotInStationMode))
        },
        (ReconcileState::Starting, ReconcileEvent::Started(Err(err))) => finish(
            Err(ReconcileError::Vendor(err)),
        ),
        (ReconcileState::SwitchingMode, ReconcileEvent::ModeSet(Err(err))) => finish(
            Err(ReconcileError::Vendor(err)),
        ),
        (ReconcileState::Stopping, ReconcileEvent::Stopped(Err(err))) => finish(
            Err(ReconcileError::Vendor(err)),
        ),
        (ReconcileState::Restarting, ReconcileEvent::Started(Err(err))) => finish(
            Err(ReconcileError::Vendor(err)),
        ),
        _ => go(s),
    }
}

fn pending(s: ReconcileState) -> (r: ReconcileAction)
    ensures
        r == pending_action(s),
{
    match s {
        ReconcileState::Starting => ReconcileAction::Start,
        ReconcileState::WaitingForIp(_) => ReconcileAction::PollIpAcquired,
        ReconcileState::SwitchingMode => ReconcileAction::SetStationMode,
        ReconcileState::Stopping => ReconcileAction::Stop,
        ReconcileState::Restarting => ReconcileAction::Start,
        ReconcileState::Finished(res) => ReconcileAction::Done(res),
    }
}

/// The protocol's first state and first action.
pub fn configure_default_start() -> (r: (ReconcileState, ReconcileAction))
    ensures
        r == go(ReconcileState::Starting),
{
    (ReconcileState::Starting, ReconcileAction::Start)
}

/// The next state and action after `event`, as `reconcile_next` gives them;
/// `max_polls` bounds the polls for the IP lease.
pub fn configure_default_step(
    state: ReconcileState,
    event: ReconcileEvent,
    max_polls: Option<u32>,
) -> (r: (ReconcileState, ReconcileAction))
    ensures
        r == reconcile_next(state, event, max_polls),
{
    let next: ReconcileState = match (state, event) {
        (ReconcileState::Starting, ReconcileEvent::Started(Ok(m))) => {
            match m {
                WlanMode::ROLE_STA => ReconcileState::Finished(Ok(())),
                WlanMode::ROLE_AP => ReconcileState::WaitingForIp(0),
                _ => ReconcileState::SwitchingMode,
            }
        },
        (ReconcileState::WaitingForIp(n), ReconcileEvent::IpAcquired(acquired)) => {
            if acquired {
                ReconcileState::SwitchingMode
            } else {
                let out_of_polls = match max_polls {
                    Some(m) => n as u64 + 1 >= m as u64,
                    None => false,
                };
                if out_of_polls {
                    ReconcileState::Finished(Err(ReconcileError::IpTimeout))
                } else if n < u32::MAX {
                    ReconcileState::WaitingForIp(n + 1)
                } else {
                    ReconcileState::WaitingForIp(n)
                }
            }
        },
        (ReconcileState::SwitchingMode, ReconcileEvent::ModeSet(Ok(_))) => ReconcileState::Stopping,
        (ReconcileState::Stopping, ReconcileEvent::Stopped(Ok(_))) => ReconcileState::Restarting,
        (ReconcileState::Restarting, ReconcileEvent::Started(Ok(m))) => {
            match m {
                WlanMode::ROLE_STA => ReconcileState::Finished(Ok(())),
                _ => ReconcileState::Finished(Err(ReconcileError::NotInStationMode)),
            }
        },
        (ReconcileState::Starting, ReconcileEvent::Started(Err(err))) => ReconcileState::Finished(
            Err(ReconcileError::Vendor(err)),
        ),
        (ReconcileState::SwitchingMode, ReconcileEvent::ModeSet(Err(err))) => {
            ReconcileState::Finished(Err(ReconcileError::Vendor(err)))
        },
        (ReconcileState::Stopping, ReconcileEvent::Stopped(Err(err))) => ReconcileState::Finished(
            Err(ReconcileError::Vendor(err)),
        ),
        (ReconcileState::Restarting, ReconcileEvent::Started(Err(err))) => {
            ReconcileState::Finished(Err(ReconcileError::Vendor(err)))
        },
        _ => state,
    };
    (next, pending(next))
}

/// An access point is never switched to station mode before its IP lease
/// has been seen.
pub proof fn lemma_ap_waits_for_ip(n: u32, e: ReconcileEvent, max_polls: Option<u32>)
    ensures
        reconcile_next(ReconcileState::Starting, e, max_polls).1 == ReconcileAction::SetStationMode
            ==> !(e == ReconcileEvent::Started(Ok(WlanMode::ROLE_AP))),
        reconcile_next(ReconcileState::WaitingForIp(n), e, max_polls).1
            == ReconcileAction::SetStationMode ==> e == ReconcileEvent::IpAcquired(true),
{
}

/// With a bound on polls, the wait for the IP lease stays below it: the
/// state after a poll that did not see the lease counts fewer polls than
/// the bound, or the protocol has ended.
pub proof fn lemma_ip_wait_bounded(n: u32, m: u32)
    requires
        n < m,
    ensures
        match reconcile_next(ReconcileState::WaitingForIp(n), ReconcileEvent::IpAcquired(false), Some(m)).0 {
            ReconcileState::WaitingForIp(k) => k < m,
            ReconcileState::Finished(res) => res == Err::<(), ReconcileError>(ReconcileError::IpTimeout),
            _ => false,
        },
{
}

/// The protocol ends well only on a start that reports station mode.
pub proof fn lemma_success_means_station(s: ReconcileState, e: ReconcileEvent, max_polls: Option<u32>)
    requires
        !(s is Finished),
        reconcile_next(s, e, max_polls).1 == ReconcileAction::Done(Ok(())),
    ensures
        e == ReconcileEvent::Started(Ok(WlanMode::ROLE_STA)),
{
}

} // verus!
