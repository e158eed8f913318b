//! The advertising/connection loop, as a state machine.
//!
//! The runtime owns the actual radio work: it performs the action each
//! transition names (start advertising, request security, run the GATT
//! session), waits for the engine, and feeds the outcome back in as the
//! next event. This module fixes the transition table and the bit-exact
//! advertisement payload.

use vstd::prelude::*;

use crate::shared::BLEConnect;

verus! {

/// Whether this peripheral proactively requests encryption once connected.
pub const PERIPHERAL_REQUESTS_SECURITY: bool = false;

/// States of the advertising/connection loop.
#[derive(Clone, Copy, Debug, PartialEq, Eq, Structural)]
pub enum LoopState {
    /// Between iterations; nothing in flight.
    Idle,
    /// An advertisement is out, awaiting a central.
    Advertising,
    /// Connected, a proactive security request in flight.
    SecurityPending,
    /// The GATT session event loop is running on the live connection.
    GattSession,
}

/// Outcomes the runtime feeds back into the loop.
#[derive(Clone, Copy, Debug, PartialEq, Eq, Structural)]
pub enum LoopEvent {
    /// Begin (or begin again) an iteration.
    Start,
    /// Advertising succeeded: the engine yielded a connection.
    ConnectionEstablished,
    /// Advertising failed outright.
    AdvertisingFailed,
    /// The proactive security request was accepted.
    SecurityGranted,
    /// The proactive security request failed.
    SecurityRefused,
    /// The GATT session ended: peer disconnect, error or protocol fault.
    SessionEnded,
}

/// Radio work the runtime performs on entering the next state.
#[derive(Clone, Copy, Debug, PartialEq, Eq, Structural)]
pub enum LoopAction {
    /// Build the advertisement payload and start advertising.
    StartAdvertising,
    /// Issue the proactive encryption request on the new connection.
    RequestSecurity,
    /// Run the GATT server event loop bound to the connection.
    RunGattSession,
    /// Fatal: abort the process (embedded reset), as this device treats
    /// advertising failure.
    Abort,
}

/// One transition: the next state, the radio work to perform (if any), and
/// the connection-status change to publish to the shared state (if any).
pub struct Transition {
    pub next: LoopState,
    pub action: Option<LoopAction>,
    pub status_update: Option<BLEConnect>,
}

/// The loop's transition table.
///
/// Idle starts advertising. A connection either starts the GATT session at
/// once or, when the peripheral proactively requests security, first awaits
/// the security outcome; a refused request abandons the connection and
/// restarts the loop. Advertising failure is fatal. A session's end marks
/// the link disconnected and restarts from Idle. An event that cannot occur
/// in a state changes nothing.
pub open spec fn spec_conn_loop_step(
    state: LoopState,
    event: LoopEvent,
    requests_security: bool,
) -> Transition {
    match (state, event) {
        (LoopState::Idle, LoopEvent::Start) => Transition {
            next: LoopState::Advertising,
            action: Some(LoopAction::StartAdvertising),
            status_update: None,
        },
        (LoopState::Advertising, LoopEvent::ConnectionEstablished) => {
            if requests_security {
                Transition {
                    next: LoopState::SecurityPending,
                    action: Some(LoopAction::RequestSecurity),
                    status_update: Some(BLEConnect::Connected),
                }
            } else {
                Transition {
                    next: LoopState::GattSession,
                    action: Some(LoopAction::RunGattSession),
                    status_update: Some(BLEConnect::Connected),
                }
            }
        },
        (LoopState::Advertising, LoopEvent::AdvertisingFailed) => Transition {
            next: LoopState::Idle,
            action: Some(LoopAction::Abort),
            status_update: None,
        },
        (LoopState::SecurityPending, LoopEvent::SecurityGranted) => Transition {
            next: LoopState::GattSession,
            action: Some(LoopAction::RunGattSession),
            status_update: None,
        },
        (LoopState::SecurityPending, LoopEvent::SecurityRefused) => Transition {
            next: LoopState::Idle,
            action: None,
            status_update: Some(BLEConnect::Disconnected),
        },
        (LoopState::GattSession, LoopEvent::SessionEnded) => Transition {
            next: LoopState::Idle,
            action: None,
            status_update: Some(BLEConnect::Disconnected),
        },
        (_, _) => Transition { next: state, action: None, status_update: None },
    }
}

/// Performs one transition of the advertising/connection loop.
pub fn conn_loop_step(state: LoopState, event: LoopEvent, requests_security: bool) -> (r:
    Transition)
    ensures
        r == spec_conn_loop_step(state, event, requests_security),
{
    match (state, event) {
        (LoopState::Idle, LoopEvent::Start) => Transition {
            next: LoopState::Advertising,
            action: Some(LoopAction::StartAdvertising),
            status_update: None,
        },
        (LoopState::Advertising, LoopEvent::ConnectionEstablished) => {
            if requests_security {
                Transition {
                    next: LoopState::SecurityPending,
                    action: Some(LoopAction::RequestSecurity),
                    status_update: Some(BLEConnect::Connected),
                }
            } else {
                Transition {
                    next: LoopState::GattSession,
                    action: Some(LoopAction::RunGattSession),
                    status_update: Some(BLEConnect::Connected),
                }
            }
        },
        (LoopState::Advertising, LoopEvent::AdvertisingFailed) => Transition {
            next: LoopState::Idle,
            action: Some(LoopAction::Abort),
            status_update: None,
        },
        (LoopState::SecurityPending, LoopEvent::SecurityGranted) => Transition {
            next: LoopState::GattSession,
            action: Some(LoopAction::RunGattSession),
            status_update: None,
        },
        (LoopState::SecurityPending, LoopEvent::SecurityRefused) => Transition {
            next: LoopState::Idle,
            action: None,
            status_update: Some(BLEConnect::Disconnected),
        },
        (LoopState::GattSession, LoopEvent::SessionEnded) => Transition {
            next: LoopState::Idle,
            action: None,
            status_update: Some(BLEConnect::Disconnected),
        },
        (_, _) => Transition { next: state, action: None, status_update: None },
    }
}

/// The static advertisement payload, bit-exact: a flags structure claiming
/// general discovery on an LE-only device, then the complete local name
/// "HelloRust". The scan-response payload is empty.
pub open spec fn spec_adv_payload() -> Seq<u8> {
    seq![
        2u8,
        0x01u8,
        0x06u8,
        10u8,
        0x09u8,
        0x48u8,
        0x65u8,
        0x6cu8,
        0x6cu8,
        0x6fu8,
        0x52u8,
        0x75u8,
        0x73u8,
        0x74u8,
    ]
}

/// Builds the advertisement payload.
pub fn adv_payload() -> (r: Vec<u8>)
    ensures
        r@ == spec_adv_payload(),
{
    let mut v: Vec<u8> = Vec::new();
    v.push(2u8);  // flags structure: length
    v.push(0x01u8);  // flags structure: type
    v.push(0x06u8);  // general discovery, LE only
    v.push(10u8);  // name structure: length
    v.push(0x09u8);  // name structure: type, complete local name
    v.push(0x48u8);  // 'H'
    v.push(0x65u8);  // 'e'
    v.push(0x6cu8);  // 'l'
    v.push(0x6cu8);  // 'l'
    v.push(0x6fu8);  // 'o'
    v.push(0x52u8);  // 'R'
    v.push(0x75u8);  // 'u'
    v.push(0x73u8);  // 's'
    v.push(0x74u8);  // 't'
    proof {
        assert(v@ =~= spec_adv_payload());
    }
    v
}

} // verus!
