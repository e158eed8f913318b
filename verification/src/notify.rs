//! The notification task's per-tick decision.
//!
//! Each wake the task snapshots the shared cells and decides: stop its loop
//! once the connection is gone; push the latest reading when notifications
//! are enabled on an active connection; otherwise do nothing and sleep
//! again. A notify attempt is made only when the flag is set and the
//! connection is active at the instant of the check; the runtime tolerates
//! a rejected notify from the race between that check and a concurrent
//! disconnect, and never retries a lost notification.

use vstd::prelude::*;

use crate::service::NotifyRequest;
use crate::service::TempService;
use crate::shared::BLEConnect;
use crate::shared::SharedState;

verus! {

/// What the notification task does with one snapshot of the shared state.
pub enum NotifyAction {
    /// The connection is gone: leave the loop, attempt nothing further.
    Stop,
    /// Push this notification to the connected central.
    Send(NotifyRequest),
    /// Stay subscribed but send nothing this tick.
    Idle,
}

/// Decides one tick of the notification task from a snapshot of the shared
/// state: stop exactly when disconnected; send the current reading to the
/// characteristic's value attribute exactly when connected with
/// notifications enabled; otherwise idle. In particular no notify is ever
/// attempted while notifications are disabled or the connection is down.
pub fn notify_step(shared: &SharedState, service: &TempService) -> (r: NotifyAction)
    ensures
        r is Stop <==> shared.status == BLEConnect::Disconnected,
        r is Send <==> (shared.status == BLEConnect::Connected && shared.notify_enabled),
        r is Idle <==> (shared.status == BLEConnect::Connected && !shared.notify_enabled),
        r matches NotifyAction::Send(req) ==> req.handle == service.value_handle && req.bytes@
            == shared.temp@,
{
    if shared.status == BLEConnect::Disconnected {
        NotifyAction::Stop
    } else if shared.notify_enabled {
        NotifyAction::Send(service.temp_notify(shared.temp.as_slice()))
    } else {
        NotifyAction::Idle
    }
}

} // verus!
