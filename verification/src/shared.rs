//! Shared cross-task state: the latest encoded reading, the notify-enabled
//! flag and the connection status. Pure storage with no logic of its own;
//! the runtime guards one instance with whatever mutual exclusion the
//! platform offers and hands short-lived references to each task.

use vstd::prelude::*;

verus! {

/// Connection lifecycle as the notification task observes it.
#[derive(Clone, Copy, Debug, PartialEq, Eq, Structural)]
pub enum BLEConnect {
    Connected,
    Disconnected,
}

/// The three independently guarded cells of cross-task state.
///
/// `temp` is the latest sampled reading, already encoded as a 4-byte
/// little-endian payload; `notify_enabled` is set when the central writes a
/// non-empty value to the notification-control descriptor; `status` tracks
/// the connection lifecycle.
pub struct SharedState {
    pub temp: [u8; 4],
    pub notify_enabled: bool,
    pub status: BLEConnect,
}

impl SharedState {
    /// Initial state: zeroed reading, notifications off, no connection.
    pub fn new() -> (r: SharedState)
        ensures
            r.temp@ == seq![0u8, 0u8, 0u8, 0u8],
            !r.notify_enabled,
            r.status == BLEConnect::Disconnected,
    {
        let temp: [u8; 4] = [0u8, 0u8, 0u8, 0u8];
        proof {
            assert(temp@ =~= seq![0u8, 0u8, 0u8, 0u8]);
        }
        SharedState { temp, notify_enabled: false, status: BLEConnect::Disconnected }
    }

    /// Latest-write-wins publication of a new encoded reading.
    pub fn publish_reading(&mut self, bytes: [u8; 4])
        ensures
            final(self).temp == bytes,
            final(self).notify_enabled == old(self).notify_enabled,
            final(self).status == old(self).status,
    {
        self.temp = bytes;
    }

    /// Flips the notify-enabled flag, leaving the other cells untouched.
    pub fn set_notify_enabled(&mut self, on: bool)
        ensures
            final(self).notify_enabled == on,
            final(self).temp == old(self).temp,
            final(self).status == old(self).status,
    {
        self.notify_enabled = on;
    }

    /// Records a connection lifecycle change, leaving the other cells untouched.
    pub fn set_status(&mut self, status: BLEConnect)
        ensures
            final(self).status == status,
            final(self).temp == old(self).temp,
            final(self).notify_enabled == old(self).notify_enabled,
    {
        self.status = status;
    }
}

} // verus!
