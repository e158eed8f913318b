//! The temperature characteristic service and the GATT server that routes
//! engine callbacks to it.
//!
//! Registration with the engine's attribute table is the runtime's job; it
//! feeds the engine the fixed table layout that `temp_service_config`
//! returns and hands the issued handles back to `TempService::new`. From
//! then on the service addresses every read, write and notification to the
//! correct attribute by those handles, and decodes writes to the
//! notification-control descriptor.

use vstd::prelude::*;
use vstd::slice::slice_to_vec;

verus! {

/// Value sent back for a deferred read, little-endian: a fixed placeholder
/// rather than the live sampled value, kept as the reference device behaves.
pub const DEFERRED_READ_VALUE: u16 = 0x1234;

/// Fixed GATT table layout for the temperature service: one 128-bit
/// service UUID holding one readable, notifiable characteristic with open
/// security, deferred-read semantics and a 2-byte zero initial value.
pub struct ServiceConfig {
    pub service_uuid: [u8; 16],
    pub characteristic_uuid: [u8; 16],
    pub initial_value: [u8; 2],
    pub readable: bool,
    pub notifiable: bool,
    pub deferred_read: bool,
    pub security_open: bool,
}

/// The service UUID, as the 16 bytes fed to the engine.
pub open spec fn spec_service_uuid() -> Seq<u8> {
    seq![
        0x81u8,
        0x1bu8,
        0x86u8,
        0x4du8,
        0x71u8,
        0x8cu8,
        0xb0u8,
        0x35u8,
        0x80u8,
        0x4du8,
        0x92u8,
        0xc4u8,
        0x76u8,
        0x12u8,
        0x43u8,
        0xc0u8,
    ]
}

/// The characteristic UUID, as the 16 bytes fed to the engine.
pub open spec fn spec_characteristic_uuid() -> Seq<u8> {
    seq![
        0x06u8,
        0x01u8,
        0xa0u8,
        0x01u8,
        0x0eu8,
        0xcau8,
        0xb5u8,
        0xabu8,
        0xedu8,
        0xc2u8,
        0x88u8,
        0x7fu8,
        0xd5u8,
        0xf3u8,
        0x2bu8,
        0x84u8,
    ]
}

/// Builds the registration request for the temperature service, bit-exact.
pub fn temp_service_config() -> (r: ServiceConfig)
    ensures
        r.service_uuid@ == spec_service_uuid(),
        r.characteristic_uuid@ == spec_characteristic_uuid(),
        r.initial_value@ == seq![0u8, 0u8],
        r.readable,
        r.notifiable,
        r.deferred_read,
        r.security_open,
{
    let service_uuid: [u8; 16] = [
        0x81u8,
        0x1bu8,
        0x86u8,
        0x4du8,
        0x71u8,
        0x8cu8,
        0xb0u8,
        0x35u8,
        0x80u8,
        0x4du8,
        0x92u8,
        0xc4u8,
        0x76u8,
        0x12u8,
        0x43u8,
        0xc0u8,
    ];
    let characteristic_uuid: [u8; 16] = [
        0x06u8,
        0x01u8,
        0xa0u8,
        0x01u8,
        0x0eu8,
        0xcau8,
        0xb5u8,
        0xabu8,
        0xedu8,
        0xc2u8,
        0x88u8,
        0x7fu8,
        0xd5u8,
        0xf3u8,
        0x2bu8,
        0x84u8,
    ];
    let initial_value: [u8; 2] = [0u8, 0u8];
    proof {
        assert(service_uuid@ =~= spec_service_uuid());
        assert(characteristic_uuid@ =~= spec_characteristic_uuid());
        assert(initial_value@ =~= seq![0u8, 0u8]);
    }
    ServiceConfig {
        service_uuid,
        characteristic_uuid,
        initial_value,
        readable: true,
        notifiable: true,
        deferred_read: true,
        security_open: true,
    }
}

/// A request the runtime performs against the engine's attribute table:
/// write `bytes` into the attribute at `handle`.
pub struct SetValueRequest {
    pub handle: u16,
    pub bytes: Vec<u8>,
}

/// A request the runtime performs against the engine: push `bytes` to the
/// connected central as a notification of the attribute at `handle`.
pub struct NotifyRequest {
    pub handle: u16,
    pub bytes: Vec<u8>,
}

/// The temperature characteristic's handles, issued once at registration
/// and immutable afterward.
#[derive(Clone, Copy, Debug, PartialEq, Eq, Structural)]
pub struct TempService {
    pub value_handle: u16,
    pub cccd_handle: u16,
}

impl TempService {
    /// Wraps the handles the engine issued for the registered
    /// characteristic's value attribute and notification-control descriptor.
    pub fn new(value_handle: u16, cccd_handle: u16) -> (r: TempService)
        ensures
            r.value_handle == value_handle,
            r.cccd_handle == cccd_handle,
    {
        TempService { value_handle, cccd_handle }
    }

    /// The attribute the engine is to read the current raw value from.
    pub fn temp_get(&self) -> (r: u16)
        ensures
            r == self.value_handle,
    {
        self.value_handle
    }

    /// The table write that stores `data` as the characteristic's value;
    /// it does not itself notify.
    pub fn temp_set(&self, data: &[u8]) -> (r: SetValueRequest)
        ensures
            r.handle == self.value_handle,
            r.bytes@ == data@,
    {
        SetValueRequest { handle: self.value_handle, bytes: slice_to_vec(data) }
    }

    /// The notification that pushes `data` to the connected central,
    /// addressed to the characteristic's value attribute.
    pub fn temp_notify(&self, data: &[u8]) -> (r: NotifyRequest)
        ensures
            r.handle == self.value_handle,
            r.bytes@ == data@,
    {
        NotifyRequest { handle: self.value_handle, bytes: slice_to_vec(data) }
    }

    /// Decodes a write: a non-empty write to the notification-control
    /// descriptor means "notifications enabled". The caller owns the shared
    /// flag and must apply the result to it.
    pub fn on_write(&self, handle: u16, data: &[u8]) -> (r: bool)
        ensures
            r == (handle == self.cccd_handle && data@.len() > 0),
    {
        handle == self.cccd_handle && data.len() > 0
    }
}

/// One-shot reply channel for a deferred read. The engine expects exactly
/// one reply per request: replying is recorded, and a second reply is ruled
/// out by contract.
pub struct DeferredReadReply {
    pub replied: bool,
    pub sent: Vec<u8>,
}

impl DeferredReadReply {
    /// A fresh channel on which nothing has been sent yet.
    pub fn new() -> (r: DeferredReadReply)
        ensures
            !r.replied,
    {
        DeferredReadReply { replied: false, sent: Vec::new() }
    }

    /// Sends `data` through the channel, exactly once.
    pub fn reply(&mut self, data: &[u8])
        requires
            !old(self).replied,
        ensures
            final(self).replied,
            final(self).sent@ == data@,
    {
        self.replied = true;
        self.sent = slice_to_vec(data);
    }
}

/// Events the server surfaces to the task layer, which owns the shared
/// state the events are applied to.
#[derive(Clone, Copy, Debug, PartialEq, Eq, Structural)]
pub enum ServerEvent {
    /// The central enabled notifications on the temperature characteristic.
    NotificationsEnabled,
}

/// The GATT server: aggregates the contained services (currently just the
/// temperature service) and routes write and deferred-read callbacks to
/// whichever owns the written handle.
pub struct Server {
    pub temp: TempService,
}

impl Server {
    /// Aggregates the registered services.
    pub fn new(temp: TempService) -> (r: Server)
        ensures
            r.temp == temp,
    {
        Server { temp }
    }

    /// Routes a write: a non-empty write to the temperature service's
    /// notification-control descriptor yields the notifications-enabled
    /// event; every other write yields no event.
    pub fn on_write(&self, handle: u16, data: &[u8]) -> (r: Option<ServerEvent>)
        ensures
            r is Some <==> (handle == self.temp.cccd_handle && data@.len() > 0),
            r matches Some(e) ==> e == ServerEvent::NotificationsEnabled,
    {
        if self.temp.on_write(handle, data) {
            Some(ServerEvent::NotificationsEnabled)
        } else {
            None
        }
    }

    /// Answers a deferred read: replies exactly once, with the well-formed
    /// 2-byte placeholder payload, whatever the handle and offset.
    pub fn on_deferred_read(&self, _handle: u16, _offset: usize, reply: &mut DeferredReadReply)
        requires
            !old(reply).replied,
        ensures
            final(reply).replied,
            final(reply).sent@ == seq![0x34u8, 0x12u8],
    {
        let payload: [u8; 2] = [0x34u8, 0x12u8];
        proof {
            assert(payload@ =~= seq![0x34u8, 0x12u8]);
        }
        reply.reply(payload.as_slice());
    }
}

} // verus!
