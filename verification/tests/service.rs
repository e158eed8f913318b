use ble_temp::service::{
    DeferredReadReply, Server, ServerEvent, TempService, temp_service_config, DEFERRED_READ_VALUE,
};

#[test]
fn service_config_is_bit_exact() {
    let cfg = temp_service_config();
    assert_eq!(
        cfg.service_uuid,
        [
            0x81, 0x1b, 0x86, 0x4d, 0x71, 0x8c, 0xb0, 0x35, 0x80, 0x4d, 0x92, 0xc4, 0x76, 0x12,
            0x43, 0xc0
        ]
    );
    assert_eq!(
        cfg.characteristic_uuid,
        [
            0x06, 0x01, 0xa0, 0x01, 0x0e, 0xca, 0xb5, 0xab, 0xed, 0xc2, 0x88, 0x7f, 0xd5, 0xf3,
            0x2b, 0x84
        ]
    );
    assert_eq!(cfg.initial_value, [0u8, 0u8]);
    assert!(cfg.readable && cfg.notifiable && cfg.deferred_read && cfg.security_open);
}

#[test]
fn handles_are_kept() {
    let svc = TempService::new(17, 18);
    assert_eq!(svc.value_handle, 17);
    assert_eq!(svc.cccd_handle, 18);
    assert_eq!(svc.temp_get(), 17);
}

#[test]
fn set_and_notify_address_the_value_attribute() {
    let svc = TempService::new(17, 18);
    let set = svc.temp_set(&[7u8]);
    assert_eq!(set.handle, 17);
    assert_eq!(set.bytes, vec![7u8]);
    let notify = svc.temp_notify(&[1u8, 2, 3, 4]);
    assert_eq!(notify.handle, 17);
    assert_eq!(notify.bytes, vec![1u8, 2, 3, 4]);
}

#[test]
fn write_to_cccd_enables_notifications() {
    let svc = TempService::new(17, 18);
    assert!(svc.on_write(18, &[1u8, 0u8]));
    assert!(!svc.on_write(18, &[]));
    assert!(!svc.on_write(17, &[1u8]));
}

#[test]
fn server_routes_writes() {
    let server = Server::new(TempService::new(17, 18));
    assert_eq!(server.on_write(18, &[2u8, 0u8]), Some(ServerEvent::NotificationsEnabled));
    assert_eq!(server.on_write(18, &[]), None);
    assert_eq!(server.on_write(19, &[2u8]), None);
}

#[test]
fn deferred_read_replies_exactly_once_with_placeholder() {
    let server = Server::new(TempService::new(17, 18));
    let mut reply = DeferredReadReply::new();
    assert!(!reply.replied);
    server.on_deferred_read(17, 0, &mut reply);
    assert!(reply.replied);
    assert_eq!(reply.sent, DEFERRED_READ_VALUE.to_le_bytes().to_vec());
    assert_eq!(reply.sent.len(), 2);
}

#[test]
fn deferred_read_before_any_value_set() {
    // A read that arrives before the sampling task ever published: the
    // reply is still the well-formed 2-byte placeholder.
    let server = Server::new(TempService::new(17, 18));
    let mut reply = DeferredReadReply::new();
    server.on_deferred_read(17, 0, &mut reply);
    assert!(reply.replied);
    assert_eq!(reply.sent, vec![0x34u8, 0x12u8]);
}
