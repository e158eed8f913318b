use ble_temp::connloop::{
    adv_payload, conn_loop_step, LoopAction, LoopEvent, LoopState, PERIPHERAL_REQUESTS_SECURITY,
};
use ble_temp::shared::BLEConnect;

#[test]
fn advertisement_payload_is_bit_exact() {
    let p = adv_payload();
    let mut expected = vec![2u8, 0x01, 0x06, 10u8, 0x09];
    expected.extend_from_slice(b"HelloRust");
    assert_eq!(p, expected);
    assert_eq!(p.len(), 14);
}

#[test]
fn security_is_not_requested_by_default() {
    assert!(!PERIPHERAL_REQUESTS_SECURITY);
}

#[test]
fn idle_starts_advertising() {
    let t = conn_loop_step(LoopState::Idle, LoopEvent::Start, false);
    assert_eq!(t.next, LoopState::Advertising);
    assert_eq!(t.action, Some(LoopAction::StartAdvertising));
    assert_eq!(t.status_update, None);
}

#[test]
fn connection_without_security_enters_gatt_session() {
    let t = conn_loop_step(LoopState::Advertising, LoopEvent::ConnectionEstablished, false);
    assert_eq!(t.next, LoopState::GattSession);
    assert_eq!(t.action, Some(LoopAction::RunGattSession));
    assert_eq!(t.status_update, Some(BLEConnect::Connected));
}

#[test]
fn connection_with_security_waits_for_the_request() {
    let t = conn_loop_step(LoopState::Advertising, LoopEvent::ConnectionEstablished, true);
    assert_eq!(t.next, LoopState::SecurityPending);
    assert_eq!(t.action, Some(LoopAction::RequestSecurity));
    assert_eq!(t.status_update, Some(BLEConnect::Connected));
    let granted = conn_loop_step(LoopState::SecurityPending, LoopEvent::SecurityGranted, true);
    assert_eq!(granted.next, LoopState::GattSession);
    assert_eq!(granted.action, Some(LoopAction::RunGattSession));
}

#[test]
fn refused_security_abandons_the_connection() {
    let t = conn_loop_step(LoopState::SecurityPending, LoopEvent::SecurityRefused, true);
    assert_eq!(t.next, LoopState::Idle);
    assert_eq!(t.action, None);
    assert_eq!(t.status_update, Some(BLEConnect::Disconnected));
}

#[test]
fn advertising_failure_is_fatal() {
    let t = conn_loop_step(LoopState::Advertising, LoopEvent::AdvertisingFailed, false);
    assert_eq!(t.action, Some(LoopAction::Abort));
}

#[test]
fn session_end_restarts_the_loop() {
    let t = conn_loop_step(LoopState::GattSession, LoopEvent::SessionEnded, false);
    assert_eq!(t.next, LoopState::Idle);
    assert_eq!(t.status_update, Some(BLEConnect::Disconnected));
    // The loop then advertises again.
    let again = conn_loop_step(t.next, LoopEvent::Start, false);
    assert_eq!(again.action, Some(LoopAction::StartAdvertising));
}

#[test]
fn stray_events_change_nothing() {
    let t = conn_loop_step(LoopState::Idle, LoopEvent::SessionEnded, false);
    assert_eq!(t.next, LoopState::Idle);
    assert_eq!(t.action, None);
    assert_eq!(t.status_update, None);
}
