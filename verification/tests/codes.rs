use virtio_sound::codes::NotificationType;
use virtio_sound::codes::RequestStatusCode;

#[test]
fn notification_type_from_code() {
    assert_eq!(NotificationType::n(0x1000), Some(NotificationType::JackConnected));
    assert_eq!(NotificationType::n(0x1001), Some(NotificationType::JackDisconnected));
    assert_eq!(NotificationType::n(0x1100), Some(NotificationType::PcmPeriodElapsed));
    assert_eq!(NotificationType::n(0x1101), Some(NotificationType::PcmXrun));
    assert_eq!(NotificationType::n(0x1200), None);
    assert_eq!(NotificationType::n(0), None);
}

#[test]
fn status_codes_on_the_wire() {
    assert_eq!(RequestStatusCode::SOk.code(), 0x8000);
    assert_eq!(RequestStatusCode::BadMsg.code(), 0x8001);
    assert_eq!(RequestStatusCode::NotSupp.code(), 0x8002);
    assert_eq!(RequestStatusCode::IoErr.code(), 0x8003);
    assert_eq!(RequestStatusCode::from_code(0x8003), Some(RequestStatusCode::IoErr));
    assert_eq!(RequestStatusCode::from_code(0x8004), None);
}
