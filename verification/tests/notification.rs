use device_monitor::device::{DeviceFeatures, DeviceIdentity, ReadinessVerdict};
use device_monitor::notification::{Notification, Payload, PayloadField, PayloadValue};
use device_monitor::text::tail_chars;

fn device() -> DeviceIdentity {
    DeviceIdentity {
        unique_id: "abc".to_string(),
        vendor_id: 1,
        product_id: 2,
        manufacturer: Some("m".to_string()),
        product: None,
    }
}

fn features() -> DeviceFeatures {
    DeviceFeatures {
        label: Some("l".to_string()),
        version: "7.10.0".to_string(),
        bootloader_mode: false,
        initialized: true,
    }
}

#[test]
fn every_event_has_its_name() {
    let verdict = ReadinessVerdict {
        needs_bootloader_update: false,
        needs_firmware_update: false,
        needs_initialization: false,
    };
    assert_eq!(Notification::status("x").event_name(), "status:update");
    assert_eq!(
        Notification::DeviceConnected { device: device() }.event_name(),
        "device:connected"
    );
    assert_eq!(Notification::ready(device(), features()).event_name(), "device:ready");
    assert_eq!(
        Notification::FeaturesUpdated {
            device_id: "abc".to_string(),
            features: features(),
            verdict,
        }
        .event_name(),
        "device:features-updated"
    );
    assert_eq!(
        Notification::DeviceDisconnected { device_id: "abc".to_string() }.event_name(),
        "device:disconnected"
    );
    assert_eq!(
        Notification::access_error("abc", "e".to_string()).event_name(),
        "device:access-error"
    );
}

fn text(key: &str, text: &str) -> PayloadField {
    PayloadField { key: key.to_string(), value: PayloadValue::Text { text: text.to_string() } }
}

#[test]
fn status_payload_names_its_text() {
    assert_eq!(
        Notification::status("Device ready").payload(),
        Payload::Fields { fields: vec![text("status", "Device ready")] }
    );
}

#[test]
fn connected_payload_is_the_device() {
    assert_eq!(
        Notification::DeviceConnected { device: device() }.payload(),
        Payload::Single { value: PayloadValue::Device { device: device() } }
    );
}

#[test]
fn disconnected_payload_names_the_identifier() {
    assert_eq!(
        Notification::DeviceDisconnected { device_id: "abc".to_string() }.payload(),
        Payload::Fields { fields: vec![text("deviceId", "abc")] }
    );
}

#[test]
fn ready_payload_names_device_features_and_status() {
    assert_eq!(
        Notification::ready(device(), features()).payload(),
        Payload::Fields {
            fields: vec![
                PayloadField {
                    key: "device".to_string(),
                    value: PayloadValue::Device { device: device() },
                },
                PayloadField {
                    key: "features".to_string(),
                    value: PayloadValue::Features { features: features() },
                },
                text("status", "ready"),
            ]
        }
    );
}

#[test]
fn features_payload_names_identifier_features_and_verdict() {
    let verdict = ReadinessVerdict {
        needs_bootloader_update: true,
        needs_firmware_update: false,
        needs_initialization: true,
    };
    assert_eq!(
        Notification::FeaturesUpdated { device_id: "abc".to_string(), features: features(), verdict }
            .payload(),
        Payload::Fields {
            fields: vec![
                text("deviceId", "abc"),
                PayloadField {
                    key: "features".to_string(),
                    value: PayloadValue::Features { features: features() },
                },
                PayloadField { key: "status".to_string(), value: PayloadValue::Verdict { verdict } },
            ]
        }
    );
}

#[test]
fn access_error_payload_names_its_four_texts() {
    assert_eq!(
        Notification::access_error("abc", "boom".to_string()).payload(),
        Payload::Fields {
            fields: vec![
                text("deviceId", "abc"),
                text("error", "boom"),
                text("errorType", "DEVICE_CLAIMED"),
                text("status", "error"),
            ]
        }
    );
}

#[test]
fn status_event_carries_its_text() {
    assert_eq!(
        Notification::status("Device ready"),
        Notification::StatusUpdate { status: "Device ready".to_string() }
    );
}

#[test]
fn ready_event_has_the_ready_status() {
    assert_eq!(
        Notification::ready(device(), features()),
        Notification::DeviceReady {
            device: device(),
            features: features(),
            status: "ready".to_string(),
        }
    );
}

#[test]
fn access_error_has_fixed_type_and_status() {
    assert_eq!(
        Notification::access_error("abc", "boom".to_string()),
        Notification::AccessError {
            device_id: "abc".to_string(),
            error: "boom".to_string(),
            error_type: "DEVICE_CLAIMED".to_string(),
            status: "error".to_string(),
        }
    );
}

#[test]
fn copies_are_equal_to_what_they_copy() {
    let event = Notification::ready(device(), features());
    assert_eq!(event.clone(), event);
    assert_eq!(device().clone(), device());
    assert_eq!(features().clone(), features());
}

#[test]
fn tail_keeps_the_last_characters() {
    assert_eq!(tail_chars("0123456789", 8), "23456789");
    assert_eq!(tail_chars("0123456789", 10), "0123456789");
    assert_eq!(tail_chars("0123456789", 11), "0123456789");
    assert_eq!(tail_chars("0123456789", 0), "");
    assert_eq!(tail_chars("", 8), "");
    assert_eq!(tail_chars("añb🔒c", 3), "b🔒c");
}
