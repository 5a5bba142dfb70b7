//! The events that the monitor hands to its listener.

use vstd::prelude::*;
use vstd::string::StringExecFns;
use crate::device::{
    DeviceFeatures, DeviceFeaturesView, DeviceIdentity, DeviceIdentityView, ReadinessVerdict,
};

verus! {

/// One event for the listener. Each variant is one event name; its fields are
/// the fields of the event's payload.
#[derive(Debug, PartialEq, Eq)]
pub enum Notification {
    /// A line of progress text.
    StatusUpdate { status: String },
    /// A device appeared in the enumeration.
    DeviceConnected { device: DeviceIdentity },
    /// A device answered the handshake and needs nothing.
    DeviceReady { device: DeviceIdentity, features: DeviceFeatures, status: String },
    /// The features of a device and the verdict on them.
    FeaturesUpdated { device_id: String, features: DeviceFeatures, verdict: ReadinessVerdict },
    /// A device left the enumeration.
    DeviceDisconnected { device_id: String },
    /// The features of a device could not be read.
    AccessError { device_id: String, error: String, error_type: String, status: String },
}

/// The mathematical model of a [`Notification`].
pub enum NotificationView {
    StatusUpdate { status: Seq<char> },
    DeviceConnected { device: DeviceIdentityView },
    DeviceReady { device: DeviceIdentityView, features: DeviceFeaturesView, status: Seq<char> },
    FeaturesUpdated {
        device_id: Seq<char>,
        features: DeviceFeaturesView,
        verdict: ReadinessVerdict,
    },
    DeviceDisconnected { device_id: Seq<char> },
    AccessError {
        device_id: Seq<char>,
        error: Seq<char>,
        error_type: Seq<char>,
        status: Seq<char>,
    },
}

impl View for Notification {
    type V = NotificationView;

    open spec fn view(&self) -> NotificationView {
        match self {
            Notification::StatusUpdate { status } => NotificationView::StatusUpdate {
                status: status@,
            },
            Notification::DeviceConnected { device } => NotificationView::DeviceConnected {
                device: device@,
            },
            Notification::DeviceReady {
                device,
                features,
                status,
            } => NotificationView::DeviceReady {
                device: device@,
                features: features@,
                status: status@,
            },
            Notification::FeaturesUpdated {
                device_id,
                features,
                verdict,
            } => NotificationView::FeaturesUpdated {
                device_id: device_id@,
                features: features@,
                verdict: *verdict,
            },
            Notification::DeviceDisconnected { device_id } => NotificationView::DeviceDisconnected {
                device_id: device_id@,
            },
            Notification::AccessError {
                device_id,
                error,
                error_type,
                status,
            } => NotificationView::AccessError {
                device_id: device_id@,
                error: error@,
                error_type: error_type@,
                status: status@,
            },
        }
    }
}

impl DeepView for Notification {
    type V = NotificationView;

    open spec fn deep_view(&self) -> NotificationView {
        self@
    }
}

impl NotificationView {
    /// The name under which the listener receives the event.
    pub open spec fn event_name(self) -> Seq<char> {
        match self {
            NotificationView::StatusUpdate { .. } => "status:update"@,
            NotificationView::DeviceConnected { .. } => "device:connected"@,
            NotificationView::DeviceReady { .. } => "device:ready"@,
            NotificationView::FeaturesUpdated { .. } => "device:features-updated"@,
            NotificationView::DeviceDisconnected { .. } => "device:disconnected"@,
            NotificationView::AccessError { .. } => "device:access-error"@,
        }
    }

    /// What the listener receives with the event.
    pub open spec fn payload(self) -> PayloadView {
        match self {
            NotificationView::StatusUpdate { status } => PayloadView::Fields {
                fields: seq![text_field("status"@, status)],
            },
            NotificationView::DeviceConnected { device } => PayloadView::Single {
                value: PayloadValueView::Device { device },
            },
            NotificationView::DeviceReady { device, features, status } => PayloadView::Fields {
                fields: seq![
                    PayloadFieldView { key: "device"@, value: PayloadValueView::Device { device } },
                    PayloadFieldView {
                        key: "features"@,
                        value: PayloadValueView::Features { features },
                    },
                    text_field("status"@, status),
                ],
            },
            NotificationView::FeaturesUpdated {
                device_id,
                features,
                verdict,
            } => PayloadView::Fields {
                fields: seq![
                    text_field("deviceId"@, device_id),
                    PayloadFieldView {
                        key: "features"@,
                        value: PayloadValueView::Features { features },
                    },
                    PayloadFieldView {
                        key: "status"@,
                        value: PayloadValueView::Verdict { verdict },
                    },
                ],
            },
            NotificationView::DeviceDisconnected { device_id } => PayloadView::Fields {
                fields: seq![text_field("deviceId"@, device_id)],
            },
            NotificationView::AccessError {
                device_id,
                error,
                error_type,
                status,
            } => PayloadView::Fields {
                fields: seq![
                    text_field("deviceId"@, device_id),
                    text_field("error"@, error),
                    text_field("errorType"@, error_type),
                    text_field("status"@, status),
                ],
            },
        }
    }

    /// A `status:update` event with the given text.
    pub open spec fn status(text: Seq<char>) -> NotificationView {
        NotificationView::StatusUpdate { status: text }
    }

    /// A `device:ready` event; its `status` field is always `ready`.
    pub open spec fn ready(
        device: DeviceIdentityView,
        features: DeviceFeaturesView,
    ) -> NotificationView {
        NotificationView::DeviceReady { device, features, status: "ready"@ }
    }

    /// A `device:access-error` event; its `error_type` is always
    /// `DEVICE_CLAIMED` and its `status` always `error`.
    pub open spec fn access_error(device_id: Seq<char>, error: Seq<char>) -> NotificationView {
        NotificationView::AccessError {
            device_id,
            error,
            error_type: "DEVICE_CLAIMED"@,
            status: "error"@,
        }
    }
}

/// One value inside the payload of an event.
#[derive(Debug, PartialEq, Eq)]
pub enum PayloadValue {
    Text { text: String },
    Device { device: DeviceIdentity },
    Features { features: DeviceFeatures },
    Verdict { verdict: ReadinessVerdict },
}

/// The mathematical model of a [`PayloadValue`].
pub enum PayloadValueView {
    Text { text: Seq<char> },
    Device { device: DeviceIdentityView },
    Features { features: DeviceFeaturesView },
    Verdict { verdict: ReadinessVerdict },
}

impl View for PayloadValue {
    type V = PayloadValueView;

    open spec fn view(&self) -> PayloadValueView {
        match self {
            PayloadValue::Text { text } => PayloadValueView::Text { text: text@ },
            PayloadValue::Device { device } => PayloadValueView::Device { device: device@ },
            PayloadValue::Features { features } => PayloadValueView::Features {
                features: features@,
            },
            PayloadValue::Verdict { verdict } => PayloadValueView::Verdict { verdict: *verdict },
        }
    }
}

/// One named value of a payload.
#[derive(Debug, PartialEq, Eq)]
pub struct PayloadField {
    pub key: String,
    pub value: PayloadValue,
}

/// The mathematical model of a [`PayloadField`].
pub struct PayloadFieldView {
    pub key: Seq<char>,
    pub value: PayloadValueView,
}

impl View for PayloadField {
    type V = PayloadFieldView;

    open spec fn view(&self) -> PayloadFieldView {
        PayloadFieldView { key: self.key@, value: self.value@ }
    }
}

impl DeepView for PayloadField {
    type V = PayloadFieldView;

    open spec fn deep_view(&self) -> PayloadFieldView {
        self@
    }
}

/// What the listener receives with an event: one value, or named values in
/// a fixed order.
#[derive(Debug, PartialEq, Eq)]
pub enum Payload {
    Single { value: PayloadValue },
    Fields { fields: Vec<PayloadField> },
}

/// The mathematical model of a [`Payload`].
pub enum PayloadView {
    Single { value: PayloadValueView },
    Fields { fields: Seq<PayloadFieldView> },
}

impl View for Payload {
    type V = PayloadView;

    open spec fn view(&self) -> PayloadView {
        match self {
            Payload::Single { value } => PayloadView::Single { value: value@ },
            Payload::Fields { fields } => PayloadView::Fields { fields: fields.deep_view() },
        }
    }
}

/// A named text.
pub open spec fn text_field(key: Seq<char>, text: Seq<char>) -> PayloadFieldView {
    PayloadFieldView { key, value: PayloadValueView::Text { text } }
}

impl Clone for Notification {
    fn clone(&self) -> (copy: Self)
        ensures
            copy@ == self@,
    {
        match self {
            Notification::StatusUpdate { status } => Notification::StatusUpdate {
                status: status.clone(),
            },
            Notification::DeviceConnected { device } => Notification::DeviceConnected {
                device: device.clone(),
            },
            Notification::DeviceReady { device, features, status } => Notification::DeviceReady {
                device: device.clone(),
                features: features.clone(),
                status: status.clone(),
            },
            Notification::FeaturesUpdated { device_id, features, verdict } => {
                Notification::FeaturesUpdated {
                    device_id: device_id.clone(),
                    features: features.clone(),
                    verdict: *verdict,
                }
            },
            Notification::DeviceDisconnected { device_id } => Notification::DeviceDisconnected {
                device_id: device_id.clone(),
            },
            Notification::AccessError { device_id, error, error_type, status } => {
                Notification::AccessError {
                    device_id: device_id.clone(),
                    error: error.clone(),
                    error_type: error_type.clone(),
                    status: status.clone(),
                }
            },
        }
    }
}

impl Notification {
    /// The name under which the listener receives the event.
    pub fn event_name(&self) -> (name: &'static str)
        ensures
            name@ == self@.event_name(),
    {
        match self {
            Notification::StatusUpdate { .. } => "status:update",
            Notification::DeviceConnected { .. } => "device:connected",
            Notification::DeviceReady { .. } => "device:ready",
            Notification::FeaturesUpdated { .. } => "device:features-updated",
            Notification::DeviceDisconnected { .. } => "device:disconnected",
            Notification::AccessError { .. } => "device:access-error",
        }
    }

    /// What the listener receives with the event.
    pub fn payload(&self) -> (payload: Payload)
        ensures
            payload@ == self@.payload(),
    {
        match self {
            Notification::StatusUpdate { status } => {
                let mut fields: Vec<PayloadField> = Vec::new();
                fields.push(text_entry("status", status));
                assert(fields.deep_view() =~= self@.payload()->fields);
                Payload::Fields { fields }
            },
            Notification::DeviceConnected { device } => Payload::Single {
                value: PayloadValue::Device { device: device.clone() },
            },
            Notification::DeviceReady { device, features, status } => {
                let mut fields: Vec<PayloadField> = Vec::new();
                fields.push(
                    PayloadField {
                        key: String::from_str("device"),
                        value: PayloadValue::Device { device: device.clone() },
                    },
                );
                fields.push(
                    PayloadField {
                        key: String::from_str("features"),
                        value: PayloadValue::Features { features: features.clone() },
                    },
                );
                fields.push(text_entry("status", status));
                assert(fields.deep_view() =~= self@.payload()->fields);
                Payload::Fields { fields }
            },
            Notification::FeaturesUpdated { device_id, features, verdict } => {
                let mut fields: Vec<PayloadField> = Vec::new();
                fields.push(text_entry("deviceId", device_id));
                fields.push(
                    PayloadField {
                        key: String::from_str("features"),
                        value: PayloadValue::Features { features: features.clone() },
                    },
                );
                fields.push(
                    PayloadField {
                        key: String::from_str("status"),
                        value: PayloadValue::Verdict { verdict: *verdict },
                    },
                );
                assert(fields.deep_view() =~= self@.payload()->fields);
                Payload::Fields { fields }
            },
            Notification::DeviceDisconnected { device_id } => {
                let mut fields: Vec<PayloadField> = Vec::new();
                fields.push(text_entry("deviceId", device_id));
                assert(fields.deep_view() =~= self@.payload()->fields);
                Payload::Fields { fields }
            },
            Notification::AccessError { device_id, error, error_type, status } => {
                let mut fields: Vec<PayloadField> = Vec::new();
                fields.push(text_entry("deviceId", device_id));
                fields.push(text_entry("error", error));
                fields.push(text_entry("errorType", error_type));
                fields.push(text_entry("status", status));
                assert(fields.deep_view() =~= self@.payload()->fields);
                Payload::Fields { fields }
            },
        }
    }

    /// A `status:update` event with the given text.
    pub fn status(text: &str) -> (event: Notification)
        ensures
            event@ == NotificationView::status(text@),
    {
        Notification::StatusUpdate { status: String::from_str(text) }
    }

    /// A `device:ready` event for `device` with `features`.
    pub fn ready(device: DeviceIdentity, features: DeviceFeatures) -> (event: Notification)
        ensures
            event@ == NotificationView::ready(device@, features@),
    {
        Notification::DeviceReady { device, features, status: String::from_str("ready") }
    }

    /// A `device:access-error` event for the device `device_id` with the text `error`.
    pub fn access_error(device_id: &str, error: String) -> (event: Notification)
        ensures
            event@ == NotificationView::access_error(device_id@, error@),
    {
        Notification::AccessError {
            device_id: String::from_str(device_id),
            error,
            error_type: String::from_str("DEVICE_CLAIMED"),
            status: String::from_str("error"),
        }
    }
}

/// A named text.
fn text_entry(key: &str, text: &String) -> (field: PayloadField)
    ensures
        field@ == text_field(key@, text@),
{
    PayloadField { key: String::from_str(key), value: PayloadValue::Text { text: text.clone() } }
}

} // verus!
