//! The records that describe an attached device.

use vstd::prelude::*;

verus! {

/// One enumerated device. Two identities name the same physical device when
/// their `unique_id` is the same; the other fields are descriptive.
#[derive(Debug, PartialEq, Eq)]
pub struct DeviceIdentity {
    pub unique_id: String,
    pub vendor_id: u16,
    pub product_id: u16,
    pub manufacturer: Option<String>,
    pub product: Option<String>,
}

/// The mathematical model of a [`DeviceIdentity`].
pub struct DeviceIdentityView {
    pub unique_id: Seq<char>,
    pub vendor_id: u16,
    pub product_id: u16,
    pub manufacturer: Option<Seq<char>>,
    pub product: Option<Seq<char>>,
}

impl View for DeviceIdentity {
    type V = DeviceIdentityView;

    open spec fn view(&self) -> DeviceIdentityView {
        DeviceIdentityView {
            unique_id: self.unique_id@,
            vendor_id: self.vendor_id,
            product_id: self.product_id,
            manufacturer: self.manufacturer.deep_view(),
            product: self.product.deep_view(),
        }
    }
}

impl DeepView for DeviceIdentity {
    type V = DeviceIdentityView;

    open spec fn deep_view(&self) -> DeviceIdentityView {
        self@
    }
}

/// A copy of an optional string, equal to it character for character.
fn clone_optional_text(text: &Option<String>) -> (copy: Option<String>)
    ensures
        copy.deep_view() == text.deep_view(),
{
    match text {
        Some(s) => Some(s.clone()),
        None => None,
    }
}

impl Clone for DeviceIdentity {
    fn clone(&self) -> (copy: Self)
        ensures
            copy@ == self@,
    {
        DeviceIdentity {
            unique_id: self.unique_id.clone(),
            vendor_id: self.vendor_id,
            product_id: self.product_id,
            manufacturer: clone_optional_text(&self.manufacturer),
            product: clone_optional_text(&self.product),
        }
    }
}

impl DeviceIdentity {
    /// Whether `self` and `other` name the same physical device.
    pub fn same_device(&self, other: &DeviceIdentity) -> (same: bool)
        ensures
            same == (self@.unique_id == other@.unique_id),
    {
        self.unique_id == other.unique_id
    }
}

/// What the monitor reads of the attributes that a device reports about itself.
#[derive(Debug, PartialEq, Eq)]
pub struct DeviceFeatures {
    pub label: Option<String>,
    pub version: String,
    pub bootloader_mode: bool,
    pub initialized: bool,
}

/// The mathematical model of [`DeviceFeatures`].
pub struct DeviceFeaturesView {
    pub label: Option<Seq<char>>,
    pub version: Seq<char>,
    pub bootloader_mode: bool,
    pub initialized: bool,
}

impl View for DeviceFeatures {
    type V = DeviceFeaturesView;

    open spec fn view(&self) -> DeviceFeaturesView {
        DeviceFeaturesView {
            label: self.label.deep_view(),
            version: self.version@,
            bootloader_mode: self.bootloader_mode,
            initialized: self.initialized,
        }
    }
}

impl DeepView for DeviceFeatures {
    type V = DeviceFeaturesView;

    open spec fn deep_view(&self) -> DeviceFeaturesView {
        self@
    }
}

impl Clone for DeviceFeatures {
    fn clone(&self) -> (copy: Self)
        ensures
            copy@ == self@,
    {
        DeviceFeatures {
            label: clone_optional_text(&self.label),
            version: self.version.clone(),
            bootloader_mode: self.bootloader_mode,
            initialized: self.initialized,
        }
    }
}

/// What a device still needs before normal use, as the readiness evaluator
/// judged it.
#[derive(Debug, Clone, Copy, PartialEq, Eq, Structural)]
pub struct ReadinessVerdict {
    pub needs_bootloader_update: bool,
    pub needs_firmware_update: bool,
    pub needs_initialization: bool,
}

impl ReadinessVerdict {
    /// A device is fully ready when it needs nothing.
    pub open spec fn fully_ready(self) -> bool {
        !self.needs_bootloader_update && !self.needs_firmware_update && !self.needs_initialization
    }

    /// Whether the device needs nothing before normal use.
    pub fn is_fully_ready(&self) -> (ready: bool)
        ensures
            ready == self.fully_ready(),
    {
        !self.needs_bootloader_update && !self.needs_firmware_update && !self.needs_initialization
    }
}

} // verus!
