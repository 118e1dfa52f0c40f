//! Why no keyboard could be had.

use vstd::prelude::*;

verus! {

/// `hidapi::HidError`, the error of the HID layer: carried along, never
/// looked into.
#[verifier::external_type_specification]
#[verifier::external_body]
pub struct ExHidError(hidapi::HidError);

/// No device on the list is the keyboard that was asked for.
#[derive(Clone, Copy, Debug, PartialEq, Eq, Structural)]
pub struct DeviceNotFound;

impl DeviceNotFound {
    /// The words to show to the user.
    pub fn message(&self) -> (out: String)
        ensures
            out@ == "The requested device could not be found."@,
    {
        "The requested device could not be found.".to_owned()
    }
}

/// Why a keyboard could not be had.
#[derive(Debug)]
pub enum GetDeviceError {
    /// The HID layer failed before the devices were known.
    HidApiError(hidapi::HidError),
    /// The devices are known, and the keyboard is not among them.
    DeviceNotFound(DeviceNotFound),
}

impl From<hidapi::HidError> for GetDeviceError {
    fn from(value: hidapi::HidError) -> (out: Self) {
        GetDeviceError::HidApiError(value)
    }
}

impl vstd::std_specs::convert::FromSpecImpl<hidapi::HidError> for GetDeviceError {
    open spec fn obeys_from_spec() -> bool {
        true
    }

    open spec fn from_spec(value: hidapi::HidError) -> Self {
        GetDeviceError::HidApiError(value)
    }
}

impl From<DeviceNotFound> for GetDeviceError {
    fn from(value: DeviceNotFound) -> (out: Self) {
        GetDeviceError::DeviceNotFound(value)
    }
}

impl vstd::std_specs::convert::FromSpecImpl<DeviceNotFound> for GetDeviceError {
    open spec fn obeys_from_spec() -> bool {
        true
    }

    open spec fn from_spec(value: DeviceNotFound) -> Self {
        GetDeviceError::DeviceNotFound(value)
    }
}

} // verus!
