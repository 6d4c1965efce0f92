//! Button devices: where a button sits, what happens to it, and how the buttons are laid out.

use vstd::prelude::*;
use crate::text::to_owned;

verus! {

/// Button position
#[derive(Clone, Copy, Debug, PartialEq, Eq, Structural)]
pub struct ButtonPosition {
    /// Row of the button
    pub row: u16,
    /// Column of the button / Number of the button in the row
    pub column: u16,
}

impl From<(u16, u16)> for ButtonPosition {
    fn from(tuple: (u16, u16)) -> (r: Self) {
        ButtonPosition { row: tuple.0, column: tuple.1 }
    }
}

impl vstd::std_specs::convert::FromSpecImpl<(u16, u16)> for ButtonPosition {
    open spec fn obeys_from_spec() -> bool {
        true
    }

    open spec fn from_spec(v: (u16, u16)) -> Self {
        ButtonPosition { row: v.0, column: v.1 }
    }
}

/// Button events
#[derive(Clone, Copy, Debug, PartialEq, Eq, Structural)]
pub enum ButtonEvent {
    /// Button was pressed down
    ButtonDown(ButtonPosition),
    /// Button was released
    ButtonUp(ButtonPosition),
}

impl ButtonEvent {
    /// Name under which button events are dispatched
    pub fn name() -> (r: String)
        ensures
            r@ == "button_event"@,
    {
        to_owned("button_event")
    }
}

/// Layout of the buttons as an array of button counts in each row
#[derive(Debug)]
pub struct ButtonLayout(pub Vec<u8>);

/// Metadata describing the device
#[derive(Debug)]
pub struct DeviceMetadata {
    /// Driver that found the device
    pub driver_name: String,
    /// Unique identifier for the device
    pub identifier: String,
    /// If the device actually has a screen
    pub has_screen: bool,
    /// Image resolution of buttons
    pub resolution: (usize, usize),
    /// Button layout of the device
    pub layout: ButtonLayout,
}

/// All possible errors with device drivers
#[derive(Debug)]
pub enum DriverError {
    /// Device wasn't found with the driver
    DeviceNotFound,
    /// Failed to connect to the device
    FailedToConnect(String),
    /// If specified driver wasn't found
    NoSuchDriver,
    /// Identifier failed to be parsed
    InvalidIdentifier,
    /// Any other error, with its description
    Other(String),
}

/// Trait that device format images should implement
pub trait DeviceImageData {}

} // verus!
