//! Devices: what identifies one, what inputs it has, and what can go wrong with it.

use vstd::prelude::*;
use crate::data::NamespacedName;

verus! {

/// Defines what kind of input the thing provides
#[derive(Clone, Copy, Debug, PartialEq, Eq, Structural)]
pub enum InputType {
    /// Digital button
    Button,
    /// A toggle, switches state with each press
    Toggle,
    /// Analog button, value varies depending on depth or force of the press
    AnalogButton,
    /// Slider, value can be adjusted by moving the slider back and forth
    Slider,
    /// Knob, value can be adjusted by twisting the knob, but is limited
    Knob,
    /// Endless knob, can be endlessly turned in any direction
    EndlessKnob,
    /// XY panel, absolute position 2 dimensional input
    XYPanel,
    /// Joystick, 2 dimensional input where values are -1.0 to 1.0 floating point numbers
    XYStick,
    /// Trackball / Trackpad, 2 dimensional input where values are the distance the ball covered
    Trackball,
    /// Wildcard input that could express anything else, eg. proximity sensor, accelerometer, temperature sensor...
    Sensor,
}

/// An input piece for a device
#[derive(Clone, Copy, Debug, PartialEq, Eq)]
pub struct Input {
    /// Horizontal position of the input. Left is negative value, right is positive value
    pub x: i32,
    /// Vertical position of the input. Down is negative value, Up is positive value
    pub y: i32,
    /// Width of the input
    pub w: u32,
    /// Height of the input
    pub h: u32,
    /// Input type
    pub ty: InputType,
    /// If Some, the input will be considered to have a screen and specified resolution will be used for it
    pub resolution: Option<(u32, u32)>,
}

/// Unique data that differentiates a certain device from any other
#[derive(Debug)]
pub struct DeviceIdentifier {
    /// Driver that defined the device
    pub driver_name: NamespacedName,
    /// Identifier used for the device, eg. serial number
    pub identifier: String,
    /// Short description of the device, eg. "Elgato Stream Deck Plus"
    pub description: String,
}

/// Identifier retured by the implementations of the plugin, later transformed into [DeviceIdentifier]
#[derive(Debug)]
pub struct PartialIdentifier {
    /// Identifier used for the device, eg. serial number
    pub identifier: String,
    /// Short description of the device, eg. "Elgato Stream Deck Plus"
    pub description: String,
}

/// A device identifier as text: driver plugin, driver name, identifier and description.
pub open spec fn identifier_view(d: DeviceIdentifier) -> (Seq<char>, Seq<char>, Seq<char>, Seq<char>) {
    (d.driver_name@.0, d.driver_name@.1, d.identifier@, d.description@)
}

/// A partial identifier as text: identifier and description.
pub open spec fn partial_view(p: PartialIdentifier) -> (Seq<char>, Seq<char>) {
    (p.identifier@, p.description@)
}

/// An identifier without its driver.
pub open spec fn downgraded(d: (Seq<char>, Seq<char>, Seq<char>, Seq<char>)) -> (Seq<char>, Seq<char>) {
    (d.2, d.3)
}

/// A partial identifier given a driver.
pub open spec fn upgraded(p: (Seq<char>, Seq<char>), driver: (Seq<char>, Seq<char>)) -> (Seq<char>, Seq<char>, Seq<char>, Seq<char>) {
    (driver.0, driver.1, p.0, p.1)
}

impl DeviceIdentifier {
    /// Whether two identifiers denote the same device: same driver, identifier and description
    pub fn same_as(&self, other: &DeviceIdentifier) -> (r: bool)
        ensures
            r == (identifier_view(*self) == identifier_view(*other)),
    {
        self.driver_name.same_as(&other.driver_name) && crate::text::str_eq(self.identifier.as_str(), other.identifier.as_str())
            && crate::text::str_eq(self.description.as_str(), other.description.as_str())
    }

    /// A copy of the identifier
    pub fn duplicate(&self) -> (r: DeviceIdentifier)
        ensures
            identifier_view(r) == identifier_view(*self),
    {
        DeviceIdentifier {
            driver_name: self.driver_name.duplicate(),
            identifier: crate::text::to_owned(self.identifier.as_str()),
            description: crate::text::to_owned(self.description.as_str()),
        }
    }

    /// Strips driver name from the identifier so it can be used in constructing other structs
    pub fn downgrade(self) -> (r: PartialIdentifier)
        ensures
            partial_view(r) == downgraded(identifier_view(self)),
    {
        PartialIdentifier { identifier: self.identifier, description: self.description }
    }
}

impl PartialIdentifier {
    /// Upgrades partial identifier to actual identifier
    pub fn upgrade(self, driver_name: &NamespacedName) -> (r: DeviceIdentifier)
        ensures
            identifier_view(r) == upgraded(partial_view(self), driver_name@),
    {
        DeviceIdentifier { driver_name: driver_name.duplicate(), identifier: self.identifier, description: self.description }
    }
}

/// Metadata describing the device
#[derive(Debug)]
pub struct DeviceMetadata {
    /// Driver that found the device
    pub identifier: DeviceIdentifier,
    /// Input layout of the device
    pub layout: Vec<Input>,
}

/// Metadata returned by the implmentations of the plugin, later transformed into [DeviceMetadata]
#[derive(Debug)]
pub struct PartialMetadata {
    /// Driver that found the device
    pub identifier: PartialIdentifier,
    /// Input layout of the device
    pub layout: Vec<Input>,
}

impl PartialMetadata {
    /// Upgrades partial metadata to actual metadata
    pub fn upgrade(self, driver_name: &NamespacedName) -> (r: DeviceMetadata)
        ensures
            identifier_view(r.identifier) == upgraded(partial_view(self.identifier), driver_name@),
            r.layout@ == self.layout@,
    {
        DeviceMetadata { identifier: self.identifier.upgrade(driver_name), layout: self.layout }
    }
}

/// Upgrading a stripped identifier with the driver it had gives the identifier back.
pub proof fn law_downgrade_then_upgrade(d: (Seq<char>, Seq<char>, Seq<char>, Seq<char>))
    ensures
        upgraded(downgraded(d), (d.0, d.1)) == d,
{
}

/// Stripping the driver off an upgraded identifier gives the partial identifier back.
pub proof fn law_upgrade_then_downgrade(p: (Seq<char>, Seq<char>), driver: (Seq<char>, Seq<char>))
    ensures
        downgraded(upgraded(p, driver)) == p,
{
}

/// Issues that the device may encounter
#[derive(Debug)]
pub enum DeviceError {
    /// Device has been disconnected
    LostConnection,
    /// Returned if the driver for this device could not be found anymore
    DriverNoLongerExists,
    /// Any other error that could had happened with the device, with its description
    DeviceError(String),
}

} // verus!
