//! Names that carry the plugin they come from, numbers of any kind, and where an event came from.

use vstd::prelude::*;
use crate::device::DeviceIdentifier;
use crate::text::to_owned;

verus! {

/// Name that also contains plugin name, used to differentiate things made by different plugins
#[derive(Clone, Debug)]
pub struct NamespacedName {
    /// Plugin name that the thing originated from
    pub(crate) plugin_name: String,
    /// Name of the thing
    pub name: String,
}

impl View for NamespacedName {
    /// The plugin name and the name.
    type V = (Seq<char>, Seq<char>);

    closed spec fn view(&self) -> (Seq<char>, Seq<char>) {
        (self.plugin_name@, self.name@)
    }
}

impl NamespacedName {
    /// Creates a new name based on a plugin, given by its name
    pub fn from_plugin(plugin_name: &str, name: &str) -> (r: NamespacedName)
        ensures
            r@ == (plugin_name@, name@),
    {
        NamespacedName { plugin_name: to_owned(plugin_name), name: to_owned(name) }
    }

    /// Name of the plugin that the thing originated from
    pub fn plugin_name(&self) -> (r: &str)
        ensures
            r@ == self@.0,
    {
        self.plugin_name.as_str()
    }

    /// A copy of the name
    pub fn duplicate(&self) -> (r: NamespacedName)
        ensures
            r@ == self@,
    {
        NamespacedName { plugin_name: self.plugin_name.clone(), name: self.name.clone() }
    }

    /// Whether two names are the same: same plugin and same name
    pub fn same_as(&self, other: &NamespacedName) -> (r: bool)
        ensures
            r == (self@ == other@),
    {
        crate::text::str_eq(self.plugin_name.as_str(), other.plugin_name.as_str()) && crate::text::str_eq(self.name.as_str(), other.name.as_str())
    }

    /// The name as text: the name, `@`, then the plugin name
    pub fn to_display_string(&self) -> (r: String)
        ensures
            r@ == self@.1 + "@"@ + self@.0,
    {
        let mut s = self.name.clone();
        s.append("@");
        s.append(self.plugin_name.as_str());
        s
    }
}

/// Source of the thing, used when user changes an option on an action, or presses an action, or on which input tick happened
#[derive(Debug)]
pub struct Source {
    /// Device the thing originated from
    pub device: DeviceIdentifier,
    /// Input where the thing originated from
    pub input: u16,
}

/// A 64-bit floating point number kept as its bit pattern.
#[derive(Clone, Copy, Debug, PartialEq, Eq, Structural)]
pub struct DoubleBits(pub u64);

/// Any numberable value; floating point numbers are kept as their bit patterns
#[derive(Clone, Copy, Debug, PartialEq, Eq, Structural)]
pub enum Number {
    /// 8 byte integer
    Integer(i64),
    /// 8 byte unsigned integer
    UnsignedInteger(u64),
    /// 4 byte floating point number
    Float(crate::ui::FloatBits),
    /// Double precision floating point number
    Double(DoubleBits),
}

/// Various errors that could happen while dealing with other types
#[derive(Clone, Copy, Debug, PartialEq, Eq, Structural)]
pub enum NumberError {
    /// The variant is not compatible
    IncompatibleVariant,
    /// When null was encountered
    NoValue,
}

impl Number {
    /// Checks if number is signed 8 byte integer
    pub fn is_i64(&self) -> (r: bool)
        ensures
            r == self is Integer,
    {
        match self {
            Number::Integer(_) => true,
            _ => false,
        }
    }

    /// Checks if number is unsigned 8 byte integer
    pub fn is_u64(&self) -> (r: bool)
        ensures
            r == self is UnsignedInteger,
    {
        match self {
            Number::UnsignedInteger(_) => true,
            _ => false,
        }
    }

    /// Checks if number is 4 byte floating point number
    pub fn is_f32(&self) -> (r: bool)
        ensures
            r == self is Float,
    {
        match self {
            Number::Float(_) => true,
            _ => false,
        }
    }

    /// Checks if number is double precision floating point number
    pub fn is_f64(&self) -> (r: bool)
        ensures
            r == self is Double,
    {
        match self {
            Number::Double(_) => true,
            _ => false,
        }
    }

    /// The signed integer, if the number is one
    pub fn try_into_i64(self) -> (r: Result<i64, NumberError>)
        ensures
            match self {
                Number::Integer(v) => r == Ok::<i64, NumberError>(v),
                _ => r == Err::<i64, NumberError>(NumberError::IncompatibleVariant),
            },
    {
        match self {
            Number::Integer(v) => Ok(v),
            _ => Err(NumberError::IncompatibleVariant),
        }
    }

    /// The unsigned integer, if the number is one
    pub fn try_into_u64(self) -> (r: Result<u64, NumberError>)
        ensures
            match self {
                Number::UnsignedInteger(v) => r == Ok::<u64, NumberError>(v),
                _ => r == Err::<u64, NumberError>(NumberError::IncompatibleVariant),
            },
    {
        match self {
            Number::UnsignedInteger(v) => Ok(v),
            _ => Err(NumberError::IncompatibleVariant),
        }
    }

    /// The 4 byte float, if the number is one
    pub fn try_into_f32(self) -> (r: Result<crate::ui::FloatBits, NumberError>)
        ensures
            match self {
                Number::Float(v) => r == Ok::<crate::ui::FloatBits, NumberError>(v),
                _ => r == Err::<crate::ui::FloatBits, NumberError>(NumberError::IncompatibleVariant),
            },
    {
        match self {
            Number::Float(v) => Ok(v),
            _ => Err(NumberError::IncompatibleVariant),
        }
    }

    /// The double precision float, if the number is one
    pub fn try_into_f64(self) -> (r: Result<DoubleBits, NumberError>)
        ensures
            match self {
                Number::Double(v) => r == Ok::<DoubleBits, NumberError>(v),
                _ => r == Err::<DoubleBits, NumberError>(NumberError::IncompatibleVariant),
            },
    {
        match self {
            Number::Double(v) => Ok(v),
            _ => Err(NumberError::IncompatibleVariant),
        }
    }

    /// Returns i64 if the number is that
    pub fn as_i64(&self) -> (r: Option<i64>)
        ensures
            r == (match *self {
                Number::Integer(v) => Some(v),
                _ => None,
            }),
    {
        match self.try_into_i64() {
            Ok(v) => Some(v),
            Err(_) => None,
        }
    }

    /// Returns u64 if the number is that
    pub fn as_u64(&self) -> (r: Option<u64>)
        ensures
            r == (match *self {
                Number::UnsignedInteger(v) => Some(v),
                _ => None,
            }),
    {
        match self.try_into_u64() {
            Ok(v) => Some(v),
            Err(_) => None,
        }
    }

    /// Returns the 4 byte float if the number is that
    pub fn as_f32(&self) -> (r: Option<crate::ui::FloatBits>)
        ensures
            r == (match *self {
                Number::Float(v) => Some(v),
                _ => None,
            }),
    {
        match self.try_into_f32() {
            Ok(v) => Some(v),
            Err(_) => None,
        }
    }

    /// Returns the double precision float if the number is that
    pub fn as_f64(&self) -> (r: Option<DoubleBits>)
        ensures
            r == (match *self {
                Number::Double(v) => Some(v),
                _ => None,
            }),
    {
        match self.try_into_f64() {
            Ok(v) => Some(v),
            Err(_) => None,
        }
    }
}

/// What a number reads from in a MessagePack value: the kind of the value, and for an
/// integer whether it fits an `i64` and its value as one, or else as a `u64`.
#[derive(Clone, Copy, Debug)]
pub enum PackedNumber {
    /// An integer, with its value as an `i64` where it fits one and as a `u64` where it fits one
    Integer { signed: Option<i64>, unsigned: Option<u64> },
    /// A 4 byte float
    F32(crate::ui::FloatBits),
    /// A double precision float
    F64(DoubleBits),
    /// The nil value
    Nil,
    /// Any other kind of value
    Other,
}

/// Reads a number from a MessagePack value: an integer that fits an `i64` as a signed integer,
/// any other integer as an unsigned one (0 where it fits neither), floats as they are; nil is
/// no value, and every other kind is incompatible.
pub fn number_from_packed(value: PackedNumber) -> (r: Result<Number, NumberError>)
    ensures
        match value {
            PackedNumber::Integer { signed: Some(i), .. } => r == Ok::<Number, NumberError>(Number::Integer(i)),
            PackedNumber::Integer { signed: None, unsigned: Some(u) } => r == Ok::<Number, NumberError>(
                Number::UnsignedInteger(u),
            ),
            PackedNumber::Integer { signed: None, unsigned: None } => r == Ok::<Number, NumberError>(
                Number::UnsignedInteger(0),
            ),
            PackedNumber::F32(f) => r == Ok::<Number, NumberError>(Number::Float(f)),
            PackedNumber::F64(d) => r == Ok::<Number, NumberError>(Number::Double(d)),
            PackedNumber::Nil => r == Err::<Number, NumberError>(NumberError::NoValue),
            PackedNumber::Other => r == Err::<Number, NumberError>(NumberError::IncompatibleVariant),
        },
{
    match value {
        PackedNumber::Integer { signed, unsigned } => {
            match signed {
                Some(i) => Ok(Number::Integer(i)),
                None => Ok(
                    Number::UnsignedInteger(
                        match unsigned {
                            Some(u) => u,
                            None => 0,
                        },
                    ),
                ),
            }
        },
        PackedNumber::F32(f) => Ok(Number::Float(f)),
        PackedNumber::F64(d) => Ok(Number::Double(d)),
        PackedNumber::Nil => Err(NumberError::NoValue),
        PackedNumber::Other => Err(NumberError::IncompatibleVariant),
    }
}

impl From<i64> for Number {
    fn from(value: i64) -> (r: Self) {
        Number::Integer(value)
    }
}

impl vstd::std_specs::convert::FromSpecImpl<i64> for Number {
    open spec fn obeys_from_spec() -> bool {
        true
    }

    open spec fn from_spec(v: i64) -> Self {
        Number::Integer(v)
    }
}

impl From<u64> for Number {
    fn from(value: u64) -> (r: Self) {
        Number::UnsignedInteger(value)
    }
}

impl vstd::std_specs::convert::FromSpecImpl<u64> for Number {
    open spec fn obeys_from_spec() -> bool {
        true
    }

    open spec fn from_spec(v: u64) -> Self {
        Number::UnsignedInteger(v)
    }
}

} // verus!
