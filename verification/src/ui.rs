//! Definitions of the fields that modules expose to the user interface, and their values.
//!
//! Floating point numbers are carried by their IEEE-754 bit patterns ([FloatBits]).

use vstd::prelude::*;
use crate::text::{to_owned, str_eq};

verus! {

/// A 32-bit floating point number kept as its bit pattern.
#[derive(Clone, Copy, Debug, PartialEq, Eq, Structural)]
pub struct FloatBits(pub u32);

/// Information for running sliders in UI
#[derive(Clone, Debug)]
pub struct UIScalar<T: PartialEq> {
    /// Default value slider will have
    pub default_value: T,
    /// Maximum value for the slider
    pub max_value: T,
    /// Minimum value for the slider
    pub min_value: T,
    /// How precise the slider will be in UI
    pub step: T,
    /// To allow manually inputting values outside of the range
    pub allow_out_of_bounds: bool,
}

/// UI Field, will be represented in a list similar to Unity's inspector
#[derive(Debug)]
pub struct UIField {
    pub name: String,
    pub display_name: String,
    pub description: String,
    pub ty: UIFieldType,
    pub default_value: UIFieldValue,
}

/// UI Value, represents what fields currently have
#[derive(Debug)]
pub struct UIValue {
    pub name: String,
    pub display_name: String,
    pub description: String,
    pub ty: UIFieldType,
    pub value: UIFieldValue,
}

/// UI Field Types, defines types that fields will have
#[derive(Debug)]
pub enum UIFieldType {
    /// Displays a header for separation reasons
    Header,
    /// Displays text
    Label,
    /// Text field that accepts float values
    InputFieldFloat,
    /// Text field that accepts integer values
    InputFieldInteger,
    /// Text field that accepts strings
    InputFieldString,
    /// Text field that accepts 2 float values
    InputFieldFloat2,
    /// Text field that accepts 2 integer values
    InputFieldInteger2,
    /// Text field that accepts only positive integer values
    InputFieldUnsignedInteger,
    /// Float slider of specified bounds
    ValueSliderFloat(UIScalar<FloatBits>),
    /// Integer slider of specified bounds
    ValueSliderInteger(UIScalar<i32>),
    /// Collapsable submenu
    Collapsable,
    /// Array of menus, this definition acts as a template of how to construct the array
    Array(Vec<UIField>),
    /// Choice dropdown
    Choice(Vec<String>),
    /// Checkbox
    Checkbox {
        /// If checkbox should appear disabled in UI
        disabled: bool,
    },
    /// Color picker
    Color,
    /// Image data encoded in base64
    ImageData,
    /// Image from image collection
    ExistingImage,
    /// Preview of an image
    ImagePreview,
    /// Font name
    Font,
    /// Button that can be pressed
    Button {
        /// If button should appear disabled in UI
        disabled: bool,
    },
}

/// UI Field value, current state of the settings
#[derive(Debug)]
pub enum UIFieldValue {
    /// Displays a header for separation reasons
    Header,
    /// Displays text
    Label(String),
    /// Text field that accepts float values
    InputFieldFloat(FloatBits),
    /// Text field that accepts integer values
    InputFieldInteger(i32),
    /// Text field that accepts strings
    InputFieldString(String),
    /// Text field that accepts 2 float values
    InputFieldFloat2(FloatBits, FloatBits),
    /// Text field that accepts 2 integer values
    InputFieldInteger2(i32, i32),
    /// Text field that accepts only positive integer values
    InputFieldUnsignedInteger(u32),
    /// Float slider of specified bounds
    ValueSliderFloat(FloatBits),
    /// Integer slider of specified bounds
    ValueSliderInteger(i32),
    /// Collapsable submenu
    Collapsable(Vec<UIValue>),
    /// Array of menus
    Array(Vec<Vec<UIValue>>),
    /// Choice dropdown
    Choice(String),
    /// Checkbox
    Checkbox(bool),
    /// Color picker
    Color(u8, u8, u8, u8),
    /// Image data encoded in base64
    ImageData(String),
    /// Image from image collection
    ExistingImage(String),
    /// Font name
    Font(String),
    /// Pressable button
    Button,
}

/// UI Path Value: a value together with the path that leads to it through its submenus and
/// arrays
#[derive(Debug)]
pub struct UIPathValue {
    pub name: String,
    pub path: String,
    pub display_name: String,
    pub description: String,
    pub ty: UIFieldType,
    pub value: UIPathFieldValue,
}

/// Value of a field with a path; submenus and arrays hold fields with paths
#[derive(Debug)]
pub enum UIPathFieldValue {
    /// Displays a header for separation reasons
    Header,
    /// Displays text
    Label(String),
    /// Text field that accepts float values
    InputFieldFloat(FloatBits),
    /// Text field that accepts integer values
    InputFieldInteger(i32),
    /// Text field that accepts strings
    InputFieldString(String),
    /// Text field that accepts 2 float values
    InputFieldFloat2(FloatBits, FloatBits),
    /// Text field that accepts 2 integer values
    InputFieldInteger2(i32, i32),
    /// Text field that accepts only positive integer values
    InputFieldUnsignedInteger(u32),
    /// Float slider of specified bounds
    ValueSliderFloat(FloatBits),
    /// Integer slider of specified bounds
    ValueSliderInteger(i32),
    /// Collapsable submenu
    Collapsable(Vec<UIPathValue>),
    /// Array of menus
    Array(Vec<Vec<UIPathValue>>),
    /// Choice dropdown
    Choice(String),
    /// Checkbox
    Checkbox(bool),
    /// Color picker
    Color(u8, u8, u8, u8),
    /// Image data encoded in base64
    ImageData(String),
    /// Image from image collection
    ExistingImage(String),
    /// Font name
    Font(String),
}

/// Text carried by the value variants that hold one.
pub open spec fn text_of(v: UIFieldValue) -> Option<Seq<char>> {
    match v {
        UIFieldValue::InputFieldString(s) => Some(s@),
        UIFieldValue::Choice(s) => Some(s@),
        UIFieldValue::ImageData(s) => Some(s@),
        UIFieldValue::ExistingImage(s) => Some(s@),
        UIFieldValue::Font(s) => Some(s@),
        UIFieldValue::Label(s) => Some(s@),
        _ => None,
    }
}

/// Error text of every failed conversion of a field value.
pub open spec fn incorrect_value() -> Seq<char> {
    seq!['I', 'n', 'c', 'o', 'r', 'r', 'e', 'c', 't', ' ', 'v', 'a', 'l', 'u', 'e']
}

fn incorrect_value_text() -> (r: String)
    ensures
        r@ == incorrect_value(),
{
    let s = "Incorrect value";
    proof {
        reveal_strlit("Incorrect value");
    }
    to_owned(s)
}

impl UIFieldValue {
    /// Checkbox state
    pub fn try_into_bool(&self) -> (r: Result<bool, String>)
        ensures
            match *self {
                UIFieldValue::Checkbox(b) => r == Ok::<bool, String>(b),
                _ => r is Err && r->Err_0@ == incorrect_value(),
            },
    {
        match self {
            UIFieldValue::Checkbox(b) => Ok(*b),
            _ => Err(incorrect_value_text()),
        }
    }

    /// Float of a float field or float slider, as its bit pattern
    pub fn try_into_f32(&self) -> (r: Result<FloatBits, String>)
        ensures
            match *self {
                UIFieldValue::InputFieldFloat(f) => r == Ok::<FloatBits, String>(f),
                UIFieldValue::ValueSliderFloat(f) => r == Ok::<FloatBits, String>(f),
                _ => r is Err && r->Err_0@ == incorrect_value(),
            },
    {
        match self {
            UIFieldValue::InputFieldFloat(f) => Ok(*f),
            UIFieldValue::ValueSliderFloat(f) => Ok(*f),
            _ => Err(incorrect_value_text()),
        }
    }

    /// Integer of an integer field or integer slider
    pub fn try_into_i32(&self) -> (r: Result<i32, String>)
        ensures
            match *self {
                UIFieldValue::InputFieldInteger(i) => r == Ok::<i32, String>(i),
                UIFieldValue::ValueSliderInteger(i) => r == Ok::<i32, String>(i),
                _ => r is Err && r->Err_0@ == incorrect_value(),
            },
    {
        match self {
            UIFieldValue::InputFieldInteger(i) => Ok(*i),
            UIFieldValue::ValueSliderInteger(i) => Ok(*i),
            _ => Err(incorrect_value_text()),
        }
    }

    /// Unsigned integer field
    pub fn try_into_u32(&self) -> (r: Result<u32, String>)
        ensures
            match *self {
                UIFieldValue::InputFieldUnsignedInteger(u) => r == Ok::<u32, String>(u),
                _ => r is Err && r->Err_0@ == incorrect_value(),
            },
    {
        match self {
            UIFieldValue::InputFieldUnsignedInteger(u) => Ok(*u),
            _ => Err(incorrect_value_text()),
        }
    }

    /// Pair of floats, as bit patterns
    pub fn try_into_f32_f32(&self) -> (r: Result<(FloatBits, FloatBits), String>)
        ensures
            match *self {
                UIFieldValue::InputFieldFloat2(a, b) => r == Ok::<(FloatBits, FloatBits), String>((a, b)),
                _ => r is Err && r->Err_0@ == incorrect_value(),
            },
    {
        match self {
            UIFieldValue::InputFieldFloat2(a, b) => Ok((*a, *b)),
            _ => Err(incorrect_value_text()),
        }
    }

    /// Pair of integers
    pub fn try_into_i32_i32(&self) -> (r: Result<(i32, i32), String>)
        ensures
            match *self {
                UIFieldValue::InputFieldInteger2(a, b) => r == Ok::<(i32, i32), String>((a, b)),
                _ => r is Err && r->Err_0@ == incorrect_value(),
            },
    {
        match self {
            UIFieldValue::InputFieldInteger2(a, b) => Ok((*a, *b)),
            _ => Err(incorrect_value_text()),
        }
    }

    /// Color
    pub fn try_into_color(&self) -> (r: Result<(u8, u8, u8, u8), String>)
        ensures
            match *self {
                UIFieldValue::Color(c1, c2, c3, c4) => r == Ok::<(u8, u8, u8, u8), String>((c1, c2, c3, c4)),
                _ => r is Err && r->Err_0@ == incorrect_value(),
            },
    {
        match self {
            UIFieldValue::Color(c1, c2, c3, c4) => Ok((*c1, *c2, *c3, *c4)),
            _ => Err(incorrect_value_text()),
        }
    }

    /// Text of any variant that holds text
    pub fn try_into_string(&self) -> (r: Result<String, String>)
        ensures
            match text_of(*self) {
                Some(t) => r is Ok && r->Ok_0@ == t,
                None => r is Err && r->Err_0@ == incorrect_value(),
            },
    {
        match self {
            UIFieldValue::InputFieldString(s) => Ok(s.clone()),
            UIFieldValue::Choice(s) => Ok(s.clone()),
            UIFieldValue::ImageData(s) => Ok(s.clone()),
            UIFieldValue::ExistingImage(s) => Ok(s.clone()),
            UIFieldValue::Font(s) => Ok(s.clone()),
            UIFieldValue::Label(s) => Ok(s.clone()),
            _ => Err(incorrect_value_text()),
        }
    }
}

/// Index of the value that a name lookup in a list of values finds: the last one with that name.
pub open spec fn last_named(values: Seq<UIValue>, name: Seq<char>) -> Option<int>
    decreases values.len(),
{
    if values.len() == 0 {
        None
    } else if values.last().name@ == name {
        Some(values.len() - 1)
    } else {
        last_named(values.drop_last(), name)
    }
}

/// Finds a value by name in a list of values; where several share the name, the last one
/// counts, as it does when the list is turned into a map keyed by name.
pub fn find_ui_value<'a>(values: &'a Vec<UIValue>, name: &str) -> (r: Option<&'a UIValue>)
    ensures
        match last_named(values@, name@) {
            Some(i) => r == Some(&values@[i]),
            None => r is None,
        },
{
    let mut i = values.len();
    proof {
        assert(values@.take(i as int) =~= values@);
    }
    while i > 0
        invariant
            i <= values@.len(),
            last_named(values@, name@) == last_named(values@.take(i as int), name@),
        decreases i,
    {
        proof {
            assert(values@.take(i as int).drop_last() =~= values@.take(i - 1));
        }
        if str_eq(values[i - 1].name.as_str(), name) {
            return Some(&values[i - 1]);
        }
        i -= 1;
    }
    proof {
        assert(values@.take(0) =~= Seq::<UIValue>::empty());
    }
    None
}

} // verus!
