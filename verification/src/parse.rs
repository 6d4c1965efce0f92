//! Reading values typed at the prompt into values of user interface fields.
//!
//! Integers and booleans are read here the way Rust's `str::parse` reads them; floating point
//! numbers are read by the caller and handed in as bit patterns.

use vstd::prelude::*;
use crate::commands::{split_at_char, split_on, words};
use crate::text::{str_eq, to_owned};
use crate::ui::{FloatBits, UIFieldType, UIFieldValue};

verus! {

/// Whether a character is an ASCII decimal digit.
pub open spec fn is_digit(c: char) -> bool {
    '0' <= c <= '9'
}

/// The number that a string of decimal digits writes.
pub open spec fn digits_value(s: Seq<char>) -> nat
    decreases s.len(),
{
    if s.len() == 0 {
        0
    } else {
        digits_value(s.drop_last()) * 10 + ((s.last() as nat) - ('0' as nat)) as nat
    }
}

/// Whether a text starts with a minus sign that the number type allows.
pub open spec fn is_negative(s: Seq<char>, signed: bool) -> bool {
    signed && s.len() > 0 && s[0] == '-'
}

/// A text without the sign it starts with, if it starts with one the number type allows.
pub open spec fn digits_part(s: Seq<char>, signed: bool) -> Seq<char> {
    if s.len() > 0 && (s[0] == '+' || is_negative(s, signed)) {
        s.drop_first()
    } else {
        s
    }
}

/// Whether every character of a text is a digit.
pub open spec fn all_digits(s: Seq<char>) -> bool {
    forall|i: int| 0 <= i < s.len() ==> is_digit(#[trigger] s[i])
}

/// The integer a text writes in decimal, as `str::parse` reads it: an optional `+` (or, where
/// negative numbers are allowed, `-`), then at least one digit, and nothing else; within `lo..=hi`.
pub open spec fn parse_int(s: Seq<char>, signed: bool, lo: int, hi: int) -> Option<int> {
    let neg = is_negative(s, signed);
    let ds = digits_part(s, signed);
    if ds.len() == 0 || !all_digits(ds) {
        None
    } else {
        let v = if neg {
            -digits_value(ds)
        } else {
            digits_value(ds) as int
        };
        if lo <= v <= hi {
            Some(v)
        } else {
            None
        }
    }
}

/// Reads a decimal integer within `lo..=hi` from a text, as `str::parse` does.
pub fn parse_integer(s: &str, signed: bool, lo: i64, hi: i64) -> (r: Option<i64>)
    requires
        -0x1_0000_0000 <= lo <= 0,
        0 <= hi <= 0x1_0000_0000,
    ensures
        match parse_int(s@, signed, lo as int, hi as int) {
            Some(v) => r == Some(v as i64),
            None => r is None,
        },
{
    let n = s.unicode_len();
    if n == 0 {
        return None;
    }
    let first = s.get_char(0);
    let neg = signed && first == '-';
    let start: usize = if first == '+' || neg { 1 } else { 0 };
    let ghost ds = digits_part(s@, signed);
    assert(ds =~= s@.skip(start as int));
    if start >= n {
        return None;
    }
    let cap: u64 = 0x1_0000_0000;
    let mut acc: u64 = 0;
    let mut big = false;
    let mut i: usize = start;
    while i < n
        invariant
            n == s@.len(),
            start <= i <= n,
            ds == s@.skip(start as int),
            ds == digits_part(s@, signed),
            neg == is_negative(s@, signed),
            cap == 0x1_0000_0000,
            forall|j: int| 0 <= j < i - start ==> is_digit(#[trigger] ds[j]),
            big ==> digits_value(ds.take(i - start)) > cap,
            !big ==> acc == digits_value(ds.take(i - start)) && acc <= cap,
        decreases n - i,
    {
        let c = s.get_char(i);
        assert(ds[i - start] == c);
        if !('0' <= c && c <= '9') {
            assert(!is_digit(ds[i - start]));
            return None;
        }
        let ghost k = i - start;
        proof {
            assert(ds.take(k + 1).drop_last() =~= ds.take(k));
            assert(ds.take(k + 1).last() == c);
        }
        if !big {
            let d = (c as u64) - ('0' as u64);
            let next = acc * 10 + d;
            if next > cap {
                big = true;
            } else {
                acc = next;
            }
        }
        i += 1;
    }
    assert(ds.take(n - start) =~= ds);
    if big {
        return None;
    }
    if neg {
        let v: i64 = 0 - (acc as i64);
        if v < lo {
            return None;
        }
        Some(v)
    } else {
        let v: i64 = acc as i64;
        if v > hi {
            return None;
        }
        Some(v)
    }
}

/// A `usize` as a text writes it.
pub open spec fn parse_usize(s: Seq<char>) -> Option<int> {
    parse_int(s, false, 0, usize::MAX as int)
}

/// Reads a `usize` from a text, as `str::parse` does.
pub fn parse_index(s: &str) -> (r: Option<usize>)
    ensures
        match parse_usize(s@) {
            Some(v) => r == Some(v as usize),
            None => r is None,
        },
{
    let n = s.unicode_len();
    if n == 0 {
        return None;
    }
    let first = s.get_char(0);
    let start: usize = if first == '+' { 1 } else { 0 };
    let ghost ds = digits_part(s@, false);
    assert(ds =~= s@.skip(start as int));
    if start >= n {
        return None;
    }
    let mut acc: usize = 0;
    let mut big = false;
    let mut i: usize = start;
    while i < n
        invariant
            n == s@.len(),
            start <= i <= n,
            ds == s@.skip(start as int),
            ds == digits_part(s@, false),
            forall|j: int| 0 <= j < i - start ==> is_digit(#[trigger] ds[j]),
            big ==> digits_value(ds.take(i - start)) > usize::MAX,
            !big ==> acc == digits_value(ds.take(i - start)),
        decreases n - i,
    {
        let c = s.get_char(i);
        assert(ds[i - start] == c);
        if !('0' <= c && c <= '9') {
            assert(!is_digit(ds[i - start]));
            return None;
        }
        let ghost k = i - start;
        proof {
            assert(ds.take(k + 1).drop_last() =~= ds.take(k));
            assert(ds.take(k + 1).last() == c);
        }
        if !big {
            let d: usize = ((c as u32) - ('0' as u32)) as usize;
            match acc.checked_mul(10) {
                Some(m) => match m.checked_add(d) {
                    Some(next) => {
                        acc = next;
                    },
                    None => {
                        big = true;
                    },
                },
                None => {
                    big = true;
                },
            }
        }
        i += 1;
    }
    assert(ds.take(n - start) =~= ds);
    if big {
        return None;
    }
    Some(acc)
}

/// The boolean a text writes, as `str::parse` reads it.
pub open spec fn parse_bool(s: Seq<char>) -> Option<bool> {
    if s == "true"@ {
        Some(true)
    } else if s == "false"@ {
        Some(false)
    } else {
        None
    }
}

/// Reads a boolean from a text, as `str::parse` does.
pub fn parse_boolean(s: &str) -> (r: Option<bool>)
    ensures
        r == parse_bool(s@),
{
    if str_eq(s, "true") {
        Some(true)
    } else if str_eq(s, "false") {
        Some(false)
    } else {
        None
    }
}

/// An `i32` as a text writes it.
pub open spec fn parse_i32(s: Seq<char>) -> Option<int> {
    parse_int(s, true, -0x8000_0000, 0x7fff_ffff)
}

/// A `u32` as a text writes it.
pub open spec fn parse_u32(s: Seq<char>) -> Option<int> {
    parse_int(s, false, 0, 0xffff_ffff)
}

/// A `u8` as a text writes it.
pub open spec fn parse_u8(s: Seq<char>) -> Option<int> {
    parse_int(s, false, 0, 0xff)
}

fn read_i32(s: &str) -> (r: Option<i32>)
    ensures
        match parse_i32(s@) {
            Some(v) => r == Some(v as i32),
            None => r is None,
        },
{
    match parse_integer(s, true, -0x8000_0000, 0x7fff_ffff) {
        Some(v) => Some(v as i32),
        None => None,
    }
}

fn read_u32(s: &str) -> (r: Option<u32>)
    ensures
        match parse_u32(s@) {
            Some(v) => r == Some(v as u32),
            None => r is None,
        },
{
    match parse_integer(s, false, 0, 0xffff_ffff) {
        Some(v) => Some(v as u32),
        None => None,
    }
}

pub(crate) fn read_u8(s: &str) -> (r: Option<u8>)
    ensures
        match parse_u8(s@) {
            Some(v) => r == Some(v as u8),
            None => r is None,
        },
{
    match parse_integer(s, false, 0, 0xff) {
        Some(v) => Some(v as u8),
        None => None,
    }
}

/// Piece `k` of a text split at commas, or the empty text where there are fewer pieces.
pub open spec fn part(s: Seq<char>, k: int) -> Seq<char> {
    let ps = split_on(s, ',');
    if k < ps.len() {
        ps[k]
    } else {
        Seq::empty()
    }
}

fn part_of(pieces: &Vec<String>, k: usize) -> (r: String)
    ensures
        r@ == (if k < pieces@.len() {
            pieces@[k as int]@
        } else {
            Seq::empty()
        }),
{
    if k < pieces.len() {
        pieces[k].clone()
    } else {
        String::new()
    }
}

/// The value that a text typed for a field of type `ty` stands for, if it stands for one.
/// `float` is the text read as a float, and `float_pair` its first two comma-separated
/// pieces read as floats (a missing piece reads as the empty text).
pub open spec fn parsed_value(
    value: Seq<char>,
    ty: UIFieldType,
    float: Option<FloatBits>,
    float_pair: (Option<FloatBits>, Option<FloatBits>),
    r: Option<UIFieldValue>,
) -> bool {
    match ty {
        UIFieldType::InputFieldFloat | UIFieldType::ValueSliderFloat(_) => match float {
            Some(f) => r == Some(UIFieldValue::InputFieldFloat(f)),
            None => r is None,
        },
        UIFieldType::InputFieldInteger => match parse_i32(value) {
            Some(v) => r == Some(UIFieldValue::InputFieldInteger(v as i32)),
            None => r is None,
        },
        UIFieldType::ValueSliderInteger(_) => match parse_i32(value) {
            Some(v) => r == Some(UIFieldValue::ValueSliderInteger(v as i32)),
            None => r is None,
        },
        UIFieldType::InputFieldUnsignedInteger => match parse_u32(value) {
            Some(v) => r == Some(UIFieldValue::InputFieldUnsignedInteger(v as u32)),
            None => r is None,
        },
        UIFieldType::InputFieldString | UIFieldType::Choice(_) => r matches Some(UIFieldValue::InputFieldString(s))
            && s@ == value,
        UIFieldType::InputFieldFloat2 => match float_pair {
            (Some(a), Some(b)) => r == Some(UIFieldValue::InputFieldFloat2(a, b)),
            _ => r is None,
        },
        UIFieldType::InputFieldInteger2 => match (parse_i32(part(value, 0)), parse_i32(part(value, 1))) {
            (Some(a), Some(b)) => r == Some(UIFieldValue::InputFieldInteger2(a as i32, b as i32)),
            _ => r is None,
        },
        UIFieldType::Checkbox { .. } => match parse_bool(value) {
            Some(b) => r == Some(UIFieldValue::Checkbox(b)),
            None => r is None,
        },
        UIFieldType::Color => match (
            parse_u8(part(value, 0)),
            parse_u8(part(value, 1)),
            parse_u8(part(value, 2)),
            parse_u8(part(value, 3)),
        ) {
            (Some(a), Some(b), Some(c), Some(d)) => r == Some(UIFieldValue::Color(a as u8, b as u8, c as u8, d as u8)),
            _ => r is None,
        },
        UIFieldType::ImageData => r matches Some(UIFieldValue::ImageData(s)) && s@ == value,
        UIFieldType::ExistingImage => r matches Some(UIFieldValue::ExistingImage(s)) && s@ == value,
        UIFieldType::Font => r matches Some(UIFieldValue::Font(s)) && s@ == value,
        UIFieldType::Button { disabled } => if disabled {
            r is None
        } else {
            r == Some(UIFieldValue::Button)
        },
        _ => r is None,
    }
}

/// Reads a text typed at the prompt as a value for a field of type `ty`; nothing where the
/// type takes no typed value or the text does not read as one. `float` must be the text read
/// as an `f32`, and `float_pair` its first two comma-separated pieces read as `f32`s.
pub fn parse_string_to_value(
    value: &str,
    ty: &UIFieldType,
    float: Option<FloatBits>,
    float_pair: (Option<FloatBits>, Option<FloatBits>),
) -> (r: Option<UIFieldValue>)
    ensures
        parsed_value(value@, *ty, float, float_pair, r),
{
    match ty {
        UIFieldType::Header | UIFieldType::Label | UIFieldType::ImagePreview => None,
        UIFieldType::InputFieldFloat | UIFieldType::ValueSliderFloat(_) => match float {
            Some(f) => Some(UIFieldValue::InputFieldFloat(f)),
            None => None,
        },
        UIFieldType::InputFieldInteger => match read_i32(value) {
            Some(v) => Some(UIFieldValue::InputFieldInteger(v)),
            None => None,
        },
        UIFieldType::InputFieldString => Some(UIFieldValue::InputFieldString(to_owned(value))),
        UIFieldType::InputFieldFloat2 => match float_pair {
            (Some(a), Some(b)) => Some(UIFieldValue::InputFieldFloat2(a, b)),
            _ => None,
        },
        UIFieldType::InputFieldInteger2 => {
            let parts = split_at_char(value, ',');
            let p0 = part_of(&parts, 0);
            let p1 = part_of(&parts, 1);
            match read_i32(p0.as_str()) {
                Some(a) => match read_i32(p1.as_str()) {
                    Some(b) => Some(UIFieldValue::InputFieldInteger2(a, b)),
                    None => None,
                },
                None => None,
            }
        },
        UIFieldType::InputFieldUnsignedInteger => match read_u32(value) {
            Some(v) => Some(UIFieldValue::InputFieldUnsignedInteger(v)),
            None => None,
        },
        UIFieldType::ValueSliderInteger(_) => match read_i32(value) {
            Some(v) => Some(UIFieldValue::ValueSliderInteger(v)),
            None => None,
        },
        UIFieldType::Collapsable => None,
        UIFieldType::Array(_) => None,
        UIFieldType::Choice(_) => Some(UIFieldValue::InputFieldString(to_owned(value))),
        UIFieldType::Checkbox { .. } => match parse_boolean(value) {
            Some(b) => Some(UIFieldValue::Checkbox(b)),
            None => None,
        },
        UIFieldType::Color => {
            let parts = split_at_char(value, ',');
            let p0 = part_of(&parts, 0);
            let p1 = part_of(&parts, 1);
            let p2 = part_of(&parts, 2);
            let p3 = part_of(&parts, 3);
            match (read_u8(p0.as_str()), read_u8(p1.as_str()), read_u8(p2.as_str()), read_u8(p3.as_str())) {
                (Some(a), Some(b), Some(c), Some(d)) => Some(UIFieldValue::Color(a, b, c, d)),
                _ => None,
            }
        },
        UIFieldType::ImageData => Some(UIFieldValue::ImageData(to_owned(value))),
        UIFieldType::ExistingImage => Some(UIFieldValue::ExistingImage(to_owned(value))),
        UIFieldType::Font => Some(UIFieldValue::Font(to_owned(value))),
        UIFieldType::Button { disabled } => {
            if *disabled {
                None
            } else {
                Some(UIFieldValue::Button)
            }
        },
    }
}

} // verus!
