//! How the prompt lists the fields of a module or a component: one entry per field with its
//! name, description, path, type and value, submenus and arrays indented below their field.
//!
//! A listing is a sequence of lines, each a sequence of pieces. Text pieces are printed as
//! they are; the two other kinds stand for what the terminal prints in their place, the
//! decimal form of a float and a picture decoded from base64 image data.

use vstd::prelude::*;
use crate::localization::{decimal, decimal_text, digit_char};
use crate::commands::split_on;
use crate::parse::{all_digits, digits_value, is_digit, parse_bool, parse_int, parsed_value};
use crate::text::to_owned;
use crate::ui::{FloatBits, UIFieldType, UIFieldValue, UIPathFieldValue, UIPathValue, UIValue};

verus! {

/// Part of a printed line
#[derive(Debug)]
pub enum Piece {
    /// Text as it is
    Text(String),
    /// A float, printed in decimal
    Float(FloatBits),
    /// Base64 image data, shown as a picture
    Image(String),
}

/// Spec form of a piece
pub enum PieceView {
    Text(Seq<char>),
    Float(FloatBits),
    Image(Seq<char>),
}

impl View for Piece {
    type V = PieceView;

    open spec fn view(&self) -> PieceView {
        match self {
            Piece::Text(s) => PieceView::Text(s@),
            Piece::Float(f) => PieceView::Float(*f),
            Piece::Image(s) => PieceView::Image(s@),
        }
    }
}

/// Spec form of printed lines
pub open spec fn lines_view(lines: Seq<Vec<Piece>>) -> Seq<Seq<PieceView>> {
    lines.map_values(|l: Vec<Piece>| l@.map_values(|p: Piece| p@))
}

/// A line of text
pub open spec fn text_line(t: Seq<char>) -> Seq<PieceView> {
    seq![PieceView::Text(t)]
}

/// Path of a field below the path of its parent; the fields at the top have their name as path
pub open spec fn child_path(path: Seq<char>, name: Seq<char>) -> Seq<char> {
    if path.len() == 0 {
        name
    } else {
        path + "."@ + name
    }
}

/// An integer in decimal, with a minus sign when negative
pub open spec fn signed_decimal(i: int) -> Seq<char> {
    if i < 0 {
        "-"@ + decimal((-i) as nat)
    } else {
        decimal(i as nat)
    }
}

/// `true` or `false`
pub open spec fn bool_text(b: bool) -> Seq<char> {
    if b {
        "true"@
    } else {
        "false"@
    }
}

/// Texts joined by commas
pub open spec fn comma_joined(items: Seq<String>) -> Seq<char>
    decreases items.len(),
{
    if items.len() == 0 {
        Seq::empty()
    } else if items.len() == 1 {
        items[0]@
    } else {
        comma_joined(items.drop_last()) + ","@ + items.last()@
    }
}

/// How a colour is printed: its four parts in decimal, joined by commas
pub open spec fn color_text(c1: u8, c2: u8, c3: u8, c4: u8) -> Seq<char> {
    decimal(c1 as nat) + ","@ + decimal(c2 as nat) + ","@ + decimal(c3 as nat) + ","@ + decimal(c4 as nat)
}

/// How a pair of integers is printed: both in decimal, joined by a comma
pub open spec fn integer_pair_text(i1: i32, i2: i32) -> Seq<char> {
    signed_decimal(i1 as int) + ","@ + signed_decimal(i2 as int)
}

/// Indentation of the fields below a submenu or an array
pub open spec fn deeper(tabs: Seq<char>) -> Seq<char> {
    tabs + "  "@
}

/// `Type: ` and the given type name, indented
pub open spec fn type_line(tabs: Seq<char>, ty: Seq<char>) -> Seq<PieceView> {
    text_line(tabs + "Type: "@ + ty)
}

/// `Value: ` and the given text, indented
pub open spec fn value_line(tabs: Seq<char>, v: Seq<char>) -> Seq<PieceView> {
    text_line(tabs + "Value: "@ + v)
}

/// Lines of a list of fields below a path, each field followed by an empty line
pub open spec fn field_lines(items: Seq<UIValue>, path: Seq<char>, tabs: Seq<char>) -> Seq<Seq<PieceView>>
    decreases items, 0int,
{
    if items.len() == 0 {
        Seq::empty()
    } else {
        field_lines(items.subrange(0, items.len() - 1), path, tabs) + item_lines(items[items.len() - 1], path, tabs)
    }
}

/// Lines of the items of an array, each item's fields followed by an empty line; the items
/// are numbered from 0 in their paths
pub open spec fn array_lines(array: Seq<Vec<UIValue>>, path: Seq<char>, tabs: Seq<char>) -> Seq<Seq<PieceView>>
    decreases array, 0int,
{
    if array.len() == 0 {
        Seq::empty()
    } else {
        let k = array.len() - 1;
        array_lines(array.subrange(0, k), path, tabs) + field_lines(array[k]@, path + "."@ + decimal(k as nat), deeper(tabs))
            + seq![text_line(Seq::empty())]
    }
}

/// First lines of a field: its name and description
pub open spec fn item_head(item: UIValue, tabs: Seq<char>) -> Seq<Seq<PieceView>> {
    seq![text_line(tabs + item.display_name@), text_line(tabs + "Description: "@ + item.description@)]
}

/// Line with the path of a field, which headers and submenus do not have
pub open spec fn item_path_lines(item: UIValue, p: Seq<char>, tabs: Seq<char>) -> Seq<Seq<PieceView>> {
    match item.value {
        UIFieldValue::Header => Seq::empty(),
        UIFieldValue::Collapsable(_) => Seq::empty(),
        _ => seq![text_line(tabs + "Path: "@ + p)],
    }
}

/// Lines with the type and the value of a field whose path is `p`
pub open spec fn item_body(item: UIValue, p: Seq<char>, tabs: Seq<char>) -> Seq<Seq<PieceView>>
    decreases item, 0int,
{
    match item.value {
        UIFieldValue::Header => seq![type_line(tabs, "Header"@)],
        UIFieldValue::Label(s) => seq![type_line(tabs, "Label"@), value_line(tabs, s@)],
        UIFieldValue::InputFieldFloat(f) => seq![type_line(tabs, "Float"@),
            seq![PieceView::Text(tabs + "Value: "@), PieceView::Float(f)]],
        UIFieldValue::ValueSliderFloat(f) => seq![type_line(tabs, "Float"@),
            seq![PieceView::Text(tabs + "Value: "@), PieceView::Float(f)]],
        UIFieldValue::InputFieldInteger(i) => seq![type_line(tabs, "Integer"@), value_line(tabs, signed_decimal(i as int))],
        UIFieldValue::ValueSliderInteger(i) => seq![type_line(tabs, "Integer"@), value_line(tabs, signed_decimal(i as int))],
        UIFieldValue::InputFieldString(s) => seq![type_line(tabs, "String"@), value_line(tabs, s@)],
        UIFieldValue::InputFieldFloat2(f1, f2) => seq![type_line(tabs, "Float2"@),
            seq![PieceView::Text(tabs + "Value: "@), PieceView::Float(f1), PieceView::Text(","@), PieceView::Float(f2)]],
        UIFieldValue::InputFieldInteger2(i1, i2) => seq![type_line(tabs, "Integer2"@),
            value_line(tabs, integer_pair_text(i1, i2))],
        UIFieldValue::InputFieldUnsignedInteger(u) => seq![type_line(tabs, "Positive Integer"@),
            value_line(tabs, decimal(u as nat))],
        UIFieldValue::Choice(s) => seq![type_line(tabs, "Choice"@), value_line(tabs, s@)] + match item.ty {
            UIFieldType::Choice(variants) => seq![text_line(tabs + "Options: "@ + comma_joined(variants@))],
            _ => Seq::empty(),
        },
        UIFieldValue::Checkbox(b) => seq![type_line(tabs, "Boolean"@), value_line(tabs, bool_text(b))],
        UIFieldValue::Color(c1, c2, c3, c4) => seq![type_line(tabs, "Color"@),
            value_line(tabs, color_text(c1, c2, c3, c4))],
        UIFieldValue::Collapsable(sub) => seq![type_line(tabs, "Submenu"@), text_line(tabs + "Items:"@)]
            + field_lines(sub@, p, deeper(tabs)),
        UIFieldValue::Array(array) => seq![type_line(tabs, "Array"@), text_line(tabs + "Items:"@)]
            + array_lines(array@, p, tabs),
        UIFieldValue::ImageData(img) => seq![type_line(tabs, "ImageData"@), seq![PieceView::Image(img@)]],
        UIFieldValue::ExistingImage(id) => seq![type_line(tabs, "ExistingImage"@),
            text_line(tabs + "Identifier: "@ + id@)],
        UIFieldValue::Font(f) => seq![type_line(tabs, "Font"@),
            text_line(tabs + "Font Name: "@ + f@)],
        UIFieldValue::Button => seq![type_line(tabs, "Button"@)],
    }
}

/// Lines of one field: name, description, path (but for headers and submenus), type and
/// value, then an empty line
pub open spec fn item_lines(item: UIValue, path: Seq<char>, tabs: Seq<char>) -> Seq<Seq<PieceView>>
    decreases item, 1int,
{
    let p = child_path(path, item.name@);
    item_head(item, tabs) + item_path_lines(item, p, tabs) + item_body(item, p, tabs) + seq![text_line(Seq::empty())]
}

/// Lines of a list of fields that carry their paths, each field followed by an empty line
pub open spec fn path_field_lines(items: Seq<UIPathValue>, tabs: Seq<char>) -> Seq<Seq<PieceView>>
    decreases items, 0int,
{
    if items.len() == 0 {
        Seq::empty()
    } else {
        path_field_lines(items.subrange(0, items.len() - 1), tabs) + path_item_lines(items[items.len() - 1], tabs)
    }
}

/// Lines of the items of an array of fields that carry their paths, each item's fields
/// followed by an empty line
pub open spec fn path_array_lines(array: Seq<Vec<UIPathValue>>, tabs: Seq<char>) -> Seq<Seq<PieceView>>
    decreases array, 0int,
{
    if array.len() == 0 {
        Seq::empty()
    } else {
        let k = array.len() - 1;
        path_array_lines(array.subrange(0, k), tabs) + path_field_lines(array[k]@, deeper(tabs)) + seq![text_line(Seq::empty())]
    }
}

/// Line with the path a field carries, which headers and submenus do not have
pub open spec fn path_line_of(item: UIPathValue, tabs: Seq<char>) -> Seq<Seq<PieceView>> {
    match item.value {
        UIPathFieldValue::Header => Seq::empty(),
        UIPathFieldValue::Collapsable(_) => Seq::empty(),
        _ => seq![text_line(tabs + "Path: "@ + item.path@)],
    }
}

/// Lines with the type and the value of a field that carries its path
pub open spec fn path_item_body(item: UIPathValue, tabs: Seq<char>) -> Seq<Seq<PieceView>>
    decreases item, 0int,
{
    match item.value {
        UIPathFieldValue::Header => seq![type_line(tabs, "Header"@)],
        UIPathFieldValue::Label(s) => seq![type_line(tabs, "Label"@), value_line(tabs, s@)],
        UIPathFieldValue::InputFieldFloat(f) => seq![type_line(tabs, "Float"@),
            seq![PieceView::Text(tabs + "Value: "@), PieceView::Float(f)]],
        UIPathFieldValue::ValueSliderFloat(f) => seq![type_line(tabs, "Float"@),
            seq![PieceView::Text(tabs + "Value: "@), PieceView::Float(f)]],
        UIPathFieldValue::InputFieldInteger(i) => seq![type_line(tabs, "Integer"@), value_line(tabs, signed_decimal(i as int))],
        UIPathFieldValue::ValueSliderInteger(i) => seq![type_line(tabs, "Integer"@), value_line(tabs, signed_decimal(i as int))],
        UIPathFieldValue::InputFieldString(s) => seq![type_line(tabs, "String"@), value_line(tabs, s@)],
        UIPathFieldValue::InputFieldFloat2(f1, f2) => seq![type_line(tabs, "Float2"@),
            seq![PieceView::Text(tabs + "Value: "@), PieceView::Float(f1), PieceView::Text(","@), PieceView::Float(f2)]],
        UIPathFieldValue::InputFieldInteger2(i1, i2) => seq![type_line(tabs, "Integer2"@),
            value_line(tabs, integer_pair_text(i1, i2))],
        UIPathFieldValue::InputFieldUnsignedInteger(u) => seq![type_line(tabs, "Positive Integer"@),
            value_line(tabs, decimal(u as nat))],
        UIPathFieldValue::Choice(s) => seq![type_line(tabs, "Choice"@), value_line(tabs, s@)] + match item.ty {
            UIFieldType::Choice(variants) => seq![text_line(tabs + "Options: "@ + comma_joined(variants@))],
            _ => Seq::empty(),
        },
        UIPathFieldValue::Checkbox(b) => seq![type_line(tabs, "Boolean"@), value_line(tabs, bool_text(b))],
        UIPathFieldValue::Color(c1, c2, c3, c4) => seq![type_line(tabs, "Color"@),
            value_line(tabs, color_text(c1, c2, c3, c4))],
        UIPathFieldValue::Collapsable(sub) => seq![type_line(tabs, "Submenu"@), text_line(tabs + "Items:"@)]
            + path_field_lines(sub@, deeper(tabs)),
        UIPathFieldValue::Array(array) => seq![type_line(tabs, "Array"@), text_line(tabs + "Items:"@)]
            + path_array_lines(array@, tabs),
        UIPathFieldValue::ImageData(data) => seq![type_line(tabs, "ImageData"@), text_line(tabs + "Data: "@ + data@)],
        UIPathFieldValue::ExistingImage(id) => seq![type_line(tabs, "ExistingImage"@),
            text_line(tabs + "Identifier: "@ + id@)],
        UIPathFieldValue::Font(f) => seq![type_line(tabs, "Font"@),
            text_line(tabs + "Font Name: "@ + f@)],
    }
}

/// Lines of one field that carries its path: name, description, path (but for headers and
/// submenus), type and value, then an empty line
pub open spec fn path_item_lines(item: UIPathValue, tabs: Seq<char>) -> Seq<Seq<PieceView>>
    decreases item, 1int,
{
    seq![text_line(tabs + item.display_name@), text_line(tabs + "Description: "@ + item.description@)]
        + path_line_of(item, tabs) + path_item_body(item, tabs) + seq![text_line(Seq::empty())]
}

/// Text of an integer in decimal, with a minus sign when negative
pub fn int_text(i: i32) -> (r: String)
    ensures
        r@ == signed_decimal(i as int),
{
    if i < 0 {
        let wide: i64 = i as i64;
        let magnitude: u64 = (0 - wide) as u64;
        let mut r = to_owned("-");
        let digits = decimal_text(magnitude as usize);
        r.append(digits.as_str());
        r
    } else {
        let magnitude: u32 = i as u32;
        decimal_text(magnitude as usize)
    }
}

/// Texts joined by commas
pub fn comma_text(items: &Vec<String>) -> (r: String)
    ensures
        r@ == comma_joined(items@),
{
    let mut r = String::new();
    let mut i: usize = 0;
    while i < items.len()
        invariant
            i <= items@.len(),
            r@ == comma_joined(items@.take(i as int)),
        decreases items@.len() - i,
    {
        proof {
            assert(items@.take(i + 1).drop_last() =~= items@.take(i as int));
        }
        if i > 0 {
            r.append(",");
        } else {
            assert(items@.take(1)[0] == items@[0]);
        }
        r.append(items[i].as_str());
        i += 1;
    }
    proof {
        assert(items@.take(items@.len() as int) =~= items@);
    }
    r
}

/// The three texts one after the other
fn joined3(a: &str, b: &str, c: &str) -> (r: String)
    ensures
        r@ == a@ + b@ + c@,
{
    let mut r = to_owned(a);
    r.append(b);
    r.append(c);
    r
}

/// Adds a line of text
fn push_text(out: &mut Vec<Vec<Piece>>, t: String)
    ensures
        lines_view(final(out)@) == lines_view(old(out)@).push(text_line(t@)),
{
    let ghost tv = t@;
    let line = vec![Piece::Text(t)];
    let ghost lv = line@;
    out.push(line);
    proof {
        assert(lv.map_values(|p: Piece| p@) =~= text_line(tv));
        assert(lines_view(out@) =~= lines_view(old(out)@).push(text_line(tv)));
    }
}

/// Adds a line of pieces
fn push_line(out: &mut Vec<Vec<Piece>>, line: Vec<Piece>)
    ensures
        lines_view(final(out)@) == lines_view(old(out)@).push(line@.map_values(|p: Piece| p@)),
{
    let ghost lv = line@;
    out.push(line);
    proof {
        assert(lines_view(out@) =~= lines_view(old(out)@).push(lv.map_values(|p: Piece| p@)));
    }
}

/// Adds the lines of a list of fields below a path
pub fn push_fields(items: &Vec<UIValue>, path: &str, tabs: &str, out: &mut Vec<Vec<Piece>>)
    ensures
        lines_view(final(out)@) == lines_view(old(out)@) + field_lines(items@, path@, tabs@),
    decreases items@, 0int,
{
    let ghost start = lines_view(out@);
    let mut i: usize = 0;
    while i < items.len()
        invariant
            i <= items@.len(),
            lines_view(out@) == start + field_lines(items@.subrange(0, i as int), path@, tabs@),
        decreases items@.len() - i,
    {
        proof {
            assert(items@.subrange(0, i + 1).subrange(0, i as int) =~= items@.subrange(0, i as int));
            assert(items@.subrange(0, i + 1)[i as int] == items@[i as int]);
        }
        push_item(&items[i], path, tabs, out);
        proof {
            assert(field_lines(items@.subrange(0, i + 1), path@, tabs@) == field_lines(items@.subrange(0, i as int), path@, tabs@)
                + item_lines(items@[i as int], path@, tabs@));
            assert(lines_view(out@) =~= start + field_lines(items@.subrange(0, i + 1), path@, tabs@));
        }
        i += 1;
    }
    proof {
        assert(items@.subrange(0, items@.len() as int) =~= items@);
    }
}

/// Adds the lines of the items of an array below the path of the array
fn push_array(array: &Vec<Vec<UIValue>>, path: &str, tabs: &str, out: &mut Vec<Vec<Piece>>)
    ensures
        lines_view(final(out)@) == lines_view(old(out)@) + array_lines(array@, path@, tabs@),
    decreases array@, 0int,
{
    let ghost start = lines_view(out@);
    let inner_tabs = joined2(tabs, "  ");
    let mut k: usize = 0;
    while k < array.len()
        invariant
            k <= array@.len(),
            inner_tabs@ == deeper(tabs@),
            lines_view(out@) == start + array_lines(array@.subrange(0, k as int), path@, tabs@),
        decreases array@.len() - k,
    {
        proof {
            assert(array@.subrange(0, k + 1).subrange(0, k as int) =~= array@.subrange(0, k as int));
            assert(array@.subrange(0, k + 1)[k as int] == array@[k as int]);
            assert(inner_tabs@ =~= deeper(tabs@));
        }
        let index_text = decimal_text(k);
        let item_path = joined3(path, ".", index_text.as_str());
        push_fields(&array[k], item_path.as_str(), inner_tabs.as_str(), out);
        push_text(out, String::new());
        proof {
            assert(array_lines(array@.subrange(0, k + 1), path@, tabs@) == array_lines(array@.subrange(0, k as int), path@, tabs@)
                + field_lines(array@[k as int]@, path@ + "."@ + decimal(k as nat), deeper(tabs@)) + seq![text_line(Seq::empty())]);
            assert(lines_view(out@) =~= start + array_lines(array@.subrange(0, k + 1), path@, tabs@));
        }
        k += 1;
    }
    proof {
        assert(array@.subrange(0, array@.len() as int) =~= array@);
    }
}

/// The two texts one after the other
fn joined2(a: &str, b: &str) -> (r: String)
    ensures
        r@ == a@ + b@,
{
    let mut r = to_owned(a);
    r.append(b);
    r
}

/// Adds the line with the type of a field
fn push_type(out: &mut Vec<Vec<Piece>>, tabs: &str, ty: &str)
    ensures
        lines_view(final(out)@) == lines_view(old(out)@).push(type_line(tabs@, ty@)),
{
    push_text(out, joined3(tabs, "Type: ", ty));
}

/// Adds the line with the value of a field, as text
fn push_value(out: &mut Vec<Vec<Piece>>, tabs: &str, v: &str)
    ensures
        lines_view(final(out)@) == lines_view(old(out)@).push(value_line(tabs@, v@)),
{
    push_text(out, joined3(tabs, "Value: ", v));
}

/// Adds the lines of one field below a path
fn push_item(item: &UIValue, path: &str, tabs: &str, out: &mut Vec<Vec<Piece>>)
    ensures
        lines_view(final(out)@) == lines_view(old(out)@) + item_lines(*item, path@, tabs@),
    decreases *item, 1int,
{
    let ghost start = lines_view(out@);
    let p = if path.unicode_len() == 0 {
        to_owned(item.name.as_str())
    } else {
        joined3(path, ".", item.name.as_str())
    };
    assert(p@ == child_path(path@, item.name@));
    push_text(out, joined2(tabs, item.display_name.as_str()));
    push_text(out, joined3(tabs, "Description: ", item.description.as_str()));
    proof {
        assert(lines_view(out@) =~= start + item_head(*item, tabs@));
    }
    match &item.value {
        UIFieldValue::Header => {},
        UIFieldValue::Collapsable(_) => {},
        _ => push_text(out, joined3(tabs, "Path: ", p.as_str())),
    }
    let ghost mark = lines_view(out@);
    proof {
        assert(mark =~= start + item_head(*item, tabs@) + item_path_lines(*item, p@, tabs@));
    }
    push_body(item, p.as_str(), tabs, out);
    push_text(out, String::new());
    proof {
        assert(lines_view(out@) =~= start + item_lines(*item, path@, tabs@));
    }
}

/// Adds the lines with the type and the value of a field whose path is `p`
fn push_body(item: &UIValue, p: &str, tabs: &str, out: &mut Vec<Vec<Piece>>)
    ensures
        lines_view(final(out)@) == lines_view(old(out)@) + item_body(*item, p@, tabs@),
    decreases *item, 0int,
{
    let ghost start = lines_view(out@);
    match &item.value {
        UIFieldValue::Header => {
            push_type(out, tabs, "Header");
        },
        UIFieldValue::Label(s) => {
            push_type(out, tabs, "Label");
            push_value(out, tabs, s.as_str());
        },
        UIFieldValue::InputFieldFloat(f) => {
            push_type(out, tabs, "Float");
            let line = vec![Piece::Text(joined2(tabs, "Value: ")), Piece::Float(*f)];
            assert(line@.map_values(|q: Piece| q@) =~= seq![PieceView::Text(tabs@ + "Value: "@), PieceView::Float(*f)]);
            push_line(out, line);
        },
        UIFieldValue::ValueSliderFloat(f) => {
            push_type(out, tabs, "Float");
            let line = vec![Piece::Text(joined2(tabs, "Value: ")), Piece::Float(*f)];
            assert(line@.map_values(|q: Piece| q@) =~= seq![PieceView::Text(tabs@ + "Value: "@), PieceView::Float(*f)]);
            push_line(out, line);
        },
        UIFieldValue::InputFieldInteger(i) => {
            push_type(out, tabs, "Integer");
            push_value(out, tabs, int_text(*i).as_str());
        },
        UIFieldValue::ValueSliderInteger(i) => {
            push_type(out, tabs, "Integer");
            push_value(out, tabs, int_text(*i).as_str());
        },
        UIFieldValue::InputFieldString(s) => {
            push_type(out, tabs, "String");
            push_value(out, tabs, s.as_str());
        },
        UIFieldValue::InputFieldFloat2(f1, f2) => {
            push_type(out, tabs, "Float2");
            let line = vec![Piece::Text(joined2(tabs, "Value: ")), Piece::Float(*f1), Piece::Text(to_owned(",")), Piece::Float(*f2)];
            assert(line@.map_values(|q: Piece| q@) =~= seq![PieceView::Text(tabs@ + "Value: "@), PieceView::Float(*f1),
                PieceView::Text(","@), PieceView::Float(*f2)]);
            push_line(out, line);
        },
        UIFieldValue::InputFieldInteger2(i1, i2) => {
            push_type(out, tabs, "Integer2");
            let a = int_text(*i1);
            let b = int_text(*i2);
            push_value(out, tabs, joined3(a.as_str(), ",", b.as_str()).as_str());
        },
        UIFieldValue::InputFieldUnsignedInteger(u) => {
            push_type(out, tabs, "Positive Integer");
            let n: u32 = *u;
            push_value(out, tabs, decimal_text(n as usize).as_str());
        },
        UIFieldValue::Choice(s) => {
            push_type(out, tabs, "Choice");
            push_value(out, tabs, s.as_str());
            match &item.ty {
                UIFieldType::Choice(variants) => {
                    let options = comma_text(variants);
                    push_text(out, joined3(tabs, "Options: ", options.as_str()));
                },
                _ => {},
            }
        },
        UIFieldValue::Checkbox(b) => {
            push_type(out, tabs, "Boolean");
            push_value(out, tabs, if *b { "true" } else { "false" });
        },
        UIFieldValue::Color(c1, c2, c3, c4) => {
            push_type(out, tabs, "Color");
            let (r, g, bl, al): (u8, u8, u8, u8) = (*c1, *c2, *c3, *c4);
            let mut v = decimal_text(r as usize);
            v.append(",");
            v.append(decimal_text(g as usize).as_str());
            v.append(",");
            v.append(decimal_text(bl as usize).as_str());
            v.append(",");
            v.append(decimal_text(al as usize).as_str());
            push_value(out, tabs, v.as_str());
        },
        UIFieldValue::Collapsable(sub) => {
            push_type(out, tabs, "Submenu");
            push_text(out, joined2(tabs, "Items:"));
            let inner_tabs = joined2(tabs, "  ");
            push_fields(sub, p, inner_tabs.as_str(), out);
        },
        UIFieldValue::Array(array) => {
            push_type(out, tabs, "Array");
            push_text(out, joined2(tabs, "Items:"));
            push_array(array, p, tabs, out);
        },
        UIFieldValue::ImageData(img) => {
            push_type(out, tabs, "ImageData");
            let line = vec![Piece::Image(to_owned(img.as_str()))];
            assert(line@.map_values(|q: Piece| q@) =~= seq![PieceView::Image(img@)]);
            push_line(out, line);
        },
        UIFieldValue::ExistingImage(id) => {
            push_type(out, tabs, "ExistingImage");
            push_text(out, joined3(tabs, "Identifier: ", id.as_str()));
        },
        UIFieldValue::Font(f) => {
            push_type(out, tabs, "Font");
            push_text(out, joined3(tabs, "Font Name: ", f.as_str()));
        },
        UIFieldValue::Button => {
            push_type(out, tabs, "Button");
        },
    }
    proof {
        assert(lines_view(out@) =~= start + item_body(*item, p@, tabs@));
    }
}

/// Lines of the fields of a module's settings or of a component's values, as the prompt lists
/// them: the fields at the top have their name as path and no indentation
pub fn list_fields(items: &Vec<UIValue>) -> (lines: Vec<Vec<Piece>>)
    ensures
        lines_view(lines@) == field_lines(items@, Seq::empty(), Seq::empty()),
{
    let mut out: Vec<Vec<Piece>> = Vec::new();
    let empty = String::new();
    push_fields(items, empty.as_str(), empty.as_str(), &mut out);
    proof {
        assert(lines_view(out@) =~= Seq::empty() + field_lines(items@, Seq::empty(), Seq::empty()));
    }
    out
}

/// Adds the lines of a list of fields that carry their paths
fn push_path_fields(items: &Vec<UIPathValue>, tabs: &str, out: &mut Vec<Vec<Piece>>)
    ensures
        lines_view(final(out)@) == lines_view(old(out)@) + path_field_lines(items@, tabs@),
    decreases items@, 0int,
{
    let ghost start = lines_view(out@);
    let mut i: usize = 0;
    while i < items.len()
        invariant
            i <= items@.len(),
            lines_view(out@) == start + path_field_lines(items@.subrange(0, i as int), tabs@),
        decreases items@.len() - i,
    {
        proof {
            assert(items@.subrange(0, i + 1).subrange(0, i as int) =~= items@.subrange(0, i as int));
            assert(items@.subrange(0, i + 1)[i as int] == items@[i as int]);
        }
        push_path_item(&items[i], tabs, out);
        proof {
            assert(path_field_lines(items@.subrange(0, i + 1), tabs@) == path_field_lines(items@.subrange(0, i as int), tabs@)
                + path_item_lines(items@[i as int], tabs@));
            assert(lines_view(out@) =~= start + path_field_lines(items@.subrange(0, i + 1), tabs@));
        }
        i += 1;
    }
    proof {
        assert(items@.subrange(0, items@.len() as int) =~= items@);
    }
}

/// Adds the lines of the items of an array of fields that carry their paths
fn push_path_array(array: &Vec<Vec<UIPathValue>>, tabs: &str, out: &mut Vec<Vec<Piece>>)
    ensures
        lines_view(final(out)@) == lines_view(old(out)@) + path_array_lines(array@, tabs@),
    decreases array@, 0int,
{
    let ghost start = lines_view(out@);
    let inner_tabs = joined2(tabs, "  ");
    let mut k: usize = 0;
    while k < array.len()
        invariant
            k <= array@.len(),
            inner_tabs@ == deeper(tabs@),
            lines_view(out@) == start + path_array_lines(array@.subrange(0, k as int), tabs@),
        decreases array@.len() - k,
    {
        proof {
            assert(array@.subrange(0, k + 1).subrange(0, k as int) =~= array@.subrange(0, k as int));
            assert(array@.subrange(0, k + 1)[k as int] == array@[k as int]);
        }
        push_path_fields(&array[k], inner_tabs.as_str(), out);
        push_text(out, String::new());
        proof {
            assert(path_array_lines(array@.subrange(0, k + 1), tabs@) == path_array_lines(array@.subrange(0, k as int), tabs@)
                + path_field_lines(array@[k as int]@, deeper(tabs@)) + seq![text_line(Seq::empty())]);
            assert(lines_view(out@) =~= start + path_array_lines(array@.subrange(0, k + 1), tabs@));
        }
        k += 1;
    }
    proof {
        assert(array@.subrange(0, array@.len() as int) =~= array@);
    }
}

/// Adds the lines of one field that carries its path
fn push_path_item(item: &UIPathValue, tabs: &str, out: &mut Vec<Vec<Piece>>)
    ensures
        lines_view(final(out)@) == lines_view(old(out)@) + path_item_lines(*item, tabs@),
    decreases *item, 1int,
{
    let ghost start = lines_view(out@);
    push_text(out, joined2(tabs, item.display_name.as_str()));
    push_text(out, joined3(tabs, "Description: ", item.description.as_str()));
    match &item.value {
        UIPathFieldValue::Header => {},
        UIPathFieldValue::Collapsable(_) => {},
        _ => push_text(out, joined3(tabs, "Path: ", item.path.as_str())),
    }
    let ghost mark = lines_view(out@);
    proof {
        assert(mark =~= start + seq![text_line(tabs@ + item.display_name@), text_line(tabs@ + "Description: "@ + item.description@)]
            + path_line_of(*item, tabs@));
    }
    push_path_body(item, tabs, out);
    push_text(out, String::new());
    proof {
        assert(lines_view(out@) =~= start + path_item_lines(*item, tabs@));
    }
}

/// Adds the lines with the type and the value of a field that carries its path
fn push_path_body(item: &UIPathValue, tabs: &str, out: &mut Vec<Vec<Piece>>)
    ensures
        lines_view(final(out)@) == lines_view(old(out)@) + path_item_body(*item, tabs@),
    decreases *item, 0int,
{
    let ghost start = lines_view(out@);
    match &item.value {
        UIPathFieldValue::Header => {
            push_type(out, tabs, "Header");
        },
        UIPathFieldValue::Label(s) => {
            push_type(out, tabs, "Label");
            push_value(out, tabs, s.as_str());
        },
        UIPathFieldValue::InputFieldFloat(f) => {
            push_type(out, tabs, "Float");
            let line = vec![Piece::Text(joined2(tabs, "Value: ")), Piece::Float(*f)];
            assert(line@.map_values(|q: Piece| q@) =~= seq![PieceView::Text(tabs@ + "Value: "@), PieceView::Float(*f)]);
            push_line(out, line);
        },
        UIPathFieldValue::ValueSliderFloat(f) => {
            push_type(out, tabs, "Float");
            let line = vec![Piece::Text(joined2(tabs, "Value: ")), Piece::Float(*f)];
            assert(line@.map_values(|q: Piece| q@) =~= seq![PieceView::Text(tabs@ + "Value: "@), PieceView::Float(*f)]);
            push_line(out, line);
        },
        UIPathFieldValue::InputFieldInteger(i) => {
            push_type(out, tabs, "Integer");
            push_value(out, tabs, int_text(*i).as_str());
        },
        UIPathFieldValue::ValueSliderInteger(i) => {
            push_type(out, tabs, "Integer");
            push_value(out, tabs, int_text(*i).as_str());
        },
        UIPathFieldValue::InputFieldString(s) => {
            push_type(out, tabs, "String");
            push_value(out, tabs, s.as_str());
        },
        UIPathFieldValue::InputFieldFloat2(f1, f2) => {
            push_type(out, tabs, "Float2");
            let line = vec![Piece::Text(joined2(tabs, "Value: ")), Piece::Float(*f1), Piece::Text(to_owned(",")), Piece::Float(*f2)];
            assert(line@.map_values(|q: Piece| q@) =~= seq![PieceView::Text(tabs@ + "Value: "@), PieceView::Float(*f1),
                PieceView::Text(","@), PieceView::Float(*f2)]);
            push_line(out, line);
        },
        UIPathFieldValue::InputFieldInteger2(i1, i2) => {
            push_type(out, tabs, "Integer2");
            let a = int_text(*i1);
            let b = int_text(*i2);
            push_value(out, tabs, joined3(a.as_str(), ",", b.as_str()).as_str());
        },
        UIPathFieldValue::InputFieldUnsignedInteger(u) => {
            push_type(out, tabs, "Positive Integer");
            let n: u32 = *u;
            push_value(out, tabs, decimal_text(n as usize).as_str());
        },
        UIPathFieldValue::Choice(s) => {
            push_type(out, tabs, "Choice");
            push_value(out, tabs, s.as_str());
            match &item.ty {
                UIFieldType::Choice(variants) => {
                    let options = comma_text(variants);
                    push_text(out, joined3(tabs, "Options: ", options.as_str()));
                },
                _ => {},
            }
        },
        UIPathFieldValue::Checkbox(b) => {
            push_type(out, tabs, "Boolean");
            push_value(out, tabs, if *b { "true" } else { "false" });
        },
        UIPathFieldValue::Color(c1, c2, c3, c4) => {
            push_type(out, tabs, "Color");
            let (r, g, bl, al): (u8, u8, u8, u8) = (*c1, *c2, *c3, *c4);
            let mut v = decimal_text(r as usize);
            v.append(",");
            v.append(decimal_text(g as usize).as_str());
            v.append(",");
            v.append(decimal_text(bl as usize).as_str());
            v.append(",");
            v.append(decimal_text(al as usize).as_str());
            push_value(out, tabs, v.as_str());
        },
        UIPathFieldValue::Collapsable(sub) => {
            push_type(out, tabs, "Submenu");
            push_text(out, joined2(tabs, "Items:"));
            let inner_tabs = joined2(tabs, "  ");
            push_path_fields(sub, inner_tabs.as_str(), out);
        },
        UIPathFieldValue::Array(array) => {
            push_type(out, tabs, "Array");
            push_text(out, joined2(tabs, "Items:"));
            push_path_array(array, tabs, out);
        },
        UIPathFieldValue::ImageData(data) => {
            push_type(out, tabs, "ImageData");
            push_text(out, joined3(tabs, "Data: ", data.as_str()));
        },
        UIPathFieldValue::ExistingImage(id) => {
            push_type(out, tabs, "ExistingImage");
            push_text(out, joined3(tabs, "Identifier: ", id.as_str()));
        },
        UIPathFieldValue::Font(f) => {
            push_type(out, tabs, "Font");
            push_text(out, joined3(tabs, "Font Name: ", f.as_str()));
        },
    }
    proof {
        assert(lines_view(out@) =~= start + path_item_body(*item, tabs@));
    }
}

/// Lines of the values of a button's component, as the prompt lists them: each field with
/// the path it carries, the fields at the top without indentation
pub fn list_path_fields(items: &Vec<UIPathValue>) -> (lines: Vec<Vec<Piece>>)
    ensures
        lines_view(lines@) == path_field_lines(items@, Seq::empty()),
{
    let mut out: Vec<Vec<Piece>> = Vec::new();
    let empty = String::new();
    push_path_fields(items, empty.as_str(), &mut out);
    proof {
        assert(lines_view(out@) =~= Seq::empty() + path_field_lines(items@, Seq::empty()));
    }
    out
}

/// The digits of a number in decimal are digits, at least one, and write the number back.
proof fn lemma_decimal_reads_back(n: nat)
    ensures
        decimal(n).len() > 0,
        all_digits(decimal(n)),
        digits_value(decimal(n)) == n,
    decreases n,
{
    if n >= 10 {
        lemma_decimal_reads_back(n / 10);
        let s = decimal(n);
        assert(s.drop_last() =~= decimal(n / 10));
        assert(s.last() == digit_char(n % 10));
        assert((digit_char(n % 10) as nat) - ('0' as nat) == n % 10);
        assert(digits_value(s) == digits_value(s.drop_last()) * 10 + ((s.last() as nat) - ('0' as nat)) as nat);
        assert((n / 10) * 10 + n % 10 == n) by (nonlinear_arith);
        assert forall|i: int| 0 <= i < s.len() implies is_digit(#[trigger] s[i]) by {
            if i < s.len() - 1 {
                assert(s[i] == decimal(n / 10)[i]);
            }
        }
    } else {
        let s = decimal(n);
        assert(s.drop_last() =~= Seq::<char>::empty());
        assert((digit_char(n) as nat) - ('0' as nat) == n);
        assert(digits_value(s) == digits_value(s.drop_last()) * 10 + ((s.last() as nat) - ('0' as nat)) as nat);
    }
}

/// What the prompt prints of an integer value reads back as the same integer, as the prompt
/// reads values typed for a field of that type.
pub proof fn law_printed_integer_reads_back(i: int, signed: bool, lo: int, hi: int)
    requires
        lo <= i <= hi,
        i < 0 ==> signed,
    ensures
        parse_int(signed_decimal(i), signed, lo, hi) == Some(i),
{
    let n: nat = if i < 0 { (-i) as nat } else { i as nat };
    lemma_decimal_reads_back(n);
    let d = decimal(n);
    reveal_strlit("-");
    if i < 0 {
        let s = "-"@ + d;
        assert(s[0] == '-');
        assert(s.drop_first() =~= d);
    } else {
        assert(is_digit(d[0]));
    }
}

/// A text without the separator is one piece.
proof fn lemma_split_single(s: Seq<char>, sep: char)
    requires
        forall|i: int| 0 <= i < s.len() ==> s[i] != sep,
    ensures
        split_on(s, sep) == seq![s],
    decreases s.len(),
{
    if s.len() > 0 {
        lemma_split_single(s.drop_last(), sep);
        assert(s.drop_last().push(s.last()) =~= s);
    } else {
        assert(s =~= Seq::<char>::empty());
    }
}

/// A separator followed by a text without the separator adds that text as a last piece.
proof fn lemma_split_then(a: Seq<char>, sep: char, b: Seq<char>)
    requires
        forall|i: int| 0 <= i < b.len() ==> b[i] != sep,
    ensures
        split_on(a + seq![sep] + b, sep) == split_on(a, sep).push(b),
    decreases b.len(),
{
    let s = a + seq![sep] + b;
    if b.len() == 0 {
        assert(s.drop_last() =~= a);
        assert(b =~= Seq::<char>::empty());
    } else {
        lemma_split_then(a, sep, b.drop_last());
        assert(s.drop_last() =~= a + seq![sep] + b.drop_last());
        assert(s.last() == b.last());
        assert(b.drop_last().push(b.last()) =~= b);
        let init = split_on(s.drop_last(), sep);
        assert(init.update(init.len() - 1, init.last().push(s.last())) =~= split_on(a, sep).push(b));
    }
}

/// A printed integer holds no comma.
proof fn lemma_signed_decimal_no_comma(i: int)
    ensures
        forall|j: int| 0 <= j < signed_decimal(i).len() ==> signed_decimal(i)[j] != ',',
{
    let n: nat = if i < 0 { (-i) as nat } else { i as nat };
    lemma_decimal_reads_back(n);
    reveal_strlit("-");
    let t = signed_decimal(i);
    assert forall|j: int| 0 <= j < t.len() implies t[j] != ',' by {
        if i < 0 {
            if j > 0 {
                assert(t[j] == decimal(n)[j - 1]);
                assert(is_digit(decimal(n)[j - 1]));
            }
        } else {
            assert(is_digit(decimal(n)[j]));
        }
    }
}

/// What the listing prints as the value of a colour field reads back as the same colour, as
/// the prompt reads values typed for a field of that type.
pub proof fn law_printed_color_reads_back(
    c1: u8,
    c2: u8,
    c3: u8,
    c4: u8,
    float: Option<FloatBits>,
    float_pair: (Option<FloatBits>, Option<FloatBits>),
)
    ensures
        parsed_value(color_text(c1, c2, c3, c4), UIFieldType::Color, float, float_pair,
            Some(UIFieldValue::Color(c1, c2, c3, c4))),
{
    let d1 = decimal(c1 as nat);
    let d2 = decimal(c2 as nat);
    let d3 = decimal(c3 as nat);
    let d4 = decimal(c4 as nat);
    lemma_signed_decimal_no_comma(c1 as int);
    lemma_signed_decimal_no_comma(c2 as int);
    lemma_signed_decimal_no_comma(c3 as int);
    lemma_signed_decimal_no_comma(c4 as int);
    assert(signed_decimal(c1 as int) == d1 && signed_decimal(c2 as int) == d2);
    assert(signed_decimal(c3 as int) == d3 && signed_decimal(c4 as int) == d4);
    reveal_strlit(",");
    lemma_split_single(d1, ',');
    lemma_split_then(d1, ',', d2);
    assert(d1 + ","@ + d2 == d1 + seq![','] + d2);
    lemma_split_then(d1 + ","@ + d2, ',', d3);
    assert(d1 + ","@ + d2 + ","@ + d3 == (d1 + ","@ + d2) + seq![','] + d3);
    lemma_split_then(d1 + ","@ + d2 + ","@ + d3, ',', d4);
    assert(color_text(c1, c2, c3, c4) == (d1 + ","@ + d2 + ","@ + d3) + seq![','] + d4);
    let ps = split_on(color_text(c1, c2, c3, c4), ',');
    assert(ps =~= seq![d1, d2, d3, d4]);
    law_printed_integer_reads_back(c1 as int, false, 0, 0xff);
    law_printed_integer_reads_back(c2 as int, false, 0, 0xff);
    law_printed_integer_reads_back(c3 as int, false, 0, 0xff);
    law_printed_integer_reads_back(c4 as int, false, 0, 0xff);
}

/// What the listing prints as the value of an integer pair field reads back as the same
/// pair, as the prompt reads values typed for a field of that type.
pub proof fn law_printed_integer_pair_reads_back(
    i1: i32,
    i2: i32,
    float: Option<FloatBits>,
    float_pair: (Option<FloatBits>, Option<FloatBits>),
)
    ensures
        parsed_value(integer_pair_text(i1, i2), UIFieldType::InputFieldInteger2, float, float_pair,
            Some(UIFieldValue::InputFieldInteger2(i1, i2))),
{
    let d1 = signed_decimal(i1 as int);
    let d2 = signed_decimal(i2 as int);
    lemma_signed_decimal_no_comma(i1 as int);
    lemma_signed_decimal_no_comma(i2 as int);
    reveal_strlit(",");
    lemma_split_single(d1, ',');
    lemma_split_then(d1, ',', d2);
    assert(integer_pair_text(i1, i2) == d1 + seq![','] + d2);
    let ps = split_on(integer_pair_text(i1, i2), ',');
    assert(ps =~= seq![d1, d2]);
    law_printed_integer_reads_back(i1 as int, true, -0x8000_0000, 0x7fff_ffff);
    law_printed_integer_reads_back(i2 as int, true, -0x8000_0000, 0x7fff_ffff);
}

/// What the listing prints as the value of a checkbox field, with or without a path of its
/// own, reads back as the same boolean, as the prompt reads values typed for a checkbox.
pub proof fn law_printed_checkbox_reads_back(
    item: UIValue,
    path_item: UIPathValue,
    p: Seq<char>,
    tabs: Seq<char>,
    b: bool,
    disabled: bool,
    float: Option<FloatBits>,
    float_pair: (Option<FloatBits>, Option<FloatBits>),
)
    requires
        item.value == UIFieldValue::Checkbox(b),
        path_item.value == UIPathFieldValue::Checkbox(b),
    ensures
        parse_bool(bool_text(b)) == Some(b),
        parsed_value(bool_text(b), UIFieldType::Checkbox { disabled }, float, float_pair, Some(UIFieldValue::Checkbox(b))),
        item_body(item, p, tabs) == seq![type_line(tabs, "Boolean"@), text_line(tabs + "Value: "@ + bool_text(b))],
        path_item_body(path_item, tabs) == seq![type_line(tabs, "Boolean"@), text_line(tabs + "Value: "@ + bool_text(b))],
{
    reveal_strlit("true");
    reveal_strlit("false");
    assert("false"@ != "true"@) by {
        assert("false"@.len() != "true"@.len());
    }
}

/// Every kind of field is listed under its own type name: a header as "Header", a float as
/// "Float", an integer as "Integer", a checkbox as "Boolean", a colour as "Color", a submenu as
/// "Submenu", and so on; the type line comes right after the head of the field.
pub proof fn law_fields_listed_under_their_type_names(item: UIValue, path_item: UIPathValue, p: Seq<char>, tabs: Seq<char>)
    ensures
        item.value matches UIFieldValue::Header ==> item_body(item, p, tabs)[0] == type_line(tabs, "Header"@),
        path_item.value matches UIPathFieldValue::Header ==> path_item_body(path_item, tabs)[0] == type_line(tabs, "Header"@),
        item.value matches UIFieldValue::Label(_) ==> item_body(item, p, tabs)[0] == type_line(tabs, "Label"@),
        path_item.value matches UIPathFieldValue::Label(_) ==> path_item_body(path_item, tabs)[0] == type_line(tabs, "Label"@),
        item.value matches UIFieldValue::InputFieldFloat(_) ==> item_body(item, p, tabs)[0] == type_line(tabs, "Float"@),
        path_item.value matches UIPathFieldValue::InputFieldFloat(_) ==> path_item_body(path_item, tabs)[0] == type_line(tabs, "Float"@),
        item.value matches UIFieldValue::ValueSliderFloat(_) ==> item_body(item, p, tabs)[0] == type_line(tabs, "Float"@),
        path_item.value matches UIPathFieldValue::ValueSliderFloat(_) ==> path_item_body(path_item, tabs)[0] == type_line(tabs, "Float"@),
        item.value matches UIFieldValue::InputFieldInteger(_) ==> item_body(item, p, tabs)[0] == type_line(tabs, "Integer"@),
        path_item.value matches UIPathFieldValue::InputFieldInteger(_) ==> path_item_body(path_item, tabs)[0] == type_line(tabs, "Integer"@),
        item.value matches UIFieldValue::ValueSliderInteger(_) ==> item_body(item, p, tabs)[0] == type_line(tabs, "Integer"@),
        path_item.value matches UIPathFieldValue::ValueSliderInteger(_) ==> path_item_body(path_item, tabs)[0] == type_line(tabs, "Integer"@),
        item.value matches UIFieldValue::InputFieldString(_) ==> item_body(item, p, tabs)[0] == type_line(tabs, "String"@),
        path_item.value matches UIPathFieldValue::InputFieldString(_) ==> path_item_body(path_item, tabs)[0] == type_line(tabs, "String"@),
        item.value matches UIFieldValue::InputFieldFloat2(_, _) ==> item_body(item, p, tabs)[0] == type_line(tabs, "Float2"@),
        path_item.value matches UIPathFieldValue::InputFieldFloat2(_, _) ==> path_item_body(path_item, tabs)[0] == type_line(tabs, "Float2"@),
        item.value matches UIFieldValue::InputFieldInteger2(_, _) ==> item_body(item, p, tabs)[0] == type_line(tabs, "Integer2"@),
        path_item.value matches UIPathFieldValue::InputFieldInteger2(_, _) ==> path_item_body(path_item, tabs)[0] == type_line(tabs, "Integer2"@),
        item.value matches UIFieldValue::InputFieldUnsignedInteger(_) ==> item_body(item, p, tabs)[0] == type_line(tabs, "Positive Integer"@),
        path_item.value matches UIPathFieldValue::InputFieldUnsignedInteger(_) ==> path_item_body(path_item, tabs)[0] == type_line(tabs, "Positive Integer"@),
        item.value matches UIFieldValue::Choice(_) ==> item_body(item, p, tabs)[0] == type_line(tabs, "Choice"@),
        path_item.value matches UIPathFieldValue::Choice(_) ==> path_item_body(path_item, tabs)[0] == type_line(tabs, "Choice"@),
        item.value matches UIFieldValue::Checkbox(_) ==> item_body(item, p, tabs)[0] == type_line(tabs, "Boolean"@),
        path_item.value matches UIPathFieldValue::Checkbox(_) ==> path_item_body(path_item, tabs)[0] == type_line(tabs, "Boolean"@),
        item.value matches UIFieldValue::Color(_, _, _, _) ==> item_body(item, p, tabs)[0] == type_line(tabs, "Color"@),
        path_item.value matches UIPathFieldValue::Color(_, _, _, _) ==> path_item_body(path_item, tabs)[0] == type_line(tabs, "Color"@),
        item.value matches UIFieldValue::Collapsable(_) ==> item_body(item, p, tabs)[0] == type_line(tabs, "Submenu"@),
        path_item.value matches UIPathFieldValue::Collapsable(_) ==> path_item_body(path_item, tabs)[0] == type_line(tabs, "Submenu"@),
        item.value matches UIFieldValue::Array(_) ==> item_body(item, p, tabs)[0] == type_line(tabs, "Array"@),
        path_item.value matches UIPathFieldValue::Array(_) ==> path_item_body(path_item, tabs)[0] == type_line(tabs, "Array"@),
        item.value matches UIFieldValue::ImageData(_) ==> item_body(item, p, tabs)[0] == type_line(tabs, "ImageData"@),
        path_item.value matches UIPathFieldValue::ImageData(_) ==> path_item_body(path_item, tabs)[0] == type_line(tabs, "ImageData"@),
        item.value matches UIFieldValue::ExistingImage(_) ==> item_body(item, p, tabs)[0] == type_line(tabs, "ExistingImage"@),
        path_item.value matches UIPathFieldValue::ExistingImage(_) ==> path_item_body(path_item, tabs)[0] == type_line(tabs, "ExistingImage"@),
        item.value matches UIFieldValue::Font(_) ==> item_body(item, p, tabs)[0] == type_line(tabs, "Font"@),
        path_item.value matches UIPathFieldValue::Font(_) ==> path_item_body(path_item, tabs)[0] == type_line(tabs, "Font"@),
        item.value matches UIFieldValue::Button ==> item_body(item, p, tabs)[0] == type_line(tabs, "Button"@),
{
}

/// What the listing prints as the value of a field reads back, as the prompt reads values
/// typed for a field of that type, as the field's value: integers, positive integers, pairs
/// of integers, colours, checkboxes and strings alike.
pub proof fn law_printed_values_read_back(
    item: UIValue,
    p: Seq<char>,
    tabs: Seq<char>,
    float: Option<FloatBits>,
    float_pair: (Option<FloatBits>, Option<FloatBits>),
)
    ensures
        item.value is InputFieldInteger ==> exists|t: Seq<char>| item_body(item, p, tabs)[1] == value_line(tabs, t)
            && #[trigger] parsed_value(t, UIFieldType::InputFieldInteger, float, float_pair, Some(item.value)),
        item.value is InputFieldUnsignedInteger ==> exists|t: Seq<char>| item_body(item, p, tabs)[1] == value_line(tabs, t)
            && #[trigger] parsed_value(t, UIFieldType::InputFieldUnsignedInteger, float, float_pair, Some(item.value)),
        item.value is InputFieldInteger2 ==> exists|t: Seq<char>| item_body(item, p, tabs)[1] == value_line(tabs, t)
            && #[trigger] parsed_value(t, UIFieldType::InputFieldInteger2, float, float_pair, Some(item.value)),
        item.value is Color ==> exists|t: Seq<char>| item_body(item, p, tabs)[1] == value_line(tabs, t)
            && #[trigger] parsed_value(t, UIFieldType::Color, float, float_pair, Some(item.value)),
        item.value is Checkbox ==> exists|t: Seq<char>| item_body(item, p, tabs)[1] == value_line(tabs, t)
            && #[trigger] parsed_value(t, UIFieldType::Checkbox { disabled: false }, float, float_pair, Some(item.value)),
        item.value is InputFieldString ==> exists|t: Seq<char>| item_body(item, p, tabs)[1] == value_line(tabs, t)
            && #[trigger] parsed_value(t, UIFieldType::InputFieldString, float, float_pair, Some(item.value)),
{
    match item.value {
        UIFieldValue::InputFieldInteger(i) => {
            law_printed_integer_reads_back(i as int, true, -0x8000_0000, 0x7fff_ffff);
            assert(parsed_value(signed_decimal(i as int), UIFieldType::InputFieldInteger, float, float_pair, Some(item.value)));
        },
        UIFieldValue::InputFieldUnsignedInteger(u) => {
            law_printed_integer_reads_back(u as int, false, 0, 0xffff_ffff);
            assert(signed_decimal(u as int) == decimal(u as nat));
            assert(parsed_value(decimal(u as nat), UIFieldType::InputFieldUnsignedInteger, float, float_pair, Some(item.value)));
        },
        UIFieldValue::InputFieldInteger2(i1, i2) => {
            law_printed_integer_pair_reads_back(i1, i2, float, float_pair);
            assert(parsed_value(integer_pair_text(i1, i2), UIFieldType::InputFieldInteger2, float, float_pair, Some(item.value)));
        },
        UIFieldValue::Color(c1, c2, c3, c4) => {
            law_printed_color_reads_back(c1, c2, c3, c4, float, float_pair);
            assert(parsed_value(color_text(c1, c2, c3, c4), UIFieldType::Color, float, float_pair, Some(item.value)));
        },
        UIFieldValue::Checkbox(b) => {
            reveal_strlit("true");
            reveal_strlit("false");
            assert("false"@ != "true"@) by {
                assert("false"@.len() != "true"@.len());
            }
            assert(parsed_value(bool_text(b), UIFieldType::Checkbox { disabled: false }, float, float_pair, Some(item.value)));
        },
        UIFieldValue::InputFieldString(s) => {
            assert(parsed_value(s@, UIFieldType::InputFieldString, float, float_pair, Some(item.value)));
        },
        _ => {},
    }
}

} // verus!
