use streamduck::ui::UIPathFieldValue;
use streamduck::params::{comma_text, int_text, list_fields, Piece};
use streamduck::parse::parse_integer;
use streamduck::ui::{FloatBits, UIFieldType, UIFieldValue, UIValue};

fn field(name: &str, ty: UIFieldType, value: UIFieldValue) -> UIValue {
    UIValue {
        name: name.to_string(),
        display_name: format!("{} field", name),
        description: format!("about {}", name),
        ty,
        value,
    }
}

fn text_of(line: &[Piece]) -> String {
    line.iter()
        .map(|p| match p {
            Piece::Text(t) => t.clone(),
            Piece::Float(f) => format!("{}", f32::from_bits(f.0)),
            Piece::Image(_) => "<image>".to_string(),
        })
        .collect()
}

fn rendered(items: &Vec<UIValue>) -> Vec<String> {
    list_fields(items).iter().map(|l| text_of(l)).collect()
}

#[test]
fn integers_in_decimal() {
    assert_eq!(int_text(0), "0");
    assert_eq!(int_text(42), "42");
    assert_eq!(int_text(-7), "-7");
    assert_eq!(int_text(i32::MIN), "-2147483648");
    assert_eq!(int_text(i32::MAX), "2147483647");
}

#[test]
fn options_joined_by_commas() {
    assert_eq!(comma_text(&vec![]), "");
    assert_eq!(comma_text(&vec!["a".to_string()]), "a");
    assert_eq!(comma_text(&vec!["a".to_string(), "b".to_string(), "c".to_string()]), "a,b,c");
}

#[test]
fn top_level_fields() {
    let items = vec![
        field("count", UIFieldType::InputFieldInteger, UIFieldValue::InputFieldInteger(-3)),
        field("mode", UIFieldType::Choice(vec!["x".to_string(), "y".to_string()]), UIFieldValue::Choice("y".to_string())),
        field("on", UIFieldType::Checkbox { disabled: false }, UIFieldValue::Checkbox(true)),
        field("head", UIFieldType::Header, UIFieldValue::Header),
    ];
    assert_eq!(
        rendered(&items),
        vec![
            "count field", "Description: about count", "Path: count", "Type: Integer", "Value: -3", "",
            "mode field", "Description: about mode", "Path: mode", "Type: Choice", "Value: y", "Options: x,y", "",
            "on field", "Description: about on", "Path: on", "Type: Boolean", "Value: true", "",
            "head field", "Description: about head", "Type: Header", "",
        ]
    );
}

#[test]
fn floats_colors_and_images() {
    let items = vec![
        field("f", UIFieldType::InputFieldFloat2, UIFieldValue::InputFieldFloat2(FloatBits(1.5f32.to_bits()), FloatBits(2.0f32.to_bits()))),
        field("c", UIFieldType::Color, UIFieldValue::Color(255, 0, 16, 1)),
        field("img", UIFieldType::ImageData, UIFieldValue::ImageData("aGk=".to_string())),
    ];
    let lines = list_fields(&items);
    assert!(matches!(lines[4][1], Piece::Float(FloatBits(b)) if b == 1.5f32.to_bits()));
    assert_eq!(
        lines.iter().map(|l| text_of(l)).collect::<Vec<String>>(),
        vec![
            "f field", "Description: about f", "Path: f", "Type: Float2", "Value: 1.5,2", "",
            "c field", "Description: about c", "Path: c", "Type: Color", "Value: 255,0,16,1", "",
            "img field", "Description: about img", "Path: img", "Type: ImageData", "<image>", "",
        ]
    );
}

#[test]
fn nested_fields_are_indented_with_paths() {
    let inner = vec![field("size", UIFieldType::InputFieldUnsignedInteger, UIFieldValue::InputFieldUnsignedInteger(12))];
    let items = vec![
        field("menu", UIFieldType::Collapsable, UIFieldValue::Collapsable(inner)),
        field(
            "list",
            UIFieldType::Array(vec![]),
            UIFieldValue::Array(vec![
                vec![field("name", UIFieldType::InputFieldString, UIFieldValue::InputFieldString("a".to_string()))],
                vec![],
            ]),
        ),
    ];
    assert_eq!(
        rendered(&items),
        vec![
            "menu field", "Description: about menu", "Type: Submenu", "Items:",
            "  size field", "  Description: about size", "  Path: menu.size", "  Type: Positive Integer", "  Value: 12", "",
            "",
            "list field", "Description: about list", "Path: list", "Type: Array", "Items:",
            "  name field", "  Description: about name", "  Path: list.0.name", "  Type: String", "  Value: a", "",
            "",
            "",
            "",
        ]
    );
}

#[test]
fn printed_integers_read_back() {
    for i in [0, 7, -7, 1234, -98765, i32::MAX, i32::MIN] {
        let text = int_text(i);
        assert_eq!(parse_integer(&text, true, i32::MIN as i64, i32::MAX as i64), Some(i as i64));
    }
}

fn path_field(name: &str, path: &str, ty: UIFieldType, value: streamduck::ui::UIPathFieldValue) -> streamduck::ui::UIPathValue {
    streamduck::ui::UIPathValue {
        name: name.to_string(),
        path: path.to_string(),
        display_name: format!("{} field", name),
        description: format!("about {}", name),
        ty,
        value,
    }
}

fn rendered_paths(items: &Vec<streamduck::ui::UIPathValue>) -> Vec<String> {
    streamduck::params::list_path_fields(items).iter().map(|l| text_of(l)).collect()
}

#[test]
fn component_values_are_listed_with_their_own_paths() {
    let items = vec![streamduck::ui::UIPathValue {
        name: "color".to_string(),
        path: "c".to_string(),
        display_name: "Col".to_string(),
        description: "d".to_string(),
        ty: UIFieldType::Color,
        value: UIPathFieldValue::Color(1, 2, 3, 4),
    }];
    assert_eq!(rendered_paths(&items), vec!["Col", "Description: d", "Path: c", "Type: Color", "Value: 1,2,3,4", ""]);
}

#[test]
fn component_image_data_is_printed_as_text() {
    let items = vec![
        path_field("img", "renderer.image", UIFieldType::ImageData, UIPathFieldValue::ImageData("aGVsbG8=".to_string())),
        path_field("sub", "renderer.sub", UIFieldType::Collapsable, UIPathFieldValue::Collapsable(vec![
            path_field("n", "renderer.sub.n", UIFieldType::InputFieldInteger, UIPathFieldValue::InputFieldInteger(-3)),
        ])),
    ];
    assert_eq!(rendered_paths(&items), vec![
        "img field", "Description: about img", "Path: renderer.image", "Type: ImageData", "Data: aGVsbG8=", "",
        "sub field", "Description: about sub", "Type: Submenu", "Items:",
        "  n field", "  Description: about n", "  Path: renderer.sub.n", "  Type: Integer", "  Value: -3", "",
        "",
    ]);
}
