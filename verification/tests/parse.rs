use streamduck::parse::{parse_boolean, parse_index, parse_integer, parse_string_to_value};
use streamduck::ui::{FloatBits, UIFieldType, UIFieldValue, UIScalar};

#[test]
fn integers_read_as_str_parse_reads_them() {
    assert_eq!(parse_integer("42", true, -2147483648, 2147483647), Some(42));
    assert_eq!(parse_integer("+7", true, -2147483648, 2147483647), Some(7));
    assert_eq!(parse_integer("-2147483648", true, -2147483648, 2147483647), Some(-2147483648));
    assert_eq!(parse_integer("2147483648", true, -2147483648, 2147483647), None);
    assert_eq!(parse_integer("-0", true, -2147483648, 2147483647), Some(0));
    assert_eq!(parse_integer("-1", false, 0, 255), None);
    assert_eq!(parse_integer("256", false, 0, 255), None);
    assert_eq!(parse_integer("255", false, 0, 255), Some(255));
    assert_eq!(parse_integer("", false, 0, 255), None);
    assert_eq!(parse_integer("+", false, 0, 255), None);
    assert_eq!(parse_integer("1 ", false, 0, 255), None);
    assert_eq!(parse_integer("99999999999999999999", false, 0, 4294967295), None);
    assert_eq!(parse_integer("4294967295", false, 0, 4294967295), Some(4294967295));
}

#[test]
fn booleans_are_true_or_false() {
    assert_eq!(parse_boolean("true"), Some(true));
    assert_eq!(parse_boolean("false"), Some(false));
    assert_eq!(parse_boolean("True"), None);
}

#[test]
fn typed_values_follow_the_field_type() {
    let none = (None, None);
    assert!(matches!(parse_string_to_value("12", &UIFieldType::InputFieldInteger, None, none), Some(UIFieldValue::InputFieldInteger(12))));
    assert!(parse_string_to_value("x", &UIFieldType::InputFieldInteger, None, none).is_none());
    assert!(matches!(parse_string_to_value("5", &UIFieldType::InputFieldUnsignedInteger, None, none), Some(UIFieldValue::InputFieldUnsignedInteger(5))));
    assert!(matches!(parse_string_to_value("3,-4", &UIFieldType::InputFieldInteger2, None, none), Some(UIFieldValue::InputFieldInteger2(3, -4))));
    assert!(matches!(parse_string_to_value("3,-4,9", &UIFieldType::InputFieldInteger2, None, none), Some(UIFieldValue::InputFieldInteger2(3, -4))));
    assert!(parse_string_to_value("3", &UIFieldType::InputFieldInteger2, None, none).is_none());
    assert!(matches!(parse_string_to_value("1,2,3,255", &UIFieldType::Color, None, none), Some(UIFieldValue::Color(1, 2, 3, 255))));
    assert!(parse_string_to_value("1,2,3,256", &UIFieldType::Color, None, none).is_none());
    assert!(matches!(parse_string_to_value("true", &UIFieldType::Checkbox { disabled: false }, None, none), Some(UIFieldValue::Checkbox(true))));
    assert!(matches!(parse_string_to_value("a b", &UIFieldType::InputFieldString, None, none), Some(UIFieldValue::InputFieldString(s)) if s == "a b"));
    assert!(matches!(parse_string_to_value("c", &UIFieldType::Choice(vec![]), None, none), Some(UIFieldValue::InputFieldString(s)) if s == "c"));
    assert!(matches!(parse_string_to_value("f", &UIFieldType::Font, None, none), Some(UIFieldValue::Font(s)) if s == "f"));
    assert!(matches!(parse_string_to_value("i", &UIFieldType::ExistingImage, None, none), Some(UIFieldValue::ExistingImage(s)) if s == "i"));
    assert!(matches!(parse_string_to_value("d", &UIFieldType::ImageData, None, none), Some(UIFieldValue::ImageData(s)) if s == "d"));
    assert!(matches!(parse_string_to_value("", &UIFieldType::Button { disabled: false }, None, none), Some(UIFieldValue::Button)));
    assert!(parse_string_to_value("", &UIFieldType::Button { disabled: true }, None, none).is_none());
    assert!(parse_string_to_value("x", &UIFieldType::Header, None, none).is_none());
    assert!(parse_string_to_value("x", &UIFieldType::Collapsable, None, none).is_none());
    assert!(parse_string_to_value("x", &UIFieldType::Array(vec![]), None, none).is_none());
}

#[test]
fn floats_come_from_the_caller() {
    let half = FloatBits(0.5f32.to_bits());
    assert!(matches!(parse_string_to_value("0.5", &UIFieldType::InputFieldFloat, Some(half), (None, None)), Some(UIFieldValue::InputFieldFloat(f)) if f == half));
    let slider = UIFieldType::ValueSliderFloat(UIScalar { default_value: half, max_value: half, min_value: half, step: half, allow_out_of_bounds: false });
    assert!(matches!(parse_string_to_value("0.5", &slider, Some(half), (None, None)), Some(UIFieldValue::InputFieldFloat(f)) if f == half));
    assert!(parse_string_to_value("z", &UIFieldType::InputFieldFloat, None, (None, None)).is_none());
    assert!(matches!(parse_string_to_value("0.5,0.5", &UIFieldType::InputFieldFloat2, None, (Some(half), Some(half))), Some(UIFieldValue::InputFieldFloat2(a, b)) if a == half && b == half));
    assert!(parse_string_to_value("0.5", &UIFieldType::InputFieldFloat2, None, (Some(half), None)).is_none());
    let int_slider = UIFieldType::ValueSliderInteger(UIScalar { default_value: 0, max_value: 10, min_value: 0, step: 1, allow_out_of_bounds: false });
    assert!(matches!(parse_string_to_value("7", &int_slider, None, (None, None)), Some(UIFieldValue::ValueSliderInteger(7))));
}

#[test]
fn printed_colors_and_pairs_read_back() {
    use_printed_value(|| UIFieldType::Color, || UIFieldValue::Color(0, 17, 200, 255));
    use_printed_value(|| UIFieldType::InputFieldInteger2, || UIFieldValue::InputFieldInteger2(-2147483648, 2147483647));
    use_printed_value(|| UIFieldType::InputFieldInteger2, || UIFieldValue::InputFieldInteger2(0, -9));
}

fn use_printed_value(ty: fn() -> UIFieldType, value: fn() -> UIFieldValue) {
    let item = streamduck::ui::UIValue {
        name: "v".to_string(),
        display_name: "V".to_string(),
        description: "d".to_string(),
        ty: ty(),
        value: value(),
    };
    let lines = streamduck::params::list_fields(&vec![item]);
    let text: String = lines[4]
        .iter()
        .map(|p| match p {
            streamduck::params::Piece::Text(t) => t.clone(),
            _ => panic!("a text value was expected"),
        })
        .collect();
    let printed = text.strip_prefix("Value: ").expect("a value line");
    let none = (None, None);
    let back = parse_string_to_value(printed, &ty(), None, none).expect("the printed value reads back");
    assert_eq!(format!("{:?}", back), format!("{:?}", value()));
}

#[test]
fn array_indices_read_as_usize() {
    assert_eq!(parse_index("0"), Some(0));
    assert_eq!(parse_index("+12"), Some(12));
    assert_eq!(parse_index("-1"), None);
    assert_eq!(parse_index(""), None);
    assert_eq!(parse_index("1x"), None);
    assert_eq!(parse_index(&usize::MAX.to_string()), Some(usize::MAX));
    assert_eq!(parse_index("99999999999999999999999"), None);
}
