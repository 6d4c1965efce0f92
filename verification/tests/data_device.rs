use streamduck::data::{number_from_packed, DoubleBits, NamespacedName, Number, NumberError, PackedNumber};
use streamduck::device::PartialIdentifier;
use streamduck::devices::{ButtonEvent, ButtonPosition};
use streamduck::ui::FloatBits;

#[test]
fn namespaced_name_shows_name_at_plugin() {
    let n = NamespacedName::from_plugin("plug", "thing");
    assert_eq!(n.to_display_string(), "thing@plug");
    assert_eq!(n.plugin_name(), "plug");
    assert_eq!(n.name, "thing");
}

#[test]
fn identifiers_downgrade_and_upgrade() {
    let driver = NamespacedName::from_plugin("p", "driver");
    let partial = PartialIdentifier { identifier: "SN1".to_string(), description: "Deck".to_string() };
    let full = partial.upgrade(&driver);
    assert_eq!(full.driver_name.to_display_string(), "driver@p");
    assert_eq!(full.identifier, "SN1");
    let back = full.downgrade();
    assert_eq!(back.identifier, "SN1");
    assert_eq!(back.description, "Deck");
}

#[test]
fn numbers_know_their_kind() {
    let i = Number::from(-5i64);
    assert!(i.is_i64() && !i.is_u64() && !i.is_f32() && !i.is_f64());
    assert_eq!(i.as_i64(), Some(-5));
    assert_eq!(i.as_u64(), None);
    assert_eq!(i.try_into_u64(), Err(NumberError::IncompatibleVariant));
    let u = Number::from(7u64);
    assert_eq!(u.try_into_u64(), Ok(7));
    assert_eq!(Number::Float(FloatBits(1)).as_f32(), Some(FloatBits(1)));
    assert_eq!(Number::Double(DoubleBits(2)).as_f64(), Some(DoubleBits(2)));
    assert_eq!(Number::Double(DoubleBits(2)).try_into_f32(), Err(NumberError::IncompatibleVariant));
}

#[test]
fn packed_numbers_read_as_numbers() {
    assert_eq!(number_from_packed(PackedNumber::Integer { signed: Some(-1), unsigned: None }), Ok(Number::Integer(-1)));
    assert_eq!(number_from_packed(PackedNumber::Integer { signed: Some(3), unsigned: Some(3) }), Ok(Number::Integer(3)));
    assert_eq!(number_from_packed(PackedNumber::Integer { signed: None, unsigned: Some(u64::MAX) }), Ok(Number::UnsignedInteger(u64::MAX)));
    assert_eq!(number_from_packed(PackedNumber::Integer { signed: None, unsigned: None }), Ok(Number::UnsignedInteger(0)));
    assert_eq!(number_from_packed(PackedNumber::F32(FloatBits(9))), Ok(Number::Float(FloatBits(9))));
    assert_eq!(number_from_packed(PackedNumber::F64(DoubleBits(9))), Ok(Number::Double(DoubleBits(9))));
    assert_eq!(number_from_packed(PackedNumber::Nil), Err(NumberError::NoValue));
    assert_eq!(number_from_packed(PackedNumber::Other), Err(NumberError::IncompatibleVariant));
}

#[test]
fn button_positions_come_from_pairs() {
    let p = ButtonPosition::from((2u16, 3u16));
    assert_eq!(p, ButtonPosition { row: 2, column: 3 });
    assert_eq!(ButtonEvent::name(), "button_event");
    assert_eq!(ButtonEvent::ButtonDown(p), ButtonEvent::ButtonDown(ButtonPosition { row: 2, column: 3 }));
}
