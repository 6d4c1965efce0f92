use serde_json::Value;
use streamduck::keyed::KeyedList;
use streamduck::localization::{decimal_text, Localization, LocalizationData, LocalizationManager, LocalizedString};

fn english() -> Localization {
    let mut en = Localization::new("English");
    en.insert("greet", "Hello, {0}! You have {1} messages, {0}.");
    en.insert("only.en", "English only");
    en
}

#[test]
fn decimal_writes_numbers() {
    assert_eq!(decimal_text(0), "0");
    assert_eq!(decimal_text(7), "7");
    assert_eq!(decimal_text(10), "10");
    assert_eq!(decimal_text(1234567), "1234567");
}

#[test]
fn translate_fills_placeholders() {
    let en = english();
    let l = LocalizedString::new("greet")
        .with_parameter(Value::String("Ann".to_string()))
        .with_parameter(Value::from(3));
    assert_eq!(en.translate(&l), Some("Hello, Ann! You have 3 messages, Ann.".to_string()));
}

#[test]
fn parameters_other_than_text_are_written_as_json() {
    let mut loc = Localization::new("Test");
    loc.insert("k", "{0}|{1}|{2}|{3}");
    let mut l = LocalizedString::new("k");
    l.add_parameter(Value::Null);
    l.add_parameter(Value::Bool(true));
    l.add_parameter(Value::Array(vec![Value::from(1), Value::from(2)]));
    l.add_parameter(Value::String("s".to_string()));
    assert_eq!(loc.translate(&l), Some("null|true|[1,2]|s".to_string()));
}

#[test]
fn missing_key_gives_nothing() {
    assert_eq!(english().translate(&LocalizedString::new("absent")), None);
}

#[test]
fn insert_then_get_gives_the_value() {
    let mut loc = Localization::new("Test");
    assert_eq!(loc.get("a"), None);
    loc.insert("a", "1");
    loc.insert("b", "2");
    loc.insert("a", "3");
    assert_eq!(loc.get("a"), Some("3".to_string()));
    assert_eq!(loc.get("b"), Some("2".to_string()));
    let mut keys = loc.translation_keys();
    keys.sort();
    assert_eq!(keys, vec!["a".to_string(), "b".to_string()]);
    assert_eq!(loc.display_name(), "Test");
}

#[test]
fn extend_lets_later_pairs_win() {
    let mut loc = Localization::new("Test");
    loc.extend(vec![("a".to_string(), "1".to_string()), ("a".to_string(), "2".to_string())]);
    assert_eq!(loc.get("a"), Some("2".to_string()));
}

#[test]
fn manager_falls_back_to_english() {
    let mut manager = LocalizationManager::new();
    manager.insert("en", english());
    let mut ru = Localization::new("Русский");
    ru.insert("greet", "Привет, {0}!");
    manager.insert("ru", ru);
    let greet = LocalizedString::new("greet").with_parameter(Value::String("Ann".to_string()));
    assert_eq!(manager.translate("ru", &greet), Some("Привет, Ann!".to_string()));
    assert_eq!(manager.translate("ru", &LocalizedString::new("only.en")), Some("English only".to_string()));
    assert_eq!(manager.translate("de", &LocalizedString::new("only.en")), Some("English only".to_string()));
    assert_eq!(manager.translate("ru", &LocalizedString::new("none")), None);
}

#[test]
fn manager_without_english_has_no_fallback() {
    let mut manager = LocalizationManager::new();
    manager.insert("ru", Localization::new("Русский"));
    assert_eq!(manager.translate("ru", &LocalizedString::new("x")), None);
    let kept = manager.get_or_insert("ru", Localization::new("Other"));
    assert_eq!(kept.display_name(), "Русский");
    let added = manager.get_or_insert("fr", Localization::new("Français"));
    assert_eq!(added.display_name(), "Français");
    let mut langs = manager.languages();
    langs.sort();
    assert_eq!(langs, vec!["fr".to_string(), "ru".to_string()]);
}

fn data(name: &str, pairs: &[(&str, &str)]) -> LocalizationData {
    let mut translations = KeyedList::new();
    for (k, v) in pairs {
        translations.insert(k.to_string(), v.to_string());
    }
    LocalizationData { display_name: name.to_string(), translations }
}

#[test]
fn manager_from_serializable_data() {
    let m = LocalizationManager::from_serializable_data(vec![
        ("en".to_string(), data("English", &[("a", "A")])),
        ("ru".to_string(), data("Русский", &[("a", "А")])),
        ("en".to_string(), data("English (new)", &[("a", "A2"), ("b", "B")])),
    ]);
    let mut langs = m.languages();
    langs.sort();
    assert_eq!(langs, vec!["en".to_string(), "ru".to_string()]);
    assert_eq!(m.get("en").unwrap().display_name(), "English (new)");
    assert_eq!(m.get("en").unwrap().get("a"), Some("A2".to_string()));
    assert_eq!(m.get("ru").unwrap().get("a"), Some("А".to_string()));
    assert!(LocalizationManager::from_serializable_data(vec![]).languages().is_empty());
}
